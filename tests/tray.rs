use attendance_tray::report::report_form;
use attendance_tray::tray::{
    item_from_id, Effect, ItemId, Status, Title, Tray, TrayEvent, TrayText,
};

fn click(item: ItemId) -> TrayEvent {
    TrayEvent::MenuItemClick(item)
}

#[test]
fn initial_state_is_idle() {
    let t = Tray::new();
    assert!(!t.is_working);
    assert!(!t.is_on_break);
    assert!(t.attendance_enabled);
    assert!(!t.break_enabled);
    assert_eq!(t.attendance_title(), Title::StartWork);
    assert_eq!(t.break_title(), Title::TakeBreak);
}

#[test]
fn attendance_twice_restores_working_flag() {
    let mut t = Tray::new();
    t.handle(click(ItemId::Attendance));
    assert!(t.is_working);
    t.handle(click(ItemId::Attendance));
    assert!(!t.is_working);
    assert_eq!(t, Tray::new());
}

#[test]
fn starting_work_effects() {
    let mut t = Tray::new();
    let e = t.handle_attendance();
    assert_eq!(
        e,
        vec![
            Effect::SetItemTitle(ItemId::Attendance, Title::EndWork),
            Effect::StartTimer,
            Effect::SetItemEnabled(ItemId::BreakTime, true),
            Effect::Notify(Status::WorkStarted),
        ]
    );
    assert_eq!(t.attendance_title(), Title::EndWork);
}

#[test]
fn ending_work_effects() {
    let mut t = Tray::new();
    t.handle_attendance();
    let e = t.handle_attendance();
    assert_eq!(
        e,
        vec![
            Effect::SetItemTitle(ItemId::Attendance, Title::StartWork),
            Effect::SetItemEnabled(ItemId::BreakTime, false),
            Effect::SetTrayTitle(TrayText::Blank),
            Effect::Notify(Status::WorkEnded),
        ]
    );
}

#[test]
fn break_toggle_enabled_only_while_working() {
    let mut t = Tray::new();
    assert!(!t.break_enabled);
    t.handle(click(ItemId::Attendance));
    assert!(t.break_enabled);
    t.handle(click(ItemId::BreakTime));
    assert!(t.is_on_break);
    assert!(!t.attendance_enabled);
    t.handle(click(ItemId::BreakTime));
    assert!(!t.is_on_break);
    assert!(t.attendance_enabled);
    t.handle(click(ItemId::Attendance));
    assert!(!t.break_enabled);
}

#[test]
fn break_effects() {
    let mut t = Tray::new();
    t.handle_attendance();
    let start = t.handle_break_time();
    assert_eq!(
        start,
        vec![
            Effect::SetItemTitle(ItemId::BreakTime, Title::EndBreak),
            Effect::SetTrayTitle(TrayText::OnBreak),
            Effect::SetItemEnabled(ItemId::Attendance, false),
            Effect::Notify(Status::BreakStarted),
        ]
    );
    assert_eq!(t.break_title(), Title::EndBreak);
    let end = t.handle_break_time();
    assert_eq!(
        end,
        vec![
            Effect::SetItemTitle(ItemId::BreakTime, Title::TakeBreak),
            Effect::SetItemEnabled(ItemId::Attendance, true),
            Effect::Notify(Status::BreakEnded),
        ]
    );
}

#[test]
fn left_click_toggles_break_while_on_break() {
    let mut t = Tray::new();
    t.handle(TrayEvent::LeftClick);
    assert!(t.is_working);
    t.handle(click(ItemId::BreakTime));
    let e = t.handle_tray_left_click();
    assert!(!t.is_on_break);
    assert!(t.is_working);
    assert_eq!(e[2], Effect::Notify(Status::BreakEnded));
    t.handle(TrayEvent::LeftClick);
    assert!(!t.is_working);
}

#[test]
fn quit_and_other_events() {
    let mut t = Tray::new();
    assert_eq!(t.handle(click(ItemId::Quit)), vec![Effect::Exit]);
    assert_eq!(t.handle(TrayEvent::Other), Vec::<Effect>::new());
    assert_eq!(t, Tray::new());
}

#[test]
fn item_ids_and_lookup() {
    assert_eq!(item_from_id("attendance"), Some(ItemId::Attendance));
    assert_eq!(item_from_id("break_time"), Some(ItemId::BreakTime));
    assert_eq!(item_from_id("quit"), Some(ItemId::Quit));
    assert_eq!(item_from_id("other"), None);
    assert_eq!(item_from_id(""), None);
    assert_eq!(ItemId::BreakTime.id(), "break_time");
}

#[test]
fn texts() {
    assert_eq!(Title::StartWork.text(), "業務開始");
    assert_eq!(Title::EndWork.text(), "業務終了");
    assert_eq!(Title::TakeBreak.text(), "休憩");
    assert_eq!(Title::EndBreak.text(), "休憩解除");
    assert_eq!(TrayText::Blank.text(), "");
    assert_eq!(TrayText::OnBreak.text(), "休憩中");
    assert_eq!(Status::WorkStarted.text(), "業務 開始");
    assert_eq!(Status::BreakEnded.text(), "休憩 終了");
}

#[test]
fn report_form_fields() {
    assert_eq!(
        report_form(Status::WorkEnded),
        vec![("name", "多田"), ("status", "業務 終了")]
    );
}
