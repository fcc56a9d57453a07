//! The tray menu as a state machine: each user event gives the next state and
//! the effects that the host must carry out, in order.

use vstd::prelude::*;

verus! {

/// An item of the tray menu.
#[derive(Clone, Copy, Debug, PartialEq, Eq, Structural)]
pub enum ItemId {
    Attendance,
    BreakTime,
    Quit,
}

/// A title that a toggle item of the menu can show.
#[derive(Clone, Copy, Debug, PartialEq, Eq, Structural)]
pub enum Title {
    StartWork,
    EndWork,
    TakeBreak,
    EndBreak,
}

/// A text shown beside the tray icon, other than the stopwatch.
#[derive(Clone, Copy, Debug, PartialEq, Eq, Structural)]
pub enum TrayText {
    Blank,
    OnBreak,
}

/// A status change reported to the webhook.
#[derive(Clone, Copy, Debug, PartialEq, Eq, Structural)]
pub enum Status {
    WorkStarted,
    WorkEnded,
    BreakStarted,
    BreakEnded,
}

/// What the tray host delivers.
#[derive(Clone, Copy, Debug, PartialEq, Eq, Structural)]
pub enum TrayEvent {
    LeftClick,
    MenuItemClick(ItemId),
    Other,
}

/// What the host must do after an event.
#[derive(Clone, Copy, Debug, PartialEq, Eq, Structural)]
pub enum Effect {
    SetItemTitle(ItemId, Title),
    SetItemEnabled(ItemId, bool),
    SetTrayTitle(TrayText),
    StartTimer,
    Notify(Status),
    Exit,
}

/// The two flags and whether each toggle item of the menu is enabled.
#[derive(Clone, Copy, Debug, PartialEq, Eq, Structural)]
pub struct Tray {
    pub is_working: bool,
    pub is_on_break: bool,
    pub attendance_enabled: bool,
    pub break_enabled: bool,
}

/// The id of a menu item.
pub open spec fn item_id_text(i: ItemId) -> Seq<char> {
    match i {
        ItemId::Attendance => "attendance"@,
        ItemId::BreakTime => "break_time"@,
        ItemId::Quit => "quit"@,
    }
}

/// The words of a toggle title.
pub open spec fn title_text(t: Title) -> Seq<char> {
    match t {
        Title::StartWork => "業務開始"@,
        Title::EndWork => "業務終了"@,
        Title::TakeBreak => "休憩"@,
        Title::EndBreak => "休憩解除"@,
    }
}

/// The words of a tray text.
pub open spec fn tray_text(t: TrayText) -> Seq<char> {
    match t {
        TrayText::Blank => ""@,
        TrayText::OnBreak => "休憩中"@,
    }
}

/// The words that report a status.
pub open spec fn status_text(s: Status) -> Seq<char> {
    match s {
        Status::WorkStarted => "業務 開始"@,
        Status::WorkEnded => "業務 終了"@,
        Status::BreakStarted => "休憩 開始"@,
        Status::BreakEnded => "休憩 終了"@,
    }
}

/// The item whose id is `id`, if any.
pub open spec fn item_of_id(id: Seq<char>) -> Option<ItemId> {
    if id == item_id_text(ItemId::Attendance) {
        Some(ItemId::Attendance)
    } else if id == item_id_text(ItemId::BreakTime) {
        Some(ItemId::BreakTime)
    } else if id == item_id_text(ItemId::Quit) {
        Some(ItemId::Quit)
    } else {
        None
    }
}

/// The state at start: idle, with the break toggle disabled.
pub open spec fn initial() -> Tray {
    Tray { is_working: false, is_on_break: false, attendance_enabled: true, break_enabled: false }
}

/// The attendance toggle flips the working flag, and enables the break
/// toggle exactly when work has begun.
pub open spec fn after_attendance(s: Tray) -> Tray {
    Tray { is_working: !s.is_working, break_enabled: !s.is_working, ..s }
}

/// The effects of the attendance toggle.
pub open spec fn attendance_effects(s: Tray) -> Seq<Effect> {
    if !s.is_working {
        seq![
            Effect::SetItemTitle(ItemId::Attendance, Title::EndWork),
            Effect::StartTimer,
            Effect::SetItemEnabled(ItemId::BreakTime, true),
            Effect::Notify(Status::WorkStarted),
        ]
    } else {
        seq![
            Effect::SetItemTitle(ItemId::Attendance, Title::StartWork),
            Effect::SetItemEnabled(ItemId::BreakTime, false),
            Effect::SetTrayTitle(TrayText::Blank),
            Effect::Notify(Status::WorkEnded),
        ]
    }
}

/// The break toggle flips the break flag, and disables the attendance toggle
/// exactly while on break.
pub open spec fn after_break(s: Tray) -> Tray {
    Tray { is_on_break: !s.is_on_break, attendance_enabled: s.is_on_break, ..s }
}

/// The effects of the break toggle.
pub open spec fn break_effects(s: Tray) -> Seq<Effect> {
    if !s.is_on_break {
        seq![
            Effect::SetItemTitle(ItemId::BreakTime, Title::EndBreak),
            Effect::SetTrayTitle(TrayText::OnBreak),
            Effect::SetItemEnabled(ItemId::Attendance, false),
            Effect::Notify(Status::BreakStarted),
        ]
    } else {
        seq![
            Effect::SetItemTitle(ItemId::BreakTime, Title::TakeBreak),
            Effect::SetItemEnabled(ItemId::Attendance, true),
            Effect::Notify(Status::BreakEnded),
        ]
    }
}

/// The state after an event.
pub open spec fn after(s: Tray, e: TrayEvent) -> Tray {
    match e {
        TrayEvent::LeftClick => if s.is_on_break {
            after_break(s)
        } else {
            after_attendance(s)
        },
        TrayEvent::MenuItemClick(ItemId::Attendance) => after_attendance(s),
        TrayEvent::MenuItemClick(ItemId::BreakTime) => after_break(s),
        _ => s,
    }
}

/// The effects of an event, in the order the host must carry them out.
pub open spec fn effects(s: Tray, e: TrayEvent) -> Seq<Effect> {
    match e {
        TrayEvent::LeftClick => if s.is_on_break {
            break_effects(s)
        } else {
            attendance_effects(s)
        },
        TrayEvent::MenuItemClick(ItemId::Attendance) => attendance_effects(s),
        TrayEvent::MenuItemClick(ItemId::BreakTime) => break_effects(s),
        TrayEvent::MenuItemClick(ItemId::Quit) => seq![Effect::Exit],
        TrayEvent::Other => seq![],
    }
}

/// The menu shows each toggle enabled exactly when the other state allows it:
/// the break toggle only while working, the attendance toggle only while not
/// on break.
pub open spec fn menu_consistent(s: Tray) -> bool {
    &&& s.break_enabled == s.is_working
    &&& s.attendance_enabled == !s.is_on_break
    &&& s.is_on_break ==> s.is_working
}

/// Whether the host can deliver `e` in state `s`: a disabled item gives no click.
pub open spec fn deliverable(s: Tray, e: TrayEvent) -> bool {
    match e {
        TrayEvent::MenuItemClick(ItemId::Attendance) => s.attendance_enabled,
        TrayEvent::MenuItemClick(ItemId::BreakTime) => s.break_enabled,
        _ => true,
    }
}

impl ItemId {
    /// The id under which the item stands in the menu.
    pub fn id(&self) -> (r: &'static str)
        ensures
            r@ == item_id_text(*self),
    {
        match self {
            ItemId::Attendance => "attendance",
            ItemId::BreakTime => "break_time",
            ItemId::Quit => "quit",
        }
    }
}

impl Title {
    /// The words that the menu item shows.
    pub fn text(&self) -> (r: &'static str)
        ensures
            r@ == title_text(*self),
    {
        match self {
            Title::StartWork => "業務開始",
            Title::EndWork => "業務終了",
            Title::TakeBreak => "休憩",
            Title::EndBreak => "休憩解除",
        }
    }
}

impl TrayText {
    /// The words shown beside the tray icon.
    pub fn text(&self) -> (r: &'static str)
        ensures
            r@ == tray_text(*self),
    {
        match self {
            TrayText::Blank => "",
            TrayText::OnBreak => "休憩中",
        }
    }
}

impl Status {
    /// The status field of the report.
    pub fn text(&self) -> (r: &'static str)
        ensures
            r@ == status_text(*self),
    {
        match self {
            Status::WorkStarted => "業務 開始",
            Status::WorkEnded => "業務 終了",
            Status::BreakStarted => "休憩 開始",
            Status::BreakEnded => "休憩 終了",
        }
    }
}

/// The menu item whose id is `id`; `None` for an id that no item has.
pub fn item_from_id(id: &str) -> (r: Option<ItemId>)
    ensures
        r == item_of_id(id@),
{
    let given = id.to_owned();
    if given == ItemId::Attendance.id().to_owned() {
        Some(ItemId::Attendance)
    } else if given == ItemId::BreakTime.id().to_owned() {
        Some(ItemId::BreakTime)
    } else if given == ItemId::Quit.id().to_owned() {
        Some(ItemId::Quit)
    } else {
        None
    }
}

impl Tray {
    /// The state at start: neither working nor on break; the break toggle disabled.
    pub fn new() -> (r: Tray)
        ensures
            r == initial(),
            menu_consistent(r),
    {
        Tray { is_working: false, is_on_break: false, attendance_enabled: true, break_enabled: false }
    }

    /// The title the attendance item shows in this state.
    pub fn attendance_title(&self) -> (r: Title)
        ensures
            r == (if self.is_working { Title::EndWork } else { Title::StartWork }),
    {
        if self.is_working {
            Title::EndWork
        } else {
            Title::StartWork
        }
    }

    /// The title the break item shows in this state.
    pub fn break_title(&self) -> (r: Title)
        ensures
            r == (if self.is_on_break { Title::EndBreak } else { Title::TakeBreak }),
    {
        if self.is_on_break {
            Title::EndBreak
        } else {
            Title::TakeBreak
        }
    }

    /// Toggles the working flag: starts the stopwatch and enables the break
    /// toggle when work begins, clears the tray text and disables the break
    /// toggle when it ends, and reports the change.
    pub fn handle_attendance(&mut self) -> (r: Vec<Effect>)
        ensures
            *final(self) == after_attendance(*old(self)),
            r@ == attendance_effects(*old(self)),
    {
        let new_value = !self.is_working;
        self.is_working = new_value;
        self.break_enabled = new_value;
        let mut r: Vec<Effect> = Vec::new();
        if new_value {
            r.push(Effect::SetItemTitle(ItemId::Attendance, Title::EndWork));
            r.push(Effect::StartTimer);
            r.push(Effect::SetItemEnabled(ItemId::BreakTime, true));
            r.push(Effect::Notify(Status::WorkStarted));
        } else {
            r.push(Effect::SetItemTitle(ItemId::Attendance, Title::StartWork));
            r.push(Effect::SetItemEnabled(ItemId::BreakTime, false));
            r.push(Effect::SetTrayTitle(TrayText::Blank));
            r.push(Effect::Notify(Status::WorkEnded));
        }
        assert(r@ =~= attendance_effects(*old(self)));
        r
    }

    /// Toggles the break flag: shows the break text and disables the
    /// attendance toggle when the break begins, enables it again when the
    /// break ends, and reports the change.
    pub fn handle_break_time(&mut self) -> (r: Vec<Effect>)
        ensures
            *final(self) == after_break(*old(self)),
            r@ == break_effects(*old(self)),
    {
        let new_value = !self.is_on_break;
        self.is_on_break = new_value;
        self.attendance_enabled = !new_value;
        let mut r: Vec<Effect> = Vec::new();
        if new_value {
            r.push(Effect::SetItemTitle(ItemId::BreakTime, Title::EndBreak));
            r.push(Effect::SetTrayTitle(TrayText::OnBreak));
            r.push(Effect::SetItemEnabled(ItemId::Attendance, false));
            r.push(Effect::Notify(Status::BreakStarted));
        } else {
            r.push(Effect::SetItemTitle(ItemId::BreakTime, Title::TakeBreak));
            r.push(Effect::SetItemEnabled(ItemId::Attendance, true));
            r.push(Effect::Notify(Status::BreakEnded));
        }
        assert(r@ =~= break_effects(*old(self)));
        r
    }

    /// A click on the tray icon ends the break while on break, and toggles
    /// attendance otherwise.
    pub fn handle_tray_left_click(&mut self) -> (r: Vec<Effect>)
        ensures
            *final(self) == after(*old(self), TrayEvent::LeftClick),
            r@ == effects(*old(self), TrayEvent::LeftClick),
    {
        if self.is_on_break {
            self.handle_break_time()
        } else {
            self.handle_attendance()
        }
    }

    /// Handles any event of the tray host.
    pub fn handle(&mut self, event: TrayEvent) -> (r: Vec<Effect>)
        ensures
            *final(self) == after(*old(self), event),
            r@ == effects(*old(self), event),
    {
        match event {
            TrayEvent::LeftClick => self.handle_tray_left_click(),
            TrayEvent::MenuItemClick(ItemId::Attendance) => self.handle_attendance(),
            TrayEvent::MenuItemClick(ItemId::BreakTime) => self.handle_break_time(),
            TrayEvent::MenuItemClick(ItemId::Quit) => {
                let mut r: Vec<Effect> = Vec::new();
                r.push(Effect::Exit);
                assert(r@ =~= effects(*old(self), event));
                r
            },
            TrayEvent::Other => {
                let r: Vec<Effect> = Vec::new();
                assert(r@ =~= effects(*old(self), event));
                r
            },
        }
    }
}

/// Each item is found again from its own id.
pub proof fn lemma_item_id_round_trip(i: ItemId)
    ensures
        item_of_id(item_id_text(i)) == Some(i),
{
    reveal_strlit("attendance");
    reveal_strlit("break_time");
    reveal_strlit("quit");
    assert("attendance"@[0] != "break_time"@[0]);
    assert("attendance"@.len() != "quit"@.len());
    assert("break_time"@.len() != "quit"@.len());
}

/// Toggling attendance twice gives back the working flag, whatever the state.
pub proof fn lemma_attendance_twice(s: Tray)
    ensures
        after(after(s, TrayEvent::MenuItemClick(ItemId::Attendance)), TrayEvent::MenuItemClick(
            ItemId::Attendance,
        )).is_working == s.is_working,
{
}

/// Every event that the menu can deliver keeps the menu consistent: while not
/// working the break toggle is disabled, and while on break the attendance
/// toggle is disabled.
pub proof fn lemma_menu_stays_consistent(s: Tray, e: TrayEvent)
    requires
        menu_consistent(s),
        deliverable(s, e),
    ensures
        menu_consistent(after(s, e)),
        !after(s, e).is_working ==> !after(s, e).break_enabled,
        after(s, e).is_on_break ==> !after(s, e).attendance_enabled,
{
}

} // verus!
