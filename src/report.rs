//! The form sent to the webhook on every change of state.

use vstd::prelude::*;
use crate::tray::{status_text, Status};

verus! {

/// The fields of the report of `status`, in order: the reporter's name, then
/// the status text.
pub fn report_form(status: Status) -> (r: Vec<(&'static str, &'static str)>)
    ensures
        r@.len() == 2,
        r@[0].0@ == "name"@,
        r@[0].1@ == "多田"@,
        r@[1].0@ == "status"@,
        r@[1].1@ == status_text(status),
{
    let mut r: Vec<(&'static str, &'static str)> = Vec::new();
    r.push(("name", "多田"));
    r.push(("status", status.text()));
    r
}

} // verus!
