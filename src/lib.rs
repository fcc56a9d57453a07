//! State and display logic of a menu-bar attendance tracker: a tray menu that
//! toggles "working" and "on break", a stopwatch shown while working, and the
//! status messages sent on every change.

pub mod clock;
pub mod tray;
pub mod stopwatch;
pub mod report;
