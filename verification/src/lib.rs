// The core of a small tray application: an icon in the system tray with a
// menu of two entries, the application's name and "Quit". What the
// application decides is here, with its proofs; showing the icon, running
// the event loop and ending the process are left to the program around it.

use vstd::prelude::*;

pub mod app;
pub mod icon;
pub mod menu;
pub mod tray;

verus! {

/// Name of the application: the tray tooltip and the label of the menu's
/// first entry.
pub const APP_TITLE: &'static str = "Intra Office AI";

} // verus!
