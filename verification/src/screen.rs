//! The screens of the interface.

use vstd::prelude::*;

verus! {

/// A screen of the interface.
#[derive(Debug, Clone, Copy, PartialEq, Eq, Structural)]
pub enum Screen {
    Testing,
    Logs,
}

impl Default for Screen {
    fn default() -> (r: Self)
        ensures
            r == Screen::Testing,
    {
        Screen::Testing
    }
}

/// The screen shown at start-up.
pub fn default_screen() -> (r: Option<Screen>)
    ensures
        r == Some(Screen::Testing),
{
    Some(Screen::default())
}

} // verus!
