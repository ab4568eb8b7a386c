//! The screens of the command-line shell. The shell's terminal handling
//! runs outside the library; which screen is showing is plain state.

use vstd::prelude::*;

verus! {

/// Which screen the command-line shell is showing.
#[derive(Debug, Clone, Copy, PartialEq, Eq, Structural)]
pub enum AppView {
    /// The main menu.
    MainMenu,
    /// The main content.
    MainContent,
    /// The settings screen.
    Settings,
    /// The help screen.
    Help,
}

} // verus!
