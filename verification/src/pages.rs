//! Which page the window shows, and which settings section is active.
//! The pages themselves are interface code in the shell; the library
//! owns only the selection state.

use vstd::prelude::*;

verus! {

/// The visible page.
#[derive(Clone, Copy, Debug, PartialEq, Eq, Structural)]
pub enum PageType {
    Launcher,
    Capture,
    Settings,
}

/// The active section of the settings page.
#[derive(Clone, Copy, Debug, PartialEq, Eq, Structural)]
pub enum SettingType {
    General,
    Keybindings,
    Appearance,
    About,
}

} // verus!
