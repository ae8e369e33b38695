//! Decision logic of the Project Zomboid IME guard.
//!
//! While the game window is in front and the player is not typing, the game is
//! kept on a layout that delivers its keys (US English first); while typing, the
//! player's input method comes back. After the player leaves the game, the
//! desktop gets its own layout back, but only if the game was really switched
//! away from it. The caller does the window, file and shell work; the modules
//! here decide:
//!
//! - `layout`: layout handles, input method detection, the safe layout
//! - `restore`: restoring the desktop layout after leaving the game
//! - `takeover`: the switch request that an obligation to restore comes from
//! - `exit`: the mod's exit signal and the latch holding it for one game window
//! - `guard`: one round of guarding, from observations to requests
//! - `status`: tray status, lamp colours, icon, interface text
//! - `settings`: the settings file
//! - `version`, `update`: version comparison, release check, other running copies
//! - `startup`, `paths`: the start-at-logon shortcut
//! - `text`: character-level helpers
#![allow(unused_imports)]

use vstd::prelude::*;

pub mod exit;
pub mod guard;
pub mod layout;
pub mod paths;
pub mod restore;
pub mod settings;
pub mod startup;
pub mod status;
pub mod takeover;
pub mod text;
pub mod update;
pub mod version;
