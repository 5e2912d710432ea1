//! Verified core of the Kaggle TPU companion: the launch profile, the Pi
//! provider sync (documents, registration, checks and the backup/rollback
//! protocol), the external `pi` CLI check, and the tray's texts and menu.
//!
//!   json      JSON documents as the library holds them, their model, and
//!             their text through serde_json
//!   text      character-level helpers: equality, search, decimal text, join
//!   settings  launch profile: defaults, validation, `launch.py serve` arguments,
//!             the settings file's text
//!   pi        Pi provider: documents, assessment, registration, checks, CLI check
//!   pi_sync   the sync protocol as a state machine (backup, write, verify, rollback)
//!   tray      tray glyph, tooltip, status line, menu and menu actions

use vstd::prelude::*;

pub mod json;
pub mod pi;
pub mod pi_sync;
pub mod settings;
pub mod text;
pub mod tray;

verus! {

} // verus!
