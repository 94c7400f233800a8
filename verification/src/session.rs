//! Remembered session settings of the kiosk.
//!
//! The kiosk can offer to restore the last session's room, activity
//! and supervisors. The runtime stores the settings as a file; the one
//! rule — what clearing the last session keeps and what it drops — is
//! decided here.

use vstd::prelude::*;

verus! {

/// The last session as it was configured, with its display names.
#[derive(Debug)]
pub struct LastSessionConfig {
    pub activity_id: i32,
    pub room_id: i32,
    pub supervisor_ids: Vec<i32>,
    /// ISO timestamp at which the session was saved.
    pub saved_at: String,
    pub activity_name: String,
    pub room_name: String,
    pub supervisor_names: Vec<String>,
}

/// The remembered settings: the restore toggle and the last session.
#[derive(Debug)]
pub struct SessionSettings {
    /// Whether the kiosk offers to restore the last session.
    pub use_last_session: bool,
    pub auto_save_enabled: bool,
    pub last_session: Option<LastSessionConfig>,
}

/// Drop the remembered session and switch the restore toggle off,
/// keeping the auto-save setting.
pub fn clear_last_session(settings: &mut SessionSettings)
    ensures
        final(settings).last_session is None,
        !final(settings).use_last_session,
        final(settings).auto_save_enabled == old(settings).auto_save_enabled,
{
    settings.last_session = None;
    settings.use_last_session = false;
}

} // verus!
