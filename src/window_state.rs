use vstd::prelude::*;

use crate::error::StoreError;

verus! {

/// The last known position and size of the main window.
#[derive(Clone, Copy, Debug, PartialEq, Eq, Structural)]
pub struct WindowState {
    /// Horizontal screen coordinate; negative on some multi-monitor layouts.
    pub x: i32,
    /// Vertical screen coordinate; negative on some multi-monitor layouts.
    pub y: i32,
    /// Width in pixels.
    pub width: u32,
    /// Height in pixels.
    pub height: u32,
}

/// What was found where the window-state file should be.
#[derive(Clone, Debug, PartialEq, Eq)]
pub enum StoredWindowState {
    /// No file exists yet.
    Missing,
    /// The file exists but could not be read; carries the reason.
    Unreadable(String),
    /// The file was read but does not decode as a window state; carries the reason.
    Malformed(String),
    /// The file decodes to this window state.
    Document(WindowState),
}

/// What reading the window state yields, given what was found in the file:
/// nothing before the first save, the saved state afterwards, and an error
/// (not a default) for a file that cannot be read or decoded.
pub open spec fn window_outcome(stored: StoredWindowState) -> Result<Option<WindowState>, StoreError> {
    match stored {
        StoredWindowState::Missing => Ok(None),
        StoredWindowState::Unreadable(m) => Err(StoreError::Io(m)),
        StoredWindowState::Malformed(m) => Err(StoreError::Parse(m)),
        StoredWindowState::Document(w) => Ok(Some(w)),
    }
}

/// Decides the result of reading the window state from what the file held.
pub fn read_window_state(stored: StoredWindowState) -> (r: Result<Option<WindowState>, StoreError>)
    ensures
        r == window_outcome(stored),
        stored is Missing ==> r == Ok::<Option<WindowState>, StoreError>(None),
        stored is Malformed ==> (r is Err && r->Err_0 is Parse),
{
    match stored {
        StoredWindowState::Missing => Ok(None),
        StoredWindowState::Unreadable(m) => Err(StoreError::Io(m)),
        StoredWindowState::Malformed(m) => Err(StoreError::Parse(m)),
        StoredWindowState::Document(w) => Ok(Some(w)),
    }
}

/// Reading back a saved state: once the file holds the state `w`, a read
/// returns exactly `w`, present.
pub proof fn lemma_save_then_read(w: WindowState)
    ensures
        window_outcome(StoredWindowState::Document(w)) == Ok::<Option<WindowState>, StoreError>(Some(w)),
{
}

} // verus!
