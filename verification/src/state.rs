//! The file-selection state machine.  All work runs in one
//! event-driven thread; the only asynchronous boundary is the byte read
//! of the selected file, whose completion arrives as an event.  The
//! transitions are pure; the surrounding event loop performs the reads
//! and feeds the outcomes back in.

use vstd::prelude::*;

verus! {

/// The user-facing state of the viewer.
#[derive(Clone, Copy, Debug, PartialEq, Eq, Structural)]
pub enum AppState {
    /// No file selected.
    Empty,
    /// A byte read of the selected file is in flight.
    Reading,
    /// Bytes arrived and were recognized as a valid file.
    LoadedValid,
    /// Bytes arrived but were not a valid file.
    LoadedInvalid,
}

/// A discrete event the state machine reacts to.
#[derive(Clone, Copy, Debug, PartialEq, Eq, Structural)]
pub enum AppEvent {
    /// The user picked a file; a fresh read starts.
    FileSelected,
    /// The user cleared the selection.
    SelectionCleared,
    /// The pending read completed; the decoder recognized the bytes or
    /// did not.
    BytesReady { recognized: bool },
    /// The pending read failed.
    ReadFailed,
}

/// The next state.  A new selection always wins and starts a fresh
/// read; a completion or failure only matters while a read is pending,
/// so the late result of a superseded read is ignored; a failed read
/// falls back to the no-file state.
pub open spec fn transition_spec(s: AppState, e: AppEvent) -> AppState {
    match e {
        AppEvent::FileSelected => AppState::Reading,
        AppEvent::SelectionCleared => AppState::Empty,
        AppEvent::BytesReady { recognized } => if s is Reading {
            if recognized {
                AppState::LoadedValid
            } else {
                AppState::LoadedInvalid
            }
        } else {
            s
        },
        AppEvent::ReadFailed => if s is Reading {
            AppState::Empty
        } else {
            s
        },
    }
}

/// Applies one event to the current state.
pub fn transition(s: AppState, e: AppEvent) -> (r: AppState)
    ensures
        r == transition_spec(s, e),
{
    match e {
        AppEvent::FileSelected => AppState::Reading,
        AppEvent::SelectionCleared => AppState::Empty,
        AppEvent::BytesReady { recognized } => {
            if matches!(s, AppState::Reading) {
                if recognized {
                    AppState::LoadedValid
                } else {
                    AppState::LoadedInvalid
                }
            } else {
                s
            }
        },
        AppEvent::ReadFailed => {
            if matches!(s, AppState::Reading) {
                AppState::Empty
            } else {
                s
            }
        },
    }
}

/// A completion that arrives when no read is pending changes nothing:
/// a superseded read's late result never overwrites the current state.
pub proof fn lemma_late_completion_ignored(s: AppState, recognized: bool)
    requires
        s != AppState::Reading,
    ensures
        transition_spec(s, AppEvent::BytesReady { recognized }) == s,
{
}

} // verus!
