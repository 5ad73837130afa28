//! The outward-facing effect records the controller hands its host:
//! what a key press resolved to, what a quit asks the host to perform,
//! and what the deferred phase of a reset restores. The host performs
//! the effects of each record in its field order.

use vstd::prelude::*;
use crate::actions::{Action, ActionError};

verus! {

/// One delegation to the provider layer: execute a resolved action.
pub struct ActivateCall {
    /// The index of the activated item in the filtered list, when the
    /// activation is item-scoped.
    pub item: Option<usize>,
    /// The provider the action is delegated to.
    pub provider: String,
    /// The query text at resolution time.
    pub query: String,
    /// The resolved descriptor.
    pub action: Action,
}

/// The external effects of a quit, performed by the host in field order.
pub struct QuitEffects {
    /// Disable the image-only clipboard mode.
    pub disable_clipboard_images: bool,
    /// Send the cancellation token over the IPC transport.
    pub emit_cancel: bool,
    /// Terminate the one-shot process with this code.
    pub exit_code: Option<i32>,
    /// End the main loop of a one-shot session (clean quit).
    pub quit_app: bool,
    /// Hide the active surface of a service session.
    pub hide_window: bool,
    /// Detach the preview sub-surface and invalidate preview caches.
    pub detach_preview: bool,
}

/// The external effects of one step of the after-action machine.
pub struct AfterOutcome {
    /// A quit was run.
    pub quit: Option<QuitEffects>,
    /// Re-run the query pipeline with this text.
    pub run_query: Option<String>,
}

/// The external effects of dispatching a resolved action.
pub struct Dispatched {
    /// Delegate execution to the provider layer.
    pub activate: Option<ActivateCall>,
    /// A quit was run by the after-action machine.
    pub quit: Option<QuitEffects>,
    /// Re-run the query pipeline with this text.
    pub run_query: Option<String>,
    /// A loud contract violation of the action-descriptor rules.
    pub error: Option<ActionError>,
}

/// What one key press resolved to.
pub struct KeyOutcome {
    /// Whether the key was consumed; an unhandled key is passed back to
    /// the host event system.
    pub handled: bool,
    /// A dmenu confirmation emission: over the IPC transport in service
    /// mode, to standard output otherwise.
    pub emit: Option<String>,
    /// The effects of the dispatched action, if one was dispatched.
    pub dispatched: Dispatched,
}

/// The deferred phase of the session reset, run at the next idle point
/// of the event loop. When `ran` is set the host also makes the search,
/// hint and content surfaces visible again.
pub struct IdleOutcome {
    /// Whether a reset was pending; nothing below applies otherwise.
    pub ran: bool,
    /// Restore this placeholder text.
    pub apply_placeholder: Option<String>,
    /// Apply these captured pre-session geometry values.
    pub height: Option<i32>,
    pub width: Option<i32>,
    pub min_height: Option<i32>,
    pub min_width: Option<i32>,
    pub max_height: Option<i32>,
    pub max_width: Option<i32>,
    /// Re-run the query pipeline: the input text was cleared.
    pub run_query: Option<String>,
}

} // verus!
