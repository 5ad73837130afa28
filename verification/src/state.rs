//! The session state store: one record of every transient field the
//! controller owns, its mathematical model, and the synchronous phase of
//! the session reset (the ordered clearing sequence run on quit).

use vstd::prelude::*;
use crate::actions::AfterAction;

verus! {

/// The process-wide mutable session record.
pub struct SessionState {
    /// Whether an interactive session is connected.
    pub connected: bool,
    /// Whether the process runs as a managed background service.
    pub service: bool,
    /// Whether a background IPC client is attached and has not yet been
    /// handed a confirmed value.
    pub sender_attached: bool,
    /// The active provider; empty means unset.
    pub provider: String,
    /// The provider entered as a sub-menu/prefix namespace.
    pub prefix_provider: String,
    /// The current typed prefix string.
    pub current_prefix: String,
    /// An alternate result-set selector, orthogonal to provider.
    pub current_set: String,
    /// The query the pipeline last ran.
    pub query: String,
    /// The query snapshot taken at quit time, restorable.
    pub last_query: String,
    /// The placeholder text currently shown.
    pub placeholder: String,
    /// A one-shot placeholder override captured at startup.
    pub initial_placeholder: String,
    /// Error text surfaced once a window exists.
    pub error_text: String,
    /// The active theme name.
    pub theme: String,
    /// Dmenu (scripted) mode.
    pub is_dmenu: bool,
    /// Dmenu sessions that stay open on arbitrary binds.
    pub dmenu_keep_open: bool,
    /// A one-shot override: exit after the next activation.
    pub dmenu_exit_after: bool,
    /// The dmenu preselected index.
    pub dmenu_current: u32,
    /// Hide the search surface.
    pub no_search: bool,
    /// Hide the hint surface.
    pub no_hints: bool,
    /// Input-only presentation.
    pub input_only: bool,
    /// Close once a parameter has been consumed.
    pub param_close: bool,
    /// Hide quick-activate hints.
    pub hide_qa: bool,
    /// Whether the surface is visible.
    pub is_visible: bool,
    /// A deferred after-action, consumed by the query pipeline once an
    /// asynchronous refresh completes.
    pub async_after: Option<AfterAction>,
    /// One-shot geometry overrides for the current invocation.
    pub param_height: Option<i32>,
    pub param_width: Option<i32>,
    pub param_min_height: Option<i32>,
    pub param_min_width: Option<i32>,
    pub param_max_height: Option<i32>,
    pub param_max_width: Option<i32>,
    /// Pre-session geometry values captured at startup, applied and
    /// cleared by the deferred phase of the reset.
    pub initial_height: Option<i32>,
    pub initial_width: Option<i32>,
    pub initial_min_height: Option<i32>,
    pub initial_min_width: Option<i32>,
    pub initial_max_height: Option<i32>,
    pub initial_max_width: Option<i32>,
}

/// The mathematical model of the session record: strings as character
/// sequences, everything else as itself.
#[verifier::ext_equal]
pub ghost struct StateModel {
    pub connected: bool,
    pub service: bool,
    pub sender_attached: bool,
    pub provider: Seq<char>,
    pub prefix_provider: Seq<char>,
    pub current_prefix: Seq<char>,
    pub current_set: Seq<char>,
    pub query: Seq<char>,
    pub last_query: Seq<char>,
    pub placeholder: Seq<char>,
    pub initial_placeholder: Seq<char>,
    pub error_text: Seq<char>,
    pub theme: Seq<char>,
    pub is_dmenu: bool,
    pub dmenu_keep_open: bool,
    pub dmenu_exit_after: bool,
    pub dmenu_current: u32,
    pub no_search: bool,
    pub no_hints: bool,
    pub input_only: bool,
    pub param_close: bool,
    pub hide_qa: bool,
    pub is_visible: bool,
    pub async_after: Option<AfterAction>,
    pub param_height: Option<i32>,
    pub param_width: Option<i32>,
    pub param_min_height: Option<i32>,
    pub param_min_width: Option<i32>,
    pub param_max_height: Option<i32>,
    pub param_max_width: Option<i32>,
    pub initial_height: Option<i32>,
    pub initial_width: Option<i32>,
    pub initial_min_height: Option<i32>,
    pub initial_min_width: Option<i32>,
    pub initial_max_height: Option<i32>,
    pub initial_max_width: Option<i32>,
}

/// The model of a fresh session record: everything unset.
pub open spec fn initial_state_model() -> StateModel {
    StateModel {
        connected: false,
        service: false,
        sender_attached: false,
        provider: Seq::<char>::empty(),
        prefix_provider: Seq::<char>::empty(),
        current_prefix: Seq::<char>::empty(),
        current_set: Seq::<char>::empty(),
        query: Seq::<char>::empty(),
        last_query: Seq::<char>::empty(),
        placeholder: Seq::<char>::empty(),
        initial_placeholder: Seq::<char>::empty(),
        error_text: Seq::<char>::empty(),
        theme: Seq::<char>::empty(),
        is_dmenu: false,
        dmenu_keep_open: false,
        dmenu_exit_after: false,
        dmenu_current: 0,
        no_search: false,
        no_hints: false,
        input_only: false,
        param_close: false,
        hide_qa: false,
        is_visible: false,
        async_after: None,
        param_height: None,
        param_width: None,
        param_min_height: None,
        param_min_width: None,
        param_max_height: None,
        param_max_width: None,
        initial_height: None,
        initial_width: None,
        initial_min_height: None,
        initial_min_width: None,
        initial_max_height: None,
        initial_max_width: None,
    }
}

impl SessionState {
    /// The model of this record.
    pub open spec fn model(&self) -> StateModel {
        StateModel {
            connected: self.connected,
            service: self.service,
            sender_attached: self.sender_attached,
            provider: self.provider@,
            prefix_provider: self.prefix_provider@,
            current_prefix: self.current_prefix@,
            current_set: self.current_set@,
            query: self.query@,
            last_query: self.last_query@,
            placeholder: self.placeholder@,
            initial_placeholder: self.initial_placeholder@,
            error_text: self.error_text@,
            theme: self.theme@,
            is_dmenu: self.is_dmenu,
            dmenu_keep_open: self.dmenu_keep_open,
            dmenu_exit_after: self.dmenu_exit_after,
            dmenu_current: self.dmenu_current,
            no_search: self.no_search,
            no_hints: self.no_hints,
            input_only: self.input_only,
            param_close: self.param_close,
            hide_qa: self.hide_qa,
            is_visible: self.is_visible,
            async_after: self.async_after,
            param_height: self.param_height,
            param_width: self.param_width,
            param_min_height: self.param_min_height,
            param_min_width: self.param_min_width,
            param_max_height: self.param_max_height,
            param_max_width: self.param_max_width,
            initial_height: self.initial_height,
            initial_width: self.initial_width,
            initial_min_height: self.initial_min_height,
            initial_min_width: self.initial_min_width,
            initial_max_height: self.initial_max_height,
            initial_max_width: self.initial_max_width,
        }
    }

    /// A fresh session record: everything unset.
    pub fn new() -> (r: SessionState)
        ensures
            r.model() == initial_state_model(),
    {
        SessionState {
            connected: false,
            service: false,
            sender_attached: false,
            provider: String::new(),
            prefix_provider: String::new(),
            current_prefix: String::new(),
            current_set: String::new(),
            query: String::new(),
            last_query: String::new(),
            placeholder: String::new(),
            initial_placeholder: String::new(),
            error_text: String::new(),
            theme: String::new(),
            is_dmenu: false,
            dmenu_keep_open: false,
            dmenu_exit_after: false,
            dmenu_current: 0,
            no_search: false,
            no_hints: false,
            input_only: false,
            param_close: false,
            hide_qa: false,
            is_visible: false,
            async_after: None,
            param_height: None,
            param_width: None,
            param_min_height: None,
            param_min_width: None,
            param_max_height: None,
            param_max_width: None,
            initial_height: None,
            initial_width: None,
            initial_min_height: None,
            initial_min_width: None,
            initial_max_height: None,
            initial_max_width: None,
        }
    }

    /// The synchronous clearing sequence of the session reset: clears,
    /// in order, prefix, provider, the six geometry overrides, the
    /// search/hint suppressions, placeholder, visibility, the dmenu
    /// index and flag, input-only, param-close, hide-quick-activate,
    /// query text and current set; a one-shot dmenu exit-after override
    /// additionally drops keep-open so it cannot leak into the next
    /// session.
    pub fn apply_reset(&mut self)
        ensures
            final(self).model() == reset_cleared(old(self).model()),
    {
        self.current_prefix = String::new();
        self.provider = String::new();
        self.param_height = None;
        self.param_width = None;
        self.param_min_height = None;
        self.param_min_width = None;
        self.param_max_height = None;
        self.param_max_width = None;
        self.no_search = false;
        self.no_hints = false;
        self.placeholder = String::new();
        self.is_visible = false;
        self.dmenu_current = 0;
        self.is_dmenu = false;
        self.input_only = false;
        self.param_close = false;
        self.hide_qa = false;
        self.query = String::new();
        self.current_set = String::new();
        if self.dmenu_exit_after {
            self.dmenu_exit_after = false;
            self.dmenu_keep_open = false;
        }
        proof {
            assert(self.model() =~= reset_cleared(old(self).model()));
        }
    }
}

/// What the synchronous phase of the reset leaves of a session record.
pub open spec fn reset_cleared(m: StateModel) -> StateModel {
    StateModel {
        current_prefix: Seq::<char>::empty(),
        provider: Seq::<char>::empty(),
        param_height: None,
        param_width: None,
        param_min_height: None,
        param_min_width: None,
        param_max_height: None,
        param_max_width: None,
        no_search: false,
        no_hints: false,
        placeholder: Seq::<char>::empty(),
        is_visible: false,
        dmenu_current: 0,
        is_dmenu: false,
        input_only: false,
        param_close: false,
        hide_qa: false,
        query: Seq::<char>::empty(),
        current_set: Seq::<char>::empty(),
        dmenu_exit_after: false,
        dmenu_keep_open: if m.dmenu_exit_after {
            false
        } else {
            m.dmenu_keep_open
        },
        ..m
    }
}

/// Reset idempotence: running the clearing sequence twice in a row
/// leaves the session record exactly as running it once does, since
/// clearing already-cleared state is a no-op.
pub proof fn lemma_reset_idempotent(m: StateModel)
    ensures
        reset_cleared(reset_cleared(m)) == reset_cleared(m),
{
    assert(reset_cleared(reset_cleared(m)) =~= reset_cleared(m));
}

} // verus!
