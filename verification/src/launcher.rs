//! The interaction controller: one owned record of session state,
//! selection cursor, pointer exclusivity, bind tables and the filtered
//! result list, driven by discrete host events.

use vstd::prelude::*;
use crate::actions::{Action, ActionError, AfterAction, choose_action, choose_action_spec};
use crate::outcome::{ActivateCall, AfterOutcome, Dispatched, IdleOutcome, KeyOutcome, QuitEffects};
use crate::binds::{BindTable, get_bind_spec, provider_bind_spec, provider_global_bind_spec, hints_for_spec};
use crate::search::find_first;
use crate::dmenu::{ResultItem, filter_items, filter_items_spec};
use crate::selection::{next_index_spec, prev_index_spec};
use crate::state::{SessionState, StateModel, reset_cleared};
use crate::strutil::{
    contains_seq, has_prefix, str_eq, starts_with_str, strip_prefix_str, concat_str, vec_has_str,
    seq_has_str, all_digits, dec_val, parse_u32_dec,
};
use vstd::string::StrSliceExecFns;

verus! {

/// The keysym of the Return key: the accept key of dmenu mode.
pub const KEY_ACCEPT: u32 = 65293;

/// The exit code of an interrupted or cancelled termination.
pub const EXIT_CODE_INTERRUPTED: i32 = 130;

/// A placeholder-table entry: the placeholder text shown for a provider.
pub struct Placeholder {
    pub provider: String,
    pub text: String,
}

/// Static configuration the controller consults.
pub struct LauncherConfig {
    /// Whether cursor movement wraps around the list ends.
    pub selection_wrap: bool,
    /// The prefix that switches a query to exact matching.
    pub exact_search_prefix: String,
    /// Text containing this delimiter is withheld from the pipeline.
    pub global_argument_delimiter: String,
    /// The theme restored when a session ends.
    pub default_theme: String,
    /// The names of the loaded providers.
    pub providers: Vec<String>,
    /// Placeholder texts by provider, with a `"default"` fallback.
    pub placeholders: Vec<Placeholder>,
}

/// The controller: session state, cursor, pointer, tables and the
/// filtered result list the cursor ranges over.
pub struct Launcher {
    pub config: LauncherConfig,
    pub state: SessionState,
    pub binds: BindTable,
    /// The filtered, ordered result list.
    pub items: Vec<ResultItem>,
    /// The selected index; zero while the list is empty (no selection).
    pub index: usize,
    /// The pointer baseline; `None` is the sentinel set by keyboard
    /// navigation, re-established by the next motion event.
    pub pointer_baseline: Option<(i64, i64)>,
    /// Whether pointer hit-testing is active.
    pub pointer_targeting: bool,
    /// The text of the input field.
    pub input_text: String,
    /// Whether the deferred phase of a reset is queued (one idle slot).
    pub pending_idle: bool,
}

/// The provider that currently drives resolution: the active provider
/// when set, the prefix provider otherwise.
pub open spec fn active_provider_spec(l: Launcher) -> Seq<char> {
    if l.state.provider@.len() > 0 {
        l.state.provider@
    } else {
        l.state.prefix_provider@
    }
}

/// One keyboard-driven cursor move: pointer targeting is suspended and
/// the index steps as `next_index_spec` says.
pub open spec fn select_next_rel(pre: Launcher, post: Launcher) -> bool {
    &&& post == (Launcher {
        index: post.index,
        pointer_baseline: None,
        pointer_targeting: false,
        ..pre
    })
    &&& post.index as int == next_index_spec(
        pre.index as int,
        pre.items@.len() as int,
        pre.config.selection_wrap,
    )
}

/// The mirror image for move-previous.
pub open spec fn select_previous_rel(pre: Launcher, post: Launcher) -> bool {
    &&& post == (Launcher {
        index: post.index,
        pointer_baseline: None,
        pointer_targeting: false,
        ..pre
    })
    &&& post.index as int == prev_index_spec(
        pre.index as int,
        pre.items@.len() as int,
        pre.config.selection_wrap,
    )
}

/// A programmatic input-text update: the text is set, pointer targeting
/// is suspended, and the pipeline is re-run unless the text holds the
/// global argument delimiter.
pub open spec fn set_input_rel(pre: Launcher, post: Launcher, rq: Option<String>, text: Seq<char>) -> bool {
    &&& post == (Launcher {
        input_text: post.input_text,
        pointer_baseline: None,
        pointer_targeting: false,
        ..pre
    })
    &&& post.input_text@ == text
    &&& (match rq {
        Some(t) => !contains_seq(text, pre.config.global_argument_delimiter@) && t@ == text,
        None => contains_seq(text, pre.config.global_argument_delimiter@),
    })
}

/// Toggling exact match: the exact prefix is stripped when present and
/// prepended when absent, through a programmatic input update.
pub open spec fn toggle_exact_rel(pre: Launcher, post: Launcher, rq: Option<String>) -> bool {
    let p = pre.config.exact_search_prefix@;
    let t = pre.input_text@;
    if has_prefix(t, p) {
        set_input_rel(pre, post, rq, t.skip(p.len() as int))
    } else {
        set_input_rel(pre, post, rq, p + t)
    }
}

/// Resuming the last query: a programmatic input update to the frozen
/// snapshot, a no-op when no snapshot exists.
pub open spec fn resume_rel(pre: Launcher, post: Launcher, rq: Option<String>) -> bool {
    if pre.state.last_query@.len() > 0 {
        set_input_rel(pre, post, rq, pre.state.last_query@)
    } else {
        post == pre && rq is None
    }
}

impl Launcher {
    /// Validity of the cursor: a valid index over a non-empty list, and
    /// the zero sentinel over an empty one.
    pub open spec fn wf(&self) -> bool {
        &&& (self.items@.len() == 0 ==> self.index == 0)
        &&& (self.items@.len() > 0 ==> (self.index as int) < self.items@.len() as int)
    }

    /// A fresh controller over the given configuration and tables.
    pub fn new(config: LauncherConfig, binds: BindTable) -> (r: Launcher)
        ensures
            r.wf(),
            r.config == config,
            r.binds == binds,
            r.items@.len() == 0,
            r.index == 0,
            r.pointer_baseline is None,
            !r.pointer_targeting,
            r.input_text@.len() == 0,
            !r.pending_idle,
            r.state.model() == crate::state::initial_state_model(),
    {
        Launcher {
            config,
            state: SessionState::new(),
            binds,
            items: Vec::new(),
            index: 0,
            pointer_baseline: None,
            pointer_targeting: false,
            input_text: String::new(),
            pending_idle: false,
        }
    }

    /// Suspends pointer-driven selection: the tracking baseline falls
    /// back to the sentinel and hit-testing stops, so a stale hover
    /// cannot steal the selection from the keyboard.
    pub fn disable_mouse(&mut self)
        ensures
            *final(self) == (Launcher {
                pointer_baseline: None,
                pointer_targeting: false,
                ..*old(self)
            }),
    {
        self.pointer_baseline = None;
        self.pointer_targeting = false;
    }

    /// A pointer motion report: the first motion after a reset only
    /// establishes the baseline; a later motion re-enables targeting
    /// only when the coordinates differ from the baseline.
    pub fn handle_motion(&mut self, x: i64, y: i64)
        ensures
            (match old(self).pointer_baseline {
                None => *final(self) == (Launcher {
                    pointer_baseline: Some((x, y)),
                    ..*old(self)
                }),
                Some(b) => *final(self) == (Launcher {
                    pointer_targeting: old(self).pointer_targeting || (x, y) != b,
                    ..*old(self)
                }),
            }),
    {
        let base = self.pointer_baseline;
        match base {
            None => {
                self.pointer_baseline = Some((x, y));
            },
            Some(b) => {
                if (x != b.0 || y != b.1) && !self.pointer_targeting {
                    self.pointer_targeting = true;
                }
            },
        }
    }

    /// Advances the cursor, wrapping when configured; every keyboard
    /// move suspends pointer targeting.
    pub fn select_next(&mut self)
        requires
            old(self).wf(),
        ensures
            final(self).wf(),
            select_next_rel(*old(self), *final(self)),
    {
        self.disable_mouse();
        let n = self.items.len();
        if !self.config.selection_wrap {
            if self.index + 1 < n {
                self.index = self.index + 1;
            }
            return;
        }
        if n == 0 {
            return;
        }
        if self.index + 1 >= n {
            self.index = 0;
        } else {
            self.index = self.index + 1;
        }
    }

    /// Moves the cursor back, wrapping when configured; every keyboard
    /// move suspends pointer targeting.
    pub fn select_previous(&mut self)
        requires
            old(self).wf(),
        ensures
            final(self).wf(),
            select_previous_rel(*old(self), *final(self)),
    {
        self.disable_mouse();
        if !self.config.selection_wrap {
            if self.index > 0 {
                self.index = self.index - 1;
            }
            return;
        }
        let n = self.items.len();
        if n == 0 {
            return;
        }
        if self.index == 0 {
            self.index = n - 1;
        } else {
            self.index = self.index - 1;
        }
    }

    /// An absolute cursor jump, used by quick-activate; out-of-range
    /// indices are ignored.
    pub fn select_index(&mut self, i: usize)
        requires
            old(self).wf(),
        ensures
            final(self).wf(),
            *final(self) == (Launcher { index: final(self).index, ..*old(self) }),
            final(self).index == (if (i as int) < old(self).items@.len() as int {
                i as int
            } else {
                old(self).index as int
            }),
    {
        if i < self.items.len() {
            self.index = i;
        }
    }

    /// The selected item, when the filtered list is non-empty.
    pub fn get_selected_item(&self) -> (r: Option<&ResultItem>)
        requires
            self.wf(),
        ensures
            (match r {
                Some(it) => self.items@.len() > 0 && *it == self.items@[self.index as int],
                None => self.items@.len() == 0,
            }),
    {
        if self.items.len() > 0 {
            Some(&self.items[self.index])
        } else {
            None
        }
    }

    /// Replaces the result list: the dmenu filter is applied against the
    /// current state and the cursor returns to the top.
    pub fn set_items(&mut self, items: Vec<ResultItem>)
        ensures
            final(self).wf(),
            *final(self) == (Launcher {
                items: final(self).items,
                index: 0,
                ..*old(self)
            }),
            final(self).items@ == filter_items_spec(
                items@,
                old(self).state.is_dmenu,
                old(self).state.query@.len(),
            ),
    {
        let filtered = filter_items(items, self.state.is_dmenu, self.state.query.as_str());
        self.items = filtered;
        self.index = 0;
    }

    /// Records the query the pipeline ran.
    pub fn set_query(&mut self, q: String)
        ensures
            *final(self) == (Launcher { state: final(self).state, ..*old(self) }),
            final(self).state == (SessionState { query: final(self).state.query, ..old(self).state }),
            final(self).state.query == q,
    {
        self.state.query = q;
    }

    /// The error text to surface, when any is recorded.
    pub fn check_error(&self) -> (r: Option<String>)
        ensures
            (match r {
                Some(t) => self.state.error_text@.len() > 0 && t@ == self.state.error_text@,
                None => self.state.error_text@.len() == 0,
            }),
    {
        if self.state.error_text.as_str().is_empty() {
            None
        } else {
            Some(self.state.error_text.clone())
        }
    }

    /// The provider driving resolution, cloned.
    fn active_provider(&self) -> (r: String)
        ensures
            r@ == active_provider_spec(*self),
    {
        if !self.state.provider.as_str().is_empty() {
            self.state.provider.clone()
        } else {
            self.state.prefix_provider.clone()
        }
    }

    /// Sets the input text programmatically and runs the text-change
    /// handler once: pointer targeting is suspended and the pipeline is
    /// asked to re-run unless the text holds the argument delimiter.
    pub fn set_input_text(&mut self, text: &str) -> (rq: Option<String>)
        ensures
            set_input_rel(*old(self), *final(self), rq, text@),
    {
        self.input_text = text.to_owned();
        self.disable_mouse();
        if !crate::strutil::contains_str(text, self.config.global_argument_delimiter.as_str()) {
            Some(text.to_owned())
        } else {
            None
        }
    }

    /// Toggles exact-match search: the exact prefix is stripped when
    /// present and prepended when absent.
    pub fn toggle_exact(&mut self) -> (rq: Option<String>)
        ensures
            toggle_exact_rel(*old(self), *final(self), rq),
    {
        let stripped = strip_prefix_str(
            self.input_text.as_str(),
            self.config.exact_search_prefix.as_str(),
        );
        match stripped {
            Some(t) => {
                proof {
                    assert(old(self).input_text@.subrange(
                        old(self).config.exact_search_prefix@.len() as int,
                        old(self).input_text@.len() as int,
                    ) =~= old(self).input_text@.skip(
                        old(self).config.exact_search_prefix@.len() as int,
                    ));
                }
                self.set_input_text(t.as_str())
            },
            None => {
                let combined = concat_str(
                    self.config.exact_search_prefix.as_str(),
                    self.input_text.as_str(),
                );
                self.set_input_text(combined.as_str())
            },
        }
    }

    /// Restores the frozen last query into the input, when one exists.
    pub fn resume_last_query(&mut self) -> (rq: Option<String>)
        ensures
            resume_rel(*old(self), *final(self), rq),
    {
        if self.state.last_query.as_str().is_empty() {
            return None;
        }
        let lq = self.state.last_query.clone();
        self.set_input_text(lq.as_str())
    }
}

/// Hints shown while a prefix namespace is active drop the
/// `"menus:parent"` re-entry action.
pub open spec fn retain_hints_spec(hints: Seq<Action>, prefix_active: bool) -> Seq<Action>
    decreases hints.len(),
{
    if !prefix_active {
        hints
    } else if hints.len() == 0 {
        Seq::<Action>::empty()
    } else {
        let rest = retain_hints_spec(hints.drop_last(), true);
        if hints.last().action@ == "menus:parent"@ {
            rest
        } else {
            rest.push(hints.last())
        }
    }
}

/// What the hint area shows: the selected item's provider and declared
/// actions when an item is selected, the active provider with no
/// actions otherwise; a provider outside the loaded set falls back to
/// the `"menus"` provider when it names a prefix namespace; anything
/// else clears the area.
pub open spec fn keybind_hints_spec(l: Launcher) -> Seq<Action> {
    let prefix_active = l.state.prefix_provider@.len() > 0;
    let prov = if l.items@.len() > 0 {
        l.items@[l.index as int].provider@
    } else {
        active_provider_spec(l)
    };
    let ids = if l.items@.len() > 0 {
        l.items@[l.index as int].actions@
    } else {
        Seq::<String>::empty()
    };
    if seq_has_str(l.config.providers@, prov) {
        retain_hints_spec(hints_for_spec(l.binds.hints@, prov, ids), prefix_active)
    } else if has_prefix(prov, "menus:"@) && seq_has_str(l.config.providers@, "menus"@) {
        retain_hints_spec(hints_for_spec(l.binds.hints@, "menus"@, ids), prefix_active)
    } else {
        Seq::<Action>::empty()
    }
}

/// The placeholder entry for a provider name.
pub open spec fn find_placeholder_spec(list: Seq<Placeholder>, name: Seq<char>) -> Option<
    Placeholder,
> {
    find_first(list, |p: Placeholder| p.provider@ == name)
}

/// The placeholder shown for the active provider, with the `"default"`
/// entry as fallback.
pub open spec fn placeholder_spec(l: Launcher) -> Option<Placeholder> {
    match find_placeholder_spec(l.config.placeholders@, active_provider_spec(l)) {
        Some(p) => Some(p),
        None => find_placeholder_spec(l.config.placeholders@, "default"@),
    }
}

/// The presentation updates owed after the result list changed.
pub struct ItemsChangedUi {
    /// The placeholder text for the active provider.
    pub placeholder: Option<String>,
    /// Show the placeholder only over an empty list.
    pub placeholder_visible: bool,
    /// Show the scroll area only over a non-empty list.
    pub show_scroll: bool,
    /// Empty the keybind-hint container; every list change clears it,
    /// and the next selection change repopulates it.
    pub clear_hints: bool,
    /// Drop all preview caches when the list emptied.
    pub clear_preview_caches: bool,
}

fn find_placeholder(list: &Vec<Placeholder>, name: &str) -> (r: Option<String>)
    ensures
        (match find_placeholder_spec(list@, name@) {
            Some(p) => r matches Some(t) && t@ == p.text@,
            None => r is None,
        }),
{
    let ghost pred = |p: Placeholder| p.provider@ == name@;
    proof {
        assert(list@.skip(0) =~= list@);
    }
    let mut i: usize = 0;
    while i < list.len()
        invariant
            i <= list@.len(),
            pred == (|p: Placeholder| p.provider@ == name@),
            find_first(list@, pred) == find_first(list@.skip(i as int), pred),
        decreases list@.len() - i,
    {
        if str_eq(list[i].provider.as_str(), name) {
            proof {
                crate::search::lemma_find_first_found(list@, pred, i as int);
            }
            return Some(list[i].text.clone());
        }
        proof {
            crate::search::lemma_find_first_step(list@, pred, i as int);
        }
        i = i + 1;
    }
    proof {
        assert(list@.skip(i as int) =~= Seq::<Placeholder>::empty());
    }
    None
}

impl Launcher {
    /// The provider descriptors for the given identifiers, with the
    /// prefix-namespace re-entry action withheld while a prefix
    /// provider is active.
    pub fn generate_hints(&self, provider: &str, actions: &Vec<String>) -> (r: Vec<Action>)
        ensures
            r@ == retain_hints_spec(
                hints_for_spec(self.binds.hints@, provider@, actions@),
                self.state.prefix_provider@.len() > 0,
            ),
    {
        let hints = self.binds.get_keybind_hint(provider, actions);
        if self.state.prefix_provider.as_str().is_empty() {
            return hints;
        }
        let mut out: Vec<Action> = Vec::new();
        let mut i: usize = 0;
        proof {
            assert(hints@.take(0) =~= Seq::<Action>::empty());
        }
        while i < hints.len()
            invariant
                i <= hints@.len(),
                out@ == retain_hints_spec(hints@.take(i as int), true),
            decreases hints@.len() - i,
        {
            proof {
                assert(hints@.take(i + 1).drop_last() =~= hints@.take(i as int));
                assert(hints@.take(i + 1).last() == hints@[i as int]);
            }
            if !str_eq(hints[i].action.as_str(), "menus:parent") {
                out.push(hints[i].clone());
            }
            i = i + 1;
        }
        proof {
            assert(hints@.take(hints@.len() as int) =~= hints@);
        }
        out
    }

    /// The hint-area content after a selection change; an empty list
    /// clears the area.
    pub fn set_keybind_hint(&self) -> (r: Vec<Action>)
        requires
            self.wf(),
        ensures
            r@ == keybind_hints_spec(*self),
    {
        let empty_ids: Vec<String> = Vec::new();
        proof {
            assert(empty_ids@ =~= Seq::<String>::empty());
        }
        if self.items.len() > 0 {
            let prov = &self.items[self.index].provider;
            let ids = &self.items[self.index].actions;
            if vec_has_str(&self.config.providers, prov.as_str()) {
                self.generate_hints(prov.as_str(), ids)
            } else if starts_with_str(prov.as_str(), "menus:") && vec_has_str(
                &self.config.providers,
                "menus",
            ) {
                self.generate_hints("menus", ids)
            } else {
                let r: Vec<Action> = Vec::new();
                proof {
                    assert(r@ =~= Seq::<Action>::empty());
                }
                r
            }
        } else {
            let prov = self.active_provider();
            if vec_has_str(&self.config.providers, prov.as_str()) {
                self.generate_hints(prov.as_str(), &empty_ids)
            } else if starts_with_str(prov.as_str(), "menus:") && vec_has_str(
                &self.config.providers,
                "menus",
            ) {
                self.generate_hints("menus", &empty_ids)
            } else {
                let r: Vec<Action> = Vec::new();
                proof {
                    assert(r@ =~= Seq::<Action>::empty());
                }
                r
            }
        }
    }

    /// The placeholder text for the active provider, when configured.
    pub fn placeholder_text(&self) -> (r: Option<String>)
        ensures
            (match placeholder_spec(*self) {
                Some(p) => r matches Some(t) && t@ == p.text@,
                None => r is None,
            }),
    {
        let prov = self.active_provider();
        match find_placeholder(&self.config.placeholders, prov.as_str()) {
            Some(t) => Some(t),
            None => find_placeholder(&self.config.placeholders, "default"),
        }
    }

    /// The presentation updates owed after the result list changed.
    pub fn items_changed(&self) -> (r: ItemsChangedUi)
        ensures
            (match placeholder_spec(*self) {
                Some(p) => r.placeholder matches Some(t) && t@ == p.text@,
                None => r.placeholder is None,
            }),
            r.placeholder_visible == (self.items@.len() == 0),
            r.show_scroll == (self.items@.len() > 0),
            r.clear_hints,
            r.clear_preview_caches == (self.items@.len() == 0),
    {
        let empty = self.items.len() == 0;
        ItemsChangedUi {
            placeholder: self.placeholder_text(),
            placeholder_visible: empty,
            show_scroll: !empty,
            clear_hints: true,
            clear_preview_caches: empty,
        }
    }

    /// The provider whose previewer the host consults for the selected
    /// item, with prefix namespaces collapsed onto `"menus"`; `None`
    /// hides the preview surface.
    pub fn preview_provider(&self) -> (r: Option<String>)
        requires
            self.wf(),
        ensures
            (match r {
                Some(p) => self.items@.len() > 0 && p@ == (if has_prefix(
                    self.items@[self.index as int].provider@,
                    "menus:"@,
                ) {
                    "menus"@
                } else {
                    self.items@[self.index as int].provider@
                }),
                None => self.items@.len() == 0,
            }),
    {
        if self.items.len() == 0 {
            return None;
        }
        let prov = &self.items[self.index].provider;
        if starts_with_str(prov.as_str(), "menus:") {
            Some("menus".to_owned())
        } else {
            Some(prov.clone())
        }
    }
}

/// What a quit does. The cancellation token is owed to an attached IPC
/// client; a one-shot session terminates (with the interrupted code
/// when cancelled, by a clean main-loop quit otherwise) and its record
/// is left alone; a service session hides its surface, detaches
/// previews, runs the synchronous clearing sequence and queues the
/// deferred phase in the single idle slot.
pub open spec fn quit_rel(pre: Launcher, post: Launcher, qe: QuitEffects, cancelled: bool) -> bool {
    &&& qe.disable_clipboard_images == seq_has_str(pre.config.providers@, "clipboard"@)
    &&& qe.emit_cancel == pre.state.sender_attached
    &&& if !pre.state.service {
        &&& qe.exit_code == (if cancelled {
            Some(EXIT_CODE_INTERRUPTED)
        } else {
            None::<i32>
        })
        &&& qe.quit_app == !cancelled
        &&& !qe.hide_window
        &&& !qe.detach_preview
        &&& post == (Launcher { state: post.state, ..pre })
        &&& post.state.model() == (StateModel { sender_attached: false, ..pre.state.model() })
    } else {
        &&& qe.exit_code is None
        &&& !qe.quit_app
        &&& qe.hide_window
        &&& qe.detach_preview
        &&& post == (Launcher { state: post.state, pending_idle: true, ..pre })
        &&& post.state.model() == reset_cleared(
            StateModel { sender_attached: false, ..pre.state.model() },
        )
    }
}

/// One step of the after-action machine, on the session that just ran
/// an action: `Close` quits non-cancelled; `KeepOpen` advances the
/// cursor; `ClearReload` re-runs an empty input or resets it to the
/// current prefix; `Reload` re-runs the pipeline with the same query;
/// the `Async` variants only record the deferred marker; `Nothing`
/// does nothing.
pub open spec fn after_rel(
    pre: Launcher,
    post: Launcher,
    out: AfterOutcome,
    a: AfterAction,
    query: Seq<char>,
) -> bool {
    match a {
        AfterAction::Close => {
            &&& out.run_query is None
            &&& (match out.quit {
                Some(qe) => quit_rel(pre, post, qe, false),
                None => false,
            })
        },
        AfterAction::KeepOpen => {
            &&& out.quit is None
            &&& out.run_query is None
            &&& select_next_rel(pre, post)
        },
        AfterAction::ClearReload => {
            &&& out.quit is None
            &&& set_input_rel(
                pre,
                post,
                out.run_query,
                if pre.input_text@.len() == 0 {
                    pre.input_text@
                } else {
                    pre.state.current_prefix@
                },
            )
        },
        AfterAction::Reload => {
            &&& out.quit is None
            &&& post == pre
            &&& (match out.run_query {
                Some(t) => t@ == query,
                None => false,
            })
        },
        AfterAction::AsyncReload => {
            &&& out.quit is None
            &&& out.run_query is None
            &&& post == (Launcher { state: post.state, ..pre })
            &&& post.state == (SessionState { async_after: Some(AfterAction::AsyncReload), ..pre.state })
        },
        AfterAction::AsyncClearReload => {
            &&& out.quit is None
            &&& out.run_query is None
            &&& post == (Launcher { state: post.state, ..pre })
            &&& post.state == (SessionState {
                async_after: Some(AfterAction::AsyncClearReload),
                ..pre.state
            })
        },
        AfterAction::Nothing => {
            &&& out.quit is None
            &&& out.run_query is None
            &&& post == pre
        },
    }
}

/// The deferred phase of the reset: the input text is frozen into the
/// last-query snapshot, a recorded placeholder override and the six
/// captured geometry values are applied and cleared, the input is
/// cleared through a programmatic update, and the configured default
/// theme is restored.
pub open spec fn idle_rel(pre: Launcher, post: Launcher, out: IdleOutcome) -> bool {
    if !pre.pending_idle {
        &&& post == pre
        &&& !out.ran
        &&& out.apply_placeholder is None
        &&& out.height is None
        &&& out.width is None
        &&& out.min_height is None
        &&& out.min_width is None
        &&& out.max_height is None
        &&& out.max_width is None
        &&& out.run_query is None
    } else {
        &&& out.ran
        &&& (match out.apply_placeholder {
            Some(t) => pre.state.initial_placeholder@.len() > 0 && t@
                == pre.state.initial_placeholder@,
            None => pre.state.initial_placeholder@.len() == 0,
        })
        &&& out.height == pre.state.initial_height
        &&& out.width == pre.state.initial_width
        &&& out.min_height == pre.state.initial_min_height
        &&& out.min_width == pre.state.initial_min_width
        &&& out.max_height == pre.state.initial_max_height
        &&& out.max_width == pre.state.initial_max_width
        &&& (match out.run_query {
            Some(t) => !contains_seq(
                Seq::<char>::empty(),
                pre.config.global_argument_delimiter@,
            ) && t@ == Seq::<char>::empty(),
            None => contains_seq(Seq::<char>::empty(), pre.config.global_argument_delimiter@),
        })
        &&& post == (Launcher {
            state: post.state,
            input_text: post.input_text,
            pointer_baseline: None,
            pointer_targeting: false,
            pending_idle: false,
            ..pre
        })
        &&& post.input_text@ == Seq::<char>::empty()
        &&& post.state.model() == (StateModel {
            last_query: pre.input_text@,
            initial_placeholder: Seq::<char>::empty(),
            initial_height: None,
            initial_width: None,
            initial_min_height: None,
            initial_min_width: None,
            initial_max_height: None,
            initial_max_width: None,
            theme: pre.config.default_theme@,
            ..pre.state.model()
        })
    }
}

impl Launcher {
    /// The quit entry of the session reset: emits what is owed, ends or
    /// hides the session, and in a surviving (service) session runs the
    /// synchronous clearing sequence and queues the deferred phase.
    #[verifier::rlimit(100)]
    pub fn quit(&mut self, cancelled: bool) -> (qe: QuitEffects)
        ensures
            quit_rel(*old(self), *final(self), qe, cancelled),
    {
        let disable_clipboard = vec_has_str(&self.config.providers, "clipboard");
        let emit_cancel = self.state.sender_attached;
        self.state.sender_attached = false;
        if !self.state.service {
            proof {
                assert(self.state.model() =~= (StateModel {
                    sender_attached: false,
                    ..old(self).state.model()
                }));
            }
            return QuitEffects {
                disable_clipboard_images: disable_clipboard,
                emit_cancel,
                exit_code: if cancelled {
                    Some(EXIT_CODE_INTERRUPTED)
                } else {
                    None
                },
                quit_app: !cancelled,
                hide_window: false,
                detach_preview: false,
            };
        }
        proof {
            assert(self.state.model() =~= (StateModel {
                sender_attached: false,
                ..old(self).state.model()
            }));
        }
        self.state.apply_reset();
        self.pending_idle = true;
        QuitEffects {
            disable_clipboard_images: disable_clipboard,
            emit_cancel,
            exit_code: None,
            quit_app: false,
            hide_window: true,
            detach_preview: true,
        }
    }

    /// Runs one step of the after-action machine. Resolving an
    /// asynchronous variant must not re-run the query synchronously: it
    /// only records the deferred marker, consumed later through
    /// `take_async_after`.
    #[verifier::rlimit(100)]
    pub fn handle_after(&mut self, a: AfterAction, query: &str) -> (out: AfterOutcome)
        requires
            old(self).wf(),
        ensures
            final(self).wf(),
            after_rel(*old(self), *final(self), out, a, query@),
    {
        match a {
            AfterAction::Close => {
                let qe = self.quit(false);
                AfterOutcome { quit: Some(qe), run_query: None }
            },
            AfterAction::KeepOpen => {
                self.select_next();
                AfterOutcome { quit: None, run_query: None }
            },
            AfterAction::ClearReload => {
                if self.input_text.as_str().is_empty() {
                    let t = self.input_text.clone();
                    let rq = self.set_input_text(t.as_str());
                    AfterOutcome { quit: None, run_query: rq }
                } else {
                    let p = self.state.current_prefix.clone();
                    let rq = self.set_input_text(p.as_str());
                    AfterOutcome { quit: None, run_query: rq }
                }
            },
            AfterAction::Reload => {
                AfterOutcome { quit: None, run_query: Some(query.to_owned()) }
            },
            AfterAction::AsyncReload => {
                self.state.async_after = Some(AfterAction::AsyncReload);
                AfterOutcome { quit: None, run_query: None }
            },
            AfterAction::AsyncClearReload => {
                self.state.async_after = Some(AfterAction::AsyncClearReload);
                AfterOutcome { quit: None, run_query: None }
            },
            AfterAction::Nothing => {
                AfterOutcome { quit: None, run_query: None }
            },
        }
    }

    /// Hands the deferred after-action to the query pipeline and clears
    /// the marker; the pipeline then applies the equivalent synchronous
    /// effect once its asynchronous refresh has completed.
    pub fn take_async_after(&mut self) -> (r: Option<AfterAction>)
        ensures
            r == old(self).state.async_after,
            *final(self) == (Launcher { state: final(self).state, ..*old(self) }),
            final(self).state == (SessionState { async_after: None, ..old(self).state }),
    {
        let r = self.state.async_after;
        self.state.async_after = None;
        r
    }

    /// Runs the deferred phase of the reset, strictly after the
    /// synchronous phase and before the next input event; a tick with
    /// nothing pending does nothing.
    #[verifier::rlimit(100)]
    pub fn idle_tick(&mut self) -> (out: IdleOutcome)
        requires
            old(self).wf(),
        ensures
            final(self).wf(),
            idle_rel(*old(self), *final(self), out),
    {
        if !self.pending_idle {
            return IdleOutcome {
                ran: false,
                apply_placeholder: None,
                height: None,
                width: None,
                min_height: None,
                min_width: None,
                max_height: None,
                max_width: None,
                run_query: None,
            };
        }
        self.pending_idle = false;
        let snap = self.input_text.clone();
        self.state.last_query = snap;
        let apply_placeholder = if !self.state.initial_placeholder.as_str().is_empty() {
            let p = self.state.initial_placeholder.clone();
            self.state.initial_placeholder = String::new();
            Some(p)
        } else {
            None
        };
        let rq = self.set_input_text("");
        let height = self.state.initial_height;
        self.state.initial_height = None;
        let width = self.state.initial_width;
        self.state.initial_width = None;
        let min_height = self.state.initial_min_height;
        self.state.initial_min_height = None;
        let min_width = self.state.initial_min_width;
        self.state.initial_min_width = None;
        let max_height = self.state.initial_max_height;
        self.state.initial_max_height = None;
        let max_width = self.state.initial_max_width;
        self.state.initial_max_width = None;
        self.state.theme = self.config.default_theme.clone();
        proof {
            reveal_strlit("");
            assert(self.input_text@ =~= Seq::<char>::empty());
            assert(self.state.model() =~= (StateModel {
                last_query: old(self).input_text@,
                initial_placeholder: Seq::<char>::empty(),
                initial_height: None,
                initial_width: None,
                initial_min_height: None,
                initial_min_width: None,
                initial_max_height: None,
                initial_max_width: None,
                theme: old(self).config.default_theme@,
                ..old(self).state.model()
            }));
        }
        IdleOutcome {
            ran: true,
            apply_placeholder,
            height,
            width,
            min_height,
            min_width,
            max_height,
            max_width,
            run_query: rq,
        }
    }
}

/// The identifier of the global close action.
pub const ACTION_CLOSE: &'static str = "close";

/// The identifier of the global move-next action.
pub const ACTION_SELECT_NEXT: &'static str = "select_next";

/// The identifier of the global move-previous action.
pub const ACTION_SELECT_PREVIOUS: &'static str = "select_previous";

/// The identifier of the global exact-match toggle.
pub const ACTION_TOGGLE_EXACT: &'static str = "toggle_exact";

/// The identifier of the global resume-last-query action.
pub const ACTION_RESUME_LAST_QUERY: &'static str = "resume_last_query";

/// The prefix of the quick-activate action family.
pub const ACTION_QUICK_ACTIVATE: &'static str = "quickactivate:";

/// A pure meta-action: a state transition never dispatched to the
/// provider layer.
pub open spec fn is_meta_action(a: Seq<char>) -> bool {
    has_prefix(a, "set:"@) || has_prefix(a, "provider:"@)
}

/// What a meta-action does to the session record: `"set:x"` switches
/// the result set to the suffix and clears the provider; `"provider:x"`
/// switches the provider to the suffix.
pub open spec fn meta_model(m: StateModel, action: Seq<char>) -> StateModel {
    if has_prefix(action, "set:"@) {
        StateModel {
            current_set: action.skip("set:"@.len() as int),
            provider: Seq::<char>::empty(),
            ..m
        }
    } else if has_prefix(action, "provider:"@) {
        StateModel { provider: action.skip("provider:"@.len() as int), ..m }
    } else {
        m
    }
}

/// The meta side effects of resolution: applied only for a
/// provider-global winner (an item-scoped winner switches nothing).
pub open spec fn meta_rel(pre: Launcher, mid: Launcher, item_scoped: bool, action: Seq<char>) -> bool {
    &&& mid == (Launcher { state: mid.state, ..pre })
    &&& mid.state.model() == (if item_scoped {
        pre.state.model()
    } else {
        meta_model(pre.state.model(), action)
    })
}

/// Which stage of the priority chain a key press resolves to.
pub enum Resolution {
    /// The session is neither connected nor in dmenu mode: the key is
    /// swallowed, honouring at most the global close bind.
    Inactive { close: bool },
    /// Dmenu confirm with no selection: the raw input is the result.
    DmenuAccept,
    /// A provider-global or item-scoped bind wins and is dispatched.
    Dispatch {
        action: Action,
        after: AfterAction,
        item: Option<usize>,
        provider: String,
    },
    /// A global fallback bind wins.
    GlobalAction { action: Action },
    /// Nothing matched: the key is passed back to the host.
    Unhandled,
}

/// The global fallback stage: the global table decides between a
/// recognized action and an unhandled key.
pub open spec fn global_or_unhandled(l: Launcher, key: u32, mods: u32) -> Resolution {
    match get_bind_spec(l.binds.global@, key, mods) {
        Some(a) => Resolution::GlobalAction { action: a },
        None => Resolution::Unhandled,
    }
}

/// The keybind resolution chain, evaluated top-down, first match wins:
/// the non-interactive gate; dmenu confirm with no selection; a
/// provider-global bind; an item-scoped bind (its after-action forced
/// to `Nothing` in a keep-open, non-exit-after dmenu session); and the
/// global fallback, reached also when a provider winner is the
/// reserved `"menus:parent"` re-entry while a prefix provider is
/// active.
pub open spec fn resolve_spec(l: Launcher, key: u32, mods: u32) -> Resolution {
    if !l.state.connected && !l.state.is_dmenu {
        Resolution::Inactive {
            close: (match get_bind_spec(l.binds.global@, key, mods) {
                Some(a) => a.action@ == "close"@,
                None => false,
            }),
        }
    } else if l.state.is_dmenu && key == KEY_ACCEPT && l.items@.len() == 0 {
        Resolution::DmenuAccept
    } else {
        let prov = active_provider_spec(l);
        let pg = if prov.len() > 0 {
            provider_global_bind_spec(l.binds.provider_global@, prov, key, mods)
        } else {
            None::<Action>
        };
        match pg {
            Some(a) => {
                if a.action@ == "menus:parent"@ && l.state.prefix_provider@.len() > 0 {
                    global_or_unhandled(l, key, mods)
                } else {
                    Resolution::Dispatch {
                        action: a,
                        after: a.effective_after(),
                        item: None,
                        provider: (if l.state.provider@.len() > 0 {
                            l.state.provider
                        } else {
                            l.state.prefix_provider
                        }),
                    }
                }
            },
            None => {
                if l.items@.len() > 0 {
                    let it = l.items@[l.index as int];
                    match provider_bind_spec(
                        l.binds.provider_item@,
                        it.provider@,
                        key,
                        mods,
                        it.actions@,
                    ) {
                        Some(a) => {
                            if a.action@ == "menus:parent"@ && l.state.prefix_provider@.len() > 0 {
                                global_or_unhandled(l, key, mods)
                            } else {
                                Resolution::Dispatch {
                                    action: a,
                                    after: (if l.state.dmenu_keep_open && !l.state.dmenu_exit_after {
                                        AfterAction::Nothing
                                    } else {
                                        a.effective_after()
                                    }),
                                    item: Some(l.index),
                                    provider: it.provider,
                                }
                            }
                        },
                        None => global_or_unhandled(l, key, mods),
                    }
                } else {
                    global_or_unhandled(l, key, mods)
                }
            },
        }
    }
}

/// A dispatch record with no external effect.
pub open spec fn dispatched_none(d: Dispatched) -> bool {
    &&& d.activate is None
    &&& d.quit is None
    &&& d.run_query is None
    &&& d.error is None
}

/// The after-outcome embedded in a dispatch record.
pub open spec fn dispatch_after_out(d: Dispatched) -> AfterOutcome {
    AfterOutcome { quit: d.quit, run_query: d.run_query }
}

/// The session once an attached IPC client has been handed a value.
pub open spec fn confirmed(l: Launcher) -> Launcher {
    Launcher { state: SessionState { sender_attached: false, ..l.state }, ..l }
}

/// A default activation of the selected item: the tie-break picks the
/// descriptor, the provider layer is handed the activation, and the
/// after-action machine runs; a tie-break miss is reported loudly and
/// changes nothing; an empty list does nothing.
pub open spec fn activate_default_rel(pre: Launcher, post: Launcher, d: Dispatched) -> bool {
    if pre.items@.len() == 0 {
        &&& post == pre
        &&& dispatched_none(d)
    } else {
        let it = pre.items@[pre.index as int];
        let hints = hints_for_spec(pre.binds.hints@, it.provider@, it.actions@);
        match choose_action_spec(hints, it.actions@) {
            Err(e) => {
                &&& post == pre
                &&& d.activate is None
                &&& d.quit is None
                &&& d.run_query is None
                &&& d.error == Some(e)
            },
            Ok(a) => {
                &&& d.error is None
                &&& (match d.activate {
                    Some(c) => c.item == Some(pre.index) && c.provider@ == it.provider@ && c.query@
                        == pre.input_text@ && c.action == a,
                    None => false,
                })
                &&& after_rel(pre, post, dispatch_after_out(d), a.effective_after(), pre.input_text@)
            },
        }
    }
}

/// A quick-activate jump: the suffix selects an absolute index (an
/// out-of-range index leaves the cursor), then a default activation
/// runs; a malformed suffix is a loud contract violation.
pub open spec fn quick_rel(pre: Launcher, post: Launcher, d: Dispatched, suffix: Seq<char>) -> bool {
    if suffix.len() > 0 && all_digits(suffix) && dec_val(suffix) <= u32::MAX as int {
        let mid = Launcher {
            index: (if dec_val(suffix) < pre.items@.len() as int {
                dec_val(suffix) as usize
            } else {
                pre.index
            }),
            ..pre
        };
        activate_default_rel(mid, post, d)
    } else {
        &&& post == pre
        &&& d.activate is None
        &&& d.quit is None
        &&& d.run_query is None
        &&& d.error == Some(ActionError::InvalidQuickActivate)
    }
}

/// What each recognized global action does; an unrecognized action is
/// consumed without effect.
pub open spec fn global_action_rel(pre: Launcher, post: Launcher, r: KeyOutcome, action: Action) -> bool {
    &&& r.handled
    &&& r.emit is None
    &&& {
        let a = action.action@;
        if a == "close"@ {
            &&& r.dispatched.activate is None
            &&& r.dispatched.run_query is None
            &&& r.dispatched.error is None
            &&& (match r.dispatched.quit {
                Some(qe) => quit_rel(pre, post, qe, true),
                None => false,
            })
        } else if a == "select_next"@ {
            &&& dispatched_none(r.dispatched)
            &&& select_next_rel(pre, post)
        } else if a == "select_previous"@ {
            &&& dispatched_none(r.dispatched)
            &&& select_previous_rel(pre, post)
        } else if a == "toggle_exact"@ {
            &&& r.dispatched.activate is None
            &&& r.dispatched.quit is None
            &&& r.dispatched.error is None
            &&& toggle_exact_rel(pre, post, r.dispatched.run_query)
        } else if a == "resume_last_query"@ {
            &&& r.dispatched.activate is None
            &&& r.dispatched.quit is None
            &&& r.dispatched.error is None
            &&& resume_rel(pre, post, r.dispatched.run_query)
        } else if has_prefix(a, "quickactivate:"@) {
            quick_rel(pre, post, r.dispatched, a.skip("quickactivate:"@.len() as int))
        } else {
            &&& dispatched_none(r.dispatched)
            &&& post == pre
        }
    }
}

/// The full contract of one key press, keyed on what the chain
/// resolves to. Resolving a pure meta-action never hands the provider
/// layer an activation: it only switches the result set or provider.
/// An after-action is applied to the session the meta transition left.
pub open spec fn handle_key_rel(pre: Launcher, post: Launcher, r: KeyOutcome, key: u32, mods: u32) -> bool {
    match resolve_spec(pre, key, mods) {
        Resolution::Inactive { close } => {
            &&& r.handled
            &&& r.emit is None
            &&& r.dispatched.activate is None
            &&& r.dispatched.run_query is None
            &&& r.dispatched.error is None
            &&& if close {
                (match r.dispatched.quit {
                    Some(qe) => quit_rel(pre, post, qe, true),
                    None => false,
                })
            } else {
                r.dispatched.quit is None && post == pre
            }
        },
        Resolution::DmenuAccept => {
            &&& r.handled
            &&& r.dispatched.activate is None
            &&& r.dispatched.run_query is None
            &&& r.dispatched.error is None
            &&& (match r.emit {
                Some(t) => t@ == (if pre.input_text@.len() == 0 {
                    "CNCLD"@
                } else {
                    pre.input_text@
                }),
                None => false,
            })
            &&& (match r.dispatched.quit {
                Some(qe) => quit_rel(confirmed(pre), post, qe, false),
                None => false,
            })
        },
        Resolution::Dispatch { action, after, item, provider } => {
            &&& r.handled
            &&& r.emit is None
            &&& r.dispatched.error is None
            &&& (if is_meta_action(action.action@) {
                r.dispatched.activate is None
            } else {
                match r.dispatched.activate {
                    Some(c) => c.item == item && c.provider@ == provider@ && c.query@
                        == pre.input_text@ && c.action == action,
                    None => false,
                }
            })
            &&& (exists|mid: Launcher|
                #[trigger] meta_rel(pre, mid, item is Some, action.action@) && after_rel(
                    mid,
                    post,
                    dispatch_after_out(r.dispatched),
                    after,
                    pre.input_text@,
                ))
        },
        Resolution::GlobalAction { action } => global_action_rel(pre, post, r, action),
        Resolution::Unhandled => {
            &&& !r.handled
            &&& r.emit is None
            &&& dispatched_none(r.dispatched)
            &&& post == pre
        },
    }
}

impl Launcher {
    /// Dispatches a winning provider bind: a provider-global winner
    /// first applies its meta transition, a non-meta winner is handed
    /// to the provider layer, and the after-action machine runs.
    #[verifier::rlimit(100)]
    fn dispatch_winner(
        &mut self,
        a: Action,
        item: Option<usize>,
        provider: String,
        forced_nothing: bool,
    ) -> (d: Dispatched)
        requires
            old(self).wf(),
        ensures
            final(self).wf(),
            d.error is None,
            (if is_meta_action(a.action@) {
                d.activate is None
            } else {
                match d.activate {
                    Some(c) => c.item == item && c.provider@ == provider@ && c.query@ == old(
                        self,
                    ).input_text@ && c.action == a,
                    None => false,
                }
            }),
            (exists|mid: Launcher|
                #[trigger] meta_rel(*old(self), mid, item is Some, a.action@) && after_rel(
                    mid,
                    *final(self),
                    dispatch_after_out(d),
                    (if forced_nothing {
                        AfterAction::Nothing
                    } else {
                        a.effective_after()
                    }),
                    old(self).input_text@,
                )),
    {
        if item.is_none() {
            let set_suffix = strip_prefix_str(a.action.as_str(), "set:");
            match set_suffix {
                Some(sfx) => {
                    self.state.current_set = sfx;
                    self.state.provider = String::new();
                },
                None => {
                    let prov_suffix = strip_prefix_str(a.action.as_str(), "provider:");
                    match prov_suffix {
                        Some(sfx) => {
                            self.state.provider = sfx;
                        },
                        None => {},
                    }
                },
            }
            proof {
                assert(self.state.model() =~= meta_model(old(self).state.model(), a.action@));
            }
        }
        let ghost mid = *self;
        proof {
            assert(meta_rel(*old(self), mid, item is Some, a.action@));
        }
        let after = if forced_nothing {
            AfterAction::Nothing
        } else {
            match a.after {
                Some(x) => x,
                None => AfterAction::Close,
            }
        };
        let is_meta = starts_with_str(a.action.as_str(), "set:") || starts_with_str(
            a.action.as_str(),
            "provider:",
        );
        let activate = if is_meta {
            None
        } else {
            Some(ActivateCall { item, provider, query: self.input_text.clone(), action: a })
        };
        let q = self.input_text.clone();
        let out = self.handle_after(after, q.as_str());
        Dispatched { activate, quit: out.quit, run_query: out.run_query, error: None }
    }

    /// Activates the selected item with its default action: the
    /// tie-break picks the descriptor, the host is handed the
    /// activation, and the after-action machine runs.
    #[verifier::rlimit(100)]
    pub fn activate_default(&mut self) -> (d: Dispatched)
        requires
            old(self).wf(),
        ensures
            final(self).wf(),
            activate_default_rel(*old(self), *final(self), d),
    {
        if self.items.len() == 0 {
            return Dispatched { activate: None, quit: None, run_query: None, error: None };
        }
        let provider = self.items[self.index].provider.clone();
        let hints = self.binds.get_keybind_hint(provider.as_str(), &self.items[self.index].actions);
        let chosen = choose_action(&hints, &self.items[self.index].actions);
        match chosen {
            Err(e) => Dispatched { activate: None, quit: None, run_query: None, error: Some(e) },
            Ok(a) => {
                let after = match a.after {
                    Some(x) => x,
                    None => AfterAction::Close,
                };
                let call = ActivateCall {
                    item: Some(self.index),
                    provider,
                    query: self.input_text.clone(),
                    action: a,
                };
                let q = self.input_text.clone();
                let out = self.handle_after(after, q.as_str());
                Dispatched {
                    activate: Some(call),
                    quit: out.quit,
                    run_query: out.run_query,
                    error: None,
                }
            },
        }
    }

    /// The global fallback stage of resolution.
    #[verifier::rlimit(100)]
    fn global_fallback(&mut self, key: u32, mods: u32) -> (r: KeyOutcome)
        requires
            old(self).wf(),
        ensures
            final(self).wf(),
            (match get_bind_spec(old(self).binds.global@, key, mods) {
                Some(a) => global_action_rel(*old(self), *final(self), r, a),
                None => !r.handled && r.emit is None && dispatched_none(r.dispatched)
                    && *final(self) == *old(self),
            }),
    {
        let found = self.binds.get_bind(key, mods);
        match found {
            None => KeyOutcome {
                handled: false,
                emit: None,
                dispatched: Dispatched { activate: None, quit: None, run_query: None, error: None },
            },
            Some(a) => {
                if str_eq(a.action.as_str(), "close") {
                    let qe = self.quit(true);
                    return KeyOutcome {
                        handled: true,
                        emit: None,
                        dispatched: Dispatched {
                            activate: None,
                            quit: Some(qe),
                            run_query: None,
                            error: None,
                        },
                    };
                }
                if str_eq(a.action.as_str(), "select_next") {
                    self.select_next();
                    return KeyOutcome {
                        handled: true,
                        emit: None,
                        dispatched: Dispatched {
                            activate: None,
                            quit: None,
                            run_query: None,
                            error: None,
                        },
                    };
                }
                if str_eq(a.action.as_str(), "select_previous") {
                    self.select_previous();
                    return KeyOutcome {
                        handled: true,
                        emit: None,
                        dispatched: Dispatched {
                            activate: None,
                            quit: None,
                            run_query: None,
                            error: None,
                        },
                    };
                }
                if str_eq(a.action.as_str(), "toggle_exact") {
                    let rq = self.toggle_exact();
                    return KeyOutcome {
                        handled: true,
                        emit: None,
                        dispatched: Dispatched {
                            activate: None,
                            quit: None,
                            run_query: rq,
                            error: None,
                        },
                    };
                }
                if str_eq(a.action.as_str(), "resume_last_query") {
                    let rq = self.resume_last_query();
                    return KeyOutcome {
                        handled: true,
                        emit: None,
                        dispatched: Dispatched {
                            activate: None,
                            quit: None,
                            run_query: rq,
                            error: None,
                        },
                    };
                }
                let suffix = strip_prefix_str(a.action.as_str(), "quickactivate:");
                match suffix {
                    Some(sfx) => {
                        proof {
                            assert(a.action@.subrange(
                                "quickactivate:"@.len() as int,
                                a.action@.len() as int,
                            ) =~= a.action@.skip("quickactivate:"@.len() as int));
                        }
                        let parsed = parse_u32_dec(sfx.as_str());
                        match parsed {
                            Some(i) => {
                                self.select_index(i as usize);
                                let d = self.activate_default();
                                KeyOutcome { handled: true, emit: None, dispatched: d }
                            },
                            None => KeyOutcome {
                                handled: true,
                                emit: None,
                                dispatched: Dispatched {
                                    activate: None,
                                    quit: None,
                                    run_query: None,
                                    error: Some(ActionError::InvalidQuickActivate),
                                },
                            },
                        }
                    },
                    None => KeyOutcome {
                        handled: true,
                        emit: None,
                        dispatched: Dispatched {
                            activate: None,
                            quit: None,
                            run_query: None,
                            error: None,
                        },
                    },
                }
            },
        }
    }

    /// Resolves one key press through the priority chain and applies
    /// its effects: the meta transitions, the activation handed to the
    /// provider layer, and the after-action machine.
    #[verifier::rlimit(100)]
    pub fn handle_key(&mut self, key: u32, mods: u32) -> (r: KeyOutcome)
        requires
            old(self).wf(),
        ensures
            final(self).wf(),
            handle_key_rel(*old(self), *final(self), r, key, mods),
    {
        if !self.state.connected && !self.state.is_dmenu {
            let close = match self.binds.get_bind(key, mods) {
                Some(a) => str_eq(a.action.as_str(), "close"),
                None => false,
            };
            if close {
                let qe = self.quit(true);
                return KeyOutcome {
                    handled: true,
                    emit: None,
                    dispatched: Dispatched {
                        activate: None,
                        quit: Some(qe),
                        run_query: None,
                        error: None,
                    },
                };
            }
            return KeyOutcome {
                handled: true,
                emit: None,
                dispatched: Dispatched { activate: None, quit: None, run_query: None, error: None },
            };
        }
        if self.state.is_dmenu && key == KEY_ACCEPT && self.items.len() == 0 {
            let text = if self.input_text.as_str().is_empty() {
                "CNCLD".to_owned()
            } else {
                self.input_text.clone()
            };
            self.state.sender_attached = false;
            proof {
                assert(*self == confirmed(*old(self)));
            }
            let qe = self.quit(false);
            return KeyOutcome {
                handled: true,
                emit: Some(text),
                dispatched: Dispatched {
                    activate: None,
                    quit: Some(qe),
                    run_query: None,
                    error: None,
                },
            };
        }
        let provider = self.active_provider();
        if !provider.as_str().is_empty() {
            let pg = self.binds.get_provider_global_bind(provider.as_str(), key, mods);
            match pg {
                Some(a) => {
                    if str_eq(a.action.as_str(), "menus:parent")
                        && !self.state.prefix_provider.as_str().is_empty() {
                        return self.global_fallback(key, mods);
                    }
                    let d = self.dispatch_winner(a, None, provider.clone(), false);
                    return KeyOutcome { handled: true, emit: None, dispatched: d };
                },
                None => {},
            }
        }
        if self.items.len() > 0 {
            let it_provider = self.items[self.index].provider.clone();
            let found = self.binds.get_provider_bind(
                it_provider.as_str(),
                key,
                mods,
                &self.items[self.index].actions,
            );
            match found {
                Some(a) => {
                    if str_eq(a.action.as_str(), "menus:parent")
                        && !self.state.prefix_provider.as_str().is_empty() {
                        return self.global_fallback(key, mods);
                    }
                    let forced = self.state.dmenu_keep_open && !self.state.dmenu_exit_after;
                    let idx = self.index;
                    let d = self.dispatch_winner(a, Some(idx), it_provider, forced);
                    return KeyOutcome { handled: true, emit: None, dispatched: d };
                },
                None => {
                    return self.global_fallback(key, mods);
                },
            }
        }
        self.global_fallback(key, mods)
    }
}

/// Priority ordering: when both a provider-global bind and a global
/// bind are registered for the same chord in an interactive session
/// with an active provider, the provider-global bind wins; except when
/// its action is exactly the reserved `"menus:parent"` re-entry while
/// a prefix provider is active, in which case resolution falls through
/// and the global bind wins.
pub proof fn lemma_provider_global_priority(
    l: Launcher,
    key: u32,
    mods: u32,
    pa: Action,
    ga: Action,
)
    requires
        l.state.connected || l.state.is_dmenu,
        !(l.state.is_dmenu && key == KEY_ACCEPT && l.items@.len() == 0),
        active_provider_spec(l).len() > 0,
        provider_global_bind_spec(l.binds.provider_global@, active_provider_spec(l), key, mods)
            == Some(pa),
        get_bind_spec(l.binds.global@, key, mods) == Some(ga),
    ensures
        (if pa.action@ == "menus:parent"@ && l.state.prefix_provider@.len() > 0 {
            resolve_spec(l, key, mods) == (Resolution::GlobalAction { action: ga })
        } else {
            resolve_spec(l, key, mods) matches Resolution::Dispatch { action, item, .. }
                && action == pa && item is None
        }),
{
}

} // verus!
