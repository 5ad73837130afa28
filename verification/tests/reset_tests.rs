use launcher_core::actions::AfterAction;
use launcher_core::binds::{BindTable, ProviderBind};
use launcher_core::launcher::{Launcher, LauncherConfig, Placeholder};
use launcher_core::state::SessionState;

const KEY: u32 = 100;
const MODS: u32 = 0;

fn cfg() -> LauncherConfig {
    LauncherConfig {
        selection_wrap: true,
        exact_search_prefix: String::from("'"),
        global_argument_delimiter: String::from("#"),
        default_theme: String::from("nord"),
        providers: vec![String::from("clipboard")],
        placeholders: Vec::<Placeholder>::new(),
    }
}

fn no_binds() -> BindTable {
    BindTable {
        global: Vec::new(),
        provider_global: Vec::new(),
        provider_item: Vec::new(),
        hints: Vec::new(),
    }
}

fn messy_service_launcher() -> Launcher {
    let mut l = Launcher::new(cfg(), no_binds());
    l.state.service = true;
    l.state.connected = true;
    l.state.provider = String::from("files");
    l.state.prefix_provider = String::from("menus:apps");
    l.state.current_prefix = String::from(">");
    l.state.current_set = String::from("favorites");
    l.state.query = String::from("abc");
    l.state.placeholder = String::from("search");
    l.state.no_search = true;
    l.state.no_hints = true;
    l.state.input_only = true;
    l.state.param_close = true;
    l.state.hide_qa = true;
    l.state.is_visible = true;
    l.state.is_dmenu = true;
    l.state.dmenu_current = 7;
    l.state.param_height = Some(10);
    l.state.param_width = Some(11);
    l.state.param_min_height = Some(12);
    l.state.param_min_width = Some(13);
    l.state.param_max_height = Some(14);
    l.state.param_max_width = Some(15);
    l
}

fn snapshot(s: &SessionState) -> (Vec<String>, Vec<bool>, Vec<Option<i32>>) {
    (
        vec![
            s.provider.clone(),
            s.prefix_provider.clone(),
            s.current_prefix.clone(),
            s.current_set.clone(),
            s.query.clone(),
            s.last_query.clone(),
            s.placeholder.clone(),
            s.theme.clone(),
        ],
        vec![
            s.connected,
            s.service,
            s.sender_attached,
            s.is_dmenu,
            s.dmenu_keep_open,
            s.dmenu_exit_after,
            s.no_search,
            s.no_hints,
            s.input_only,
            s.param_close,
            s.hide_qa,
            s.is_visible,
        ],
        vec![
            s.param_height,
            s.param_width,
            s.param_min_height,
            s.param_min_width,
            s.param_max_height,
            s.param_max_width,
            s.initial_height,
            s.initial_width,
        ],
    )
}

#[test]
fn service_quit_clears_transient_state() {
    let mut l = messy_service_launcher();
    let qe = l.quit(false);
    assert!(qe.hide_window);
    assert!(qe.detach_preview);
    assert!(qe.disable_clipboard_images);
    assert!(!qe.quit_app);
    assert_eq!(qe.exit_code, None);
    assert_eq!(l.state.provider, "");
    assert_eq!(l.state.current_prefix, "");
    assert_eq!(l.state.current_set, "");
    assert_eq!(l.state.query, "");
    assert_eq!(l.state.placeholder, "");
    assert!(!l.state.no_search);
    assert!(!l.state.no_hints);
    assert!(!l.state.input_only);
    assert!(!l.state.param_close);
    assert!(!l.state.hide_qa);
    assert!(!l.state.is_visible);
    assert!(!l.state.is_dmenu);
    assert_eq!(l.state.dmenu_current, 0);
    assert_eq!(l.state.param_height, None);
    assert_eq!(l.state.param_max_width, None);
    // the prefix provider is not part of the clearing sequence
    assert_eq!(l.state.prefix_provider, "menus:apps");
    assert!(l.pending_idle);
}

#[test]
fn repeated_quit_is_idempotent() {
    let mut l = messy_service_launcher();
    l.quit(false);
    let once = snapshot(&l.state);
    l.quit(false);
    let twice = snapshot(&l.state);
    assert_eq!(once, twice);
}

#[test]
fn exit_after_is_one_shot_and_drops_keep_open() {
    let mut l = messy_service_launcher();
    l.state.dmenu_keep_open = true;
    l.state.dmenu_exit_after = true;
    l.quit(false);
    assert!(!l.state.dmenu_exit_after);
    assert!(!l.state.dmenu_keep_open);
}

#[test]
fn keep_open_survives_a_plain_quit() {
    let mut l = messy_service_launcher();
    l.state.dmenu_keep_open = true;
    l.state.dmenu_exit_after = false;
    l.quit(false);
    assert!(l.state.dmenu_keep_open);
}

#[test]
fn one_shot_quit_cancelled_exits_interrupted() {
    let mut l = messy_service_launcher();
    l.state.service = false;
    let before = l.state.provider.clone();
    let qe = l.quit(true);
    assert_eq!(qe.exit_code, Some(130));
    assert!(!qe.quit_app);
    // a terminating session does not run the clearing sequence
    assert_eq!(l.state.provider, before);
    assert!(!l.pending_idle);
}

#[test]
fn quit_owes_cancellation_to_attached_client_once() {
    let mut l = messy_service_launcher();
    l.state.sender_attached = true;
    let qe = l.quit(false);
    assert!(qe.emit_cancel);
    let qe2 = l.quit(false);
    assert!(!qe2.emit_cancel);
}

#[test]
fn idle_tick_restores_deferred_state() {
    let mut l = messy_service_launcher();
    l.state.initial_placeholder = String::from("Search...");
    l.state.initial_height = Some(600);
    l.state.initial_min_width = Some(320);
    l.set_input_text("last words");
    l.quit(false);
    assert!(l.pending_idle);
    let out = l.idle_tick();
    assert!(out.ran);
    assert_eq!(l.state.last_query, "last words");
    assert_eq!(l.input_text, "");
    assert_eq!(out.apply_placeholder.as_deref(), Some("Search..."));
    assert_eq!(l.state.initial_placeholder, "");
    assert_eq!(out.height, Some(600));
    assert_eq!(out.min_width, Some(320));
    assert_eq!(out.width, None);
    assert_eq!(l.state.initial_height, None);
    assert_eq!(l.state.initial_min_width, None);
    assert_eq!(l.state.theme, "nord");
    assert_eq!(out.run_query.as_deref(), Some(""));
    assert!(!l.pending_idle);
}

#[test]
fn idle_tick_without_pending_reset_is_noop() {
    let mut l = messy_service_launcher();
    let before = snapshot(&l.state);
    let out = l.idle_tick();
    assert!(!out.ran);
    assert_eq!(before, snapshot(&l.state));
}

#[test]
fn async_reload_defers_instead_of_running() {
    let binds = BindTable {
        global: Vec::new(),
        provider_global: vec![ProviderBind {
            provider: String::from("files"),
            key: KEY,
            mods: MODS,
            action: launcher_core::actions::Action {
                action: String::from("files:refresh"),
                is_default: None,
                after: Some(AfterAction::AsyncReload),
                bind: None,
                label: None,
            },
        }],
        provider_item: Vec::new(),
        hints: Vec::new(),
    };
    let mut l = Launcher::new(cfg(), binds);
    l.state.connected = true;
    l.state.provider = String::from("files");
    let r = l.handle_key(KEY, MODS);
    assert!(r.handled);
    // no synchronous re-run of the query
    assert!(r.dispatched.run_query.is_none());
    assert!(r.dispatched.quit.is_none());
    assert_eq!(l.state.async_after, Some(AfterAction::AsyncReload));
    // the pipeline consumes the marker explicitly, once
    assert_eq!(l.take_async_after(), Some(AfterAction::AsyncReload));
    assert_eq!(l.state.async_after, None);
    assert_eq!(l.take_async_after(), None);
}

#[test]
fn after_reload_reruns_same_query() {
    let mut l = Launcher::new(cfg(), no_binds());
    let out = l.handle_after(AfterAction::Reload, "typed");
    assert_eq!(out.run_query.as_deref(), Some("typed"));
    assert!(out.quit.is_none());
}

#[test]
fn after_clear_reload_resets_to_prefix() {
    let mut l = Launcher::new(cfg(), no_binds());
    l.state.current_prefix = String::from(">");
    l.set_input_text("some text");
    let out = l.handle_after(AfterAction::ClearReload, "some text");
    assert_eq!(l.input_text, ">");
    assert_eq!(out.run_query.as_deref(), Some(">"));
}

#[test]
fn after_clear_reload_on_empty_input_reruns_empty() {
    let mut l = Launcher::new(cfg(), no_binds());
    let out = l.handle_after(AfterAction::ClearReload, "");
    assert_eq!(l.input_text, "");
    assert_eq!(out.run_query.as_deref(), Some(""));
}

#[test]
fn after_close_quits_non_cancelled() {
    let mut l = Launcher::new(cfg(), no_binds());
    let out = l.handle_after(AfterAction::Close, "");
    let qe = out.quit.expect("close quits");
    assert_eq!(qe.exit_code, None);
    assert!(qe.quit_app);
}

#[test]
fn after_keep_open_advances_selection() {
    let mut l = Launcher::new(cfg(), no_binds());
    l.set_items(vec![
        launcher_core::dmenu::ResultItem {
            provider: String::from("a"),
            actions: Vec::new(),
            dmenu_score: 0,
        },
        launcher_core::dmenu::ResultItem {
            provider: String::from("a"),
            actions: Vec::new(),
            dmenu_score: 0,
        },
    ]);
    let out = l.handle_after(AfterAction::KeepOpen, "");
    assert_eq!(l.index, 1);
    assert!(out.quit.is_none());
    assert!(out.run_query.is_none());
}
