use launcher_core::actions::{Action, ActionError, AfterAction};
use launcher_core::binds::{Bind, BindTable, Hint, ProviderBind};
use launcher_core::dmenu::ResultItem;
use launcher_core::launcher::{Launcher, LauncherConfig, Placeholder, KEY_ACCEPT, EXIT_CODE_INTERRUPTED};

const KEY: u32 = 100;
const MODS: u32 = 4;

fn act(id: &str, after: Option<AfterAction>) -> Action {
    Action {
        action: String::from(id),
        is_default: None,
        after,
        bind: None,
        label: None,
    }
}

fn default_act(id: &str, after: Option<AfterAction>) -> Action {
    Action { is_default: Some(true), ..act(id, after) }
}

fn cfg() -> LauncherConfig {
    LauncherConfig {
        selection_wrap: true,
        exact_search_prefix: String::from("'"),
        global_argument_delimiter: String::from("#"),
        default_theme: String::from("default"),
        providers: vec![String::from("files"), String::from("menus")],
        placeholders: Vec::<Placeholder>::new(),
    }
}

fn item(provider: &str, actions: Vec<&str>, score: u32) -> ResultItem {
    ResultItem {
        provider: String::from(provider),
        actions: actions.into_iter().map(String::from).collect(),
        dmenu_score: score,
    }
}

fn connected(binds: BindTable) -> Launcher {
    let mut l = Launcher::new(cfg(), binds);
    l.state.connected = true;
    l
}

fn pbind(provider: &str, id: &str, after: Option<AfterAction>) -> ProviderBind {
    ProviderBind { provider: String::from(provider), key: KEY, mods: MODS, action: act(id, after) }
}

#[test]
fn provider_global_bind_wins_over_global() {
    let binds = BindTable {
        global: vec![Bind { key: KEY, mods: MODS, action: act("select_next", None) }],
        provider_global: vec![pbind("files", "files:open", Some(AfterAction::Nothing))],
        provider_item: Vec::new(),
        hints: Vec::new(),
    };
    let mut l = connected(binds);
    l.state.provider = String::from("files");
    l.set_items(vec![item("files", vec!["open"], 0), item("files", vec!["open"], 0)]);
    let r = l.handle_key(KEY, MODS);
    assert!(r.handled);
    let call = r.dispatched.activate.expect("provider-global bind must dispatch");
    assert_eq!(call.action.action, "files:open");
    assert_eq!(call.item, None);
    assert_eq!(call.provider, "files");
    // the global select_next bind did not run
    assert_eq!(l.index, 0);
}

#[test]
fn menus_parent_falls_through_to_global() {
    let binds = BindTable {
        global: vec![Bind { key: KEY, mods: MODS, action: act("select_next", None) }],
        provider_global: vec![pbind("menus:apps", "menus:parent", Some(AfterAction::Nothing))],
        provider_item: Vec::new(),
        hints: Vec::new(),
    };
    let mut l = connected(binds);
    l.state.prefix_provider = String::from("menus:apps");
    l.set_items(vec![item("menus:apps", vec!["open"], 0), item("menus:apps", vec!["open"], 0)]);
    let r = l.handle_key(KEY, MODS);
    assert!(r.handled);
    assert!(r.dispatched.activate.is_none());
    // the global bind won: the cursor moved
    assert_eq!(l.index, 1);
}

#[test]
fn meta_set_switches_without_activate() {
    let binds = BindTable {
        global: vec![Bind { key: KEY, mods: MODS, action: act("select_next", None) }],
        provider_global: vec![pbind("files", "set:favorites", Some(AfterAction::Nothing))],
        provider_item: Vec::new(),
        hints: Vec::new(),
    };
    let mut l = connected(binds);
    l.state.provider = String::from("files");
    let r = l.handle_key(KEY, MODS);
    assert!(r.handled);
    assert!(r.dispatched.activate.is_none());
    assert!(r.dispatched.quit.is_none());
    assert_eq!(l.state.current_set, "favorites");
    assert_eq!(l.state.provider, "");
}

#[test]
fn meta_provider_switches_without_activate() {
    let binds = BindTable {
        global: Vec::new(),
        provider_global: vec![pbind("files", "provider:calc", Some(AfterAction::Nothing))],
        provider_item: Vec::new(),
        hints: Vec::new(),
    };
    let mut l = connected(binds);
    l.state.provider = String::from("files");
    let r = l.handle_key(KEY, MODS);
    assert!(r.handled);
    assert!(r.dispatched.activate.is_none());
    assert_eq!(l.state.provider, "calc");
}

#[test]
fn item_bind_dispatches_with_selected_item() {
    let binds = BindTable {
        global: Vec::new(),
        provider_global: Vec::new(),
        provider_item: vec![pbind("files", "open", Some(AfterAction::Nothing))],
        hints: Vec::new(),
    };
    let mut l = connected(binds);
    l.set_items(vec![item("files", vec!["open"], 0)]);
    let r = l.handle_key(KEY, MODS);
    assert!(r.handled);
    let call = r.dispatched.activate.expect("item bind must dispatch");
    assert_eq!(call.item, Some(0));
    assert_eq!(call.provider, "files");
    assert_eq!(call.action.action, "open");
}

#[test]
fn item_bind_restricted_to_declared_actions() {
    let binds = BindTable {
        global: Vec::new(),
        provider_global: Vec::new(),
        provider_item: vec![pbind("files", "delete", Some(AfterAction::Nothing))],
        hints: Vec::new(),
    };
    let mut l = connected(binds);
    l.set_items(vec![item("files", vec!["open"], 0)]);
    let r = l.handle_key(KEY, MODS);
    // the item does not declare "delete": nothing matches
    assert!(!r.handled);
}

#[test]
fn keep_open_dmenu_forces_after_nothing() {
    let binds = BindTable {
        global: Vec::new(),
        provider_global: Vec::new(),
        provider_item: vec![pbind("dmenu", "pick", Some(AfterAction::Close))],
        hints: Vec::new(),
    };
    let mut l = connected(binds);
    l.state.is_dmenu = true;
    l.state.dmenu_keep_open = true;
    l.set_items(vec![item("dmenu", vec!["pick"], 0)]);
    let r = l.handle_key(KEY, MODS);
    assert!(r.handled);
    assert!(r.dispatched.activate.is_some());
    // the declared Close after-action was overridden: no quit ran
    assert!(r.dispatched.quit.is_none());
}

#[test]
fn global_close_quits_cancelled() {
    let binds = BindTable {
        global: vec![Bind { key: KEY, mods: MODS, action: act("close", None) }],
        provider_global: Vec::new(),
        provider_item: Vec::new(),
        hints: Vec::new(),
    };
    let mut l = connected(binds);
    let r = l.handle_key(KEY, MODS);
    assert!(r.handled);
    let qe = r.dispatched.quit.expect("close must quit");
    assert_eq!(qe.exit_code, Some(EXIT_CODE_INTERRUPTED));
    assert!(!qe.quit_app);
}

#[test]
fn quick_activate_jumps_and_activates_default() {
    let binds = BindTable {
        global: vec![Bind { key: KEY, mods: MODS, action: act("quickactivate:1", None) }],
        provider_global: Vec::new(),
        provider_item: Vec::new(),
        hints: vec![
            Hint { provider: String::from("files"), action: default_act("open", Some(AfterAction::Nothing)) },
            Hint { provider: String::from("files"), action: act("delete", Some(AfterAction::Nothing)) },
        ],
    };
    let mut l = connected(binds);
    l.set_items(vec![
        item("files", vec!["open", "delete"], 0),
        item("files", vec!["open", "delete"], 0),
    ]);
    let r = l.handle_key(KEY, MODS);
    assert!(r.handled);
    let call = r.dispatched.activate.expect("quick activate must dispatch");
    assert_eq!(call.item, Some(1));
    assert_eq!(call.action.action, "open");
    assert_eq!(l.index, 1);
}

#[test]
fn quick_activate_bad_index_reports_violation() {
    let binds = BindTable {
        global: vec![Bind { key: KEY, mods: MODS, action: act("quickactivate:one", None) }],
        provider_global: Vec::new(),
        provider_item: Vec::new(),
        hints: Vec::new(),
    };
    let mut l = connected(binds);
    let r = l.handle_key(KEY, MODS);
    assert!(r.handled);
    assert_eq!(r.dispatched.error, Some(ActionError::InvalidQuickActivate));
}

#[test]
fn multi_action_item_without_default_fails_loudly() {
    let binds = BindTable {
        global: Vec::new(),
        provider_global: Vec::new(),
        provider_item: Vec::new(),
        hints: vec![
            Hint { provider: String::from("files"), action: act("open", None) },
            Hint { provider: String::from("files"), action: act("delete", None) },
        ],
    };
    let mut l = connected(binds);
    l.set_items(vec![item("files", vec!["open", "delete"], 0)]);
    let d = l.activate_default();
    assert_eq!(d.error, Some(ActionError::NoDefaultAction));
    assert!(d.activate.is_none());
}

#[test]
fn single_action_item_uses_its_descriptor() {
    let binds = BindTable {
        global: Vec::new(),
        provider_global: Vec::new(),
        provider_item: Vec::new(),
        hints: vec![
            Hint { provider: String::from("files"), action: act("open", Some(AfterAction::Nothing)) },
        ],
    };
    let mut l = connected(binds);
    l.set_items(vec![item("files", vec!["open"], 0)]);
    let d = l.activate_default();
    assert!(d.error.is_none());
    assert_eq!(d.activate.expect("must activate").action.action, "open");
}

#[test]
fn single_action_item_without_descriptor_fails_loudly() {
    let binds = BindTable {
        global: Vec::new(),
        provider_global: Vec::new(),
        provider_item: Vec::new(),
        hints: Vec::new(),
    };
    let mut l = connected(binds);
    l.set_items(vec![item("files", vec!["open"], 0)]);
    let d = l.activate_default();
    assert_eq!(d.error, Some(ActionError::MissingDescriptor));
}

#[test]
fn unhandled_key_passes_through() {
    let mut l = connected(BindTable {
        global: Vec::new(),
        provider_global: Vec::new(),
        provider_item: Vec::new(),
        hints: Vec::new(),
    });
    let r = l.handle_key(KEY, MODS);
    assert!(!r.handled);
}

#[test]
fn inactive_session_swallows_keys() {
    let mut l = Launcher::new(cfg(), BindTable {
        global: vec![Bind { key: KEY, mods: MODS, action: act("select_next", None) }],
        provider_global: Vec::new(),
        provider_item: Vec::new(),
        hints: Vec::new(),
    });
    // neither connected nor dmenu
    let r = l.handle_key(KEY, MODS);
    assert!(r.handled);
    assert!(r.dispatched.activate.is_none());
    assert!(r.dispatched.quit.is_none());
}

#[test]
fn inactive_session_still_honours_close() {
    let mut l = Launcher::new(cfg(), BindTable {
        global: vec![Bind { key: KEY, mods: MODS, action: act("close", None) }],
        provider_global: Vec::new(),
        provider_item: Vec::new(),
        hints: Vec::new(),
    });
    let r = l.handle_key(KEY, MODS);
    assert!(r.handled);
    let qe = r.dispatched.quit.expect("close runs even while inactive");
    assert_eq!(qe.exit_code, Some(130));
}

#[test]
fn dmenu_accept_empty_input_emits_cancellation_token() {
    let mut l = connected(BindTable {
        global: Vec::new(),
        provider_global: Vec::new(),
        provider_item: Vec::new(),
        hints: Vec::new(),
    });
    l.state.is_dmenu = true;
    let r = l.handle_key(KEY_ACCEPT, 0);
    assert!(r.handled);
    assert_eq!(r.emit.as_deref(), Some("CNCLD"));
    let qe = r.dispatched.quit.expect("accept quits the session");
    // non-cancelled quit of a one-shot session: a clean main-loop quit
    assert_eq!(qe.exit_code, None);
    assert!(qe.quit_app);
}

#[test]
fn dmenu_accept_emits_raw_input_text() {
    let mut l = connected(BindTable {
        global: Vec::new(),
        provider_global: Vec::new(),
        provider_item: Vec::new(),
        hints: Vec::new(),
    });
    l.state.is_dmenu = true;
    l.set_input_text("hello");
    let r = l.handle_key(KEY_ACCEPT, 0);
    assert_eq!(r.emit.as_deref(), Some("hello"));
}

#[test]
fn dmenu_accept_with_selection_does_not_emit() {
    let mut l = connected(BindTable {
        global: Vec::new(),
        provider_global: Vec::new(),
        provider_item: Vec::new(),
        hints: Vec::new(),
    });
    l.state.is_dmenu = true;
    l.set_items(vec![item("dmenu", vec!["pick"], 0)]);
    let r = l.handle_key(KEY_ACCEPT, 0);
    assert!(r.emit.is_none());
    assert!(!r.handled);
}
