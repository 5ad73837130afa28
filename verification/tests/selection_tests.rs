use launcher_core::binds::BindTable;
use launcher_core::dmenu::ResultItem;
use launcher_core::launcher::{Launcher, LauncherConfig, Placeholder};

fn empty_binds() -> BindTable {
    BindTable {
        global: Vec::new(),
        provider_global: Vec::new(),
        provider_item: Vec::new(),
        hints: Vec::new(),
    }
}

fn config(wrap: bool) -> LauncherConfig {
    LauncherConfig {
        selection_wrap: wrap,
        exact_search_prefix: String::from("'"),
        global_argument_delimiter: String::from("#"),
        default_theme: String::from("default"),
        providers: Vec::new(),
        placeholders: Vec::<Placeholder>::new(),
    }
}

fn item(provider: &str, actions: Vec<&str>, score: u32) -> ResultItem {
    ResultItem {
        provider: String::from(provider),
        actions: actions.into_iter().map(String::from).collect(),
        dmenu_score: score,
    }
}

fn launcher_with_items(wrap: bool, n: usize) -> Launcher {
    let mut l = Launcher::new(config(wrap), empty_binds());
    let mut items = Vec::new();
    for _ in 0..n {
        items.push(item("files", vec!["open"], 0));
    }
    l.set_items(items);
    l
}

#[test]
fn wrap_cycle_returns_to_start() {
    let mut l = launcher_with_items(true, 4);
    l.index = 1;
    for _ in 0..4 {
        l.select_next();
    }
    assert_eq!(l.index, 1);
}

#[test]
fn select_next_wraps_from_last_to_first() {
    let mut l = launcher_with_items(true, 3);
    l.index = 2;
    l.select_next();
    assert_eq!(l.index, 0);
}

#[test]
fn nowrap_stops_at_end_and_stays() {
    let mut l = launcher_with_items(false, 3);
    for _ in 0..5 {
        l.select_next();
    }
    assert_eq!(l.index, 2);
    l.select_next();
    assert_eq!(l.index, 2);
}

#[test]
fn select_previous_wraps_to_last() {
    let mut l = launcher_with_items(true, 3);
    assert_eq!(l.index, 0);
    l.select_previous();
    assert_eq!(l.index, 2);
}

#[test]
fn select_previous_nowrap_stops_at_zero() {
    let mut l = launcher_with_items(false, 3);
    l.select_previous();
    assert_eq!(l.index, 0);
}

#[test]
fn select_next_on_empty_list_is_noop() {
    let mut l = launcher_with_items(true, 0);
    l.select_next();
    assert_eq!(l.index, 0);
    l.select_previous();
    assert_eq!(l.index, 0);
}

#[test]
fn keyboard_move_suspends_pointer() {
    let mut l = launcher_with_items(true, 3);
    l.pointer_targeting = true;
    l.pointer_baseline = Some((10, 20));
    l.select_next();
    assert!(!l.pointer_targeting);
    assert!(l.pointer_baseline.is_none());
}

#[test]
fn first_motion_only_establishes_baseline() {
    let mut l = launcher_with_items(true, 3);
    l.disable_mouse();
    l.handle_motion(5, 5);
    assert!(!l.pointer_targeting);
    assert_eq!(l.pointer_baseline, Some((5, 5)));
    l.handle_motion(5, 5);
    assert!(!l.pointer_targeting);
    l.handle_motion(6, 5);
    assert!(l.pointer_targeting);
}

#[test]
fn select_index_ignores_out_of_range() {
    let mut l = launcher_with_items(true, 3);
    l.select_index(1);
    assert_eq!(l.index, 1);
    l.select_index(7);
    assert_eq!(l.index, 1);
}

#[test]
fn selected_item_follows_index() {
    let mut l = Launcher::new(config(true), empty_binds());
    l.set_items(vec![item("a", vec!["x"], 0), item("b", vec!["y"], 0)]);
    l.index = 1;
    let it = l.get_selected_item().unwrap();
    assert_eq!(it.provider, "b");
}
