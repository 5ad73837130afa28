use launcher_core::binds::BindTable;
use launcher_core::dmenu::{keep_item, filter_items, ResultItem, DMENU_SCORE_PER_QUERY_CHAR};
use launcher_core::launcher::{Launcher, LauncherConfig, Placeholder};

fn scored(score: u32) -> ResultItem {
    ResultItem { provider: String::from("dmenu"), actions: Vec::new(), dmenu_score: score }
}

fn base_config() -> LauncherConfig {
    LauncherConfig {
        selection_wrap: true,
        exact_search_prefix: String::from("'"),
        global_argument_delimiter: String::from("#"),
        default_theme: String::from("default"),
        providers: Vec::new(),
        placeholders: Vec::<Placeholder>::new(),
    }
}

fn no_binds() -> BindTable {
    BindTable {
        global: Vec::new(),
        provider_global: Vec::new(),
        provider_item: Vec::new(),
        hints: Vec::new(),
    }
}

#[test]
fn threshold_scenario_two_char_query() {
    // query "ab" (length 2), scores [30, 40, 50]: threshold 36, kept [40, 50]
    let kept = filter_items(vec![scored(30), scored(40), scored(50)], true, "ab");
    let scores: Vec<u32> = kept.iter().map(|i| i.dmenu_score).collect();
    assert_eq!(scores, vec![40, 50]);
}

#[test]
fn empty_query_keeps_everything() {
    assert!(keep_item(true, "", 0));
    assert!(keep_item(true, "", 1000));
}

#[test]
fn threshold_boundary_is_inclusive() {
    assert!(keep_item(true, "ab", 36));
    assert!(!keep_item(true, "ab", 35));
}

#[test]
fn inactive_dmenu_keeps_everything() {
    assert!(keep_item(false, "abcdef", 0));
}

#[test]
fn score_constant_is_per_character() {
    assert_eq!(DMENU_SCORE_PER_QUERY_CHAR, 18);
    assert!(keep_item(true, "a", 18));
    assert!(!keep_item(true, "a", 17));
}

#[test]
fn set_items_applies_filter_from_state() {
    let mut l = Launcher::new(base_config(), no_binds());
    l.state.is_dmenu = true;
    l.set_query(String::from("ab"));
    l.set_items(vec![scored(30), scored(40), scored(50)]);
    assert_eq!(l.items.len(), 2);
    assert_eq!(l.items[0].dmenu_score, 40);
    assert_eq!(l.index, 0);
}

#[test]
fn set_items_without_dmenu_keeps_all() {
    let mut l = Launcher::new(base_config(), no_binds());
    l.set_query(String::from("ab"));
    l.set_items(vec![scored(1), scored(2)]);
    assert_eq!(l.items.len(), 2);
}
