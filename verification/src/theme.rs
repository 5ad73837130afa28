//! The theme-window registry decisions: resolving the active surface
//! key with the `"default"` fallback, and recording a per-theme startup
//! error without aborting the whole startup.

use vstd::prelude::*;
use vstd::string::StringExecFns;
use crate::search::{find_first, lemma_find_first_step, lemma_find_first_found};
use crate::state::SessionState;
use crate::strutil::str_eq;

verus! {

/// The first registered surface key equal to `name`.
pub open spec fn find_theme_spec(reg: Seq<String>, name: Seq<char>) -> Option<String> {
    find_first(reg, |t: String| t@ == name)
}

/// The surface key resolution: the current theme's key when registered,
/// the `"default"` key otherwise; `None` means no usable surface exists
/// at all, which is fatal (the host terminates with the interrupted
/// exit code after a diagnostic).
pub open spec fn resolve_active_spec(reg: Seq<String>, current: Seq<char>) -> Option<String> {
    match find_theme_spec(reg, current) {
        Some(t) => Some(t),
        None => find_theme_spec(reg, "default"@),
    }
}

fn find_theme(reg: &Vec<String>, name: &str) -> (r: Option<String>)
    ensures
        (match find_theme_spec(reg@, name@) {
            Some(t) => r matches Some(u) && u@ == t@,
            None => r is None,
        }),
{
    let ghost pred = |t: String| t@ == name@;
    proof {
        assert(reg@.skip(0) =~= reg@);
    }
    let mut i: usize = 0;
    while i < reg.len()
        invariant
            i <= reg@.len(),
            pred == (|t: String| t@ == name@),
            find_first(reg@, pred) == find_first(reg@.skip(i as int), pred),
        decreases reg@.len() - i,
    {
        if str_eq(reg[i].as_str(), name) {
            proof {
                lemma_find_first_found(reg@, pred, i as int);
            }
            return Some(reg[i].clone());
        }
        proof {
            lemma_find_first_step(reg@, pred, i as int);
        }
        i = i + 1;
    }
    proof {
        assert(reg@.skip(i as int) =~= Seq::<String>::empty());
    }
    None
}

/// Resolves the active surface key from the registered theme keys and
/// the current theme, degrading to `"default"` when the current
/// theme's surface failed to initialize.
pub fn resolve_active(registered: &Vec<String>, current: &str) -> (r: Option<String>)
    ensures
        (match resolve_active_spec(registered@, current@) {
            Some(t) => r matches Some(u) && u@ == t@,
            None => r is None,
        }),
{
    match find_theme(registered, current) {
        Some(t) => Some(t),
        None => find_theme(registered, "default"),
    }
}

/// Records a failed theme build into the session's error text, as
/// `Theme [<key>]: <error>`, so it can be surfaced once a window
/// exists; other themes are unaffected.
pub fn note_theme_error(state: &mut SessionState, key: &str, error: &str)
    ensures
        *final(state) == (SessionState { error_text: final(state).error_text, ..*old(state) }),
        final(state).error_text@ == "Theme ["@ + key@ + "]: "@ + error@,
{
    let mut s = "Theme [".to_owned();
    s.append(key);
    s.append("]: ");
    s.append(error);
    state.error_text = s;
}

} // verus!
