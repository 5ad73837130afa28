//! Action descriptors, the after-action variants, and the tie-break that
//! picks one descriptor for an activated item.

use vstd::prelude::*;
use crate::search::{find_first, lemma_find_first_step, lemma_find_first_found};

verus! {

/// What happens to the session right after an action has executed.
/// The default when a descriptor specifies none is `Close`.
#[derive(Clone, Copy, PartialEq, Eq, Structural, Debug)]
pub enum AfterAction {
    Close,
    KeepOpen,
    ClearReload,
    Reload,
    AsyncReload,
    AsyncClearReload,
    Nothing,
}

/// An action descriptor, produced by a provider from a raw action
/// identifier; resolved binds are looked up by key and modifier mask.
pub struct Action {
    /// The action identifier, possibly carrying a `"set:"`, `"provider:"`
    /// or `"quickactivate:"` encoded form.
    pub action: String,
    /// Whether this descriptor is the flagged default among several.
    pub is_default: Option<bool>,
    /// The after-action effect this action asks for.
    pub after: Option<AfterAction>,
    /// The configured key chord, for hinting.
    pub bind: Option<String>,
    /// A human-readable label, for hinting.
    pub label: Option<String>,
}

fn clone_opt_string(o: &Option<String>) -> (r: Option<String>)
    ensures
        r == *o,
{
    match o {
        Some(s) => Some(s.clone()),
        None => None,
    }
}

impl Clone for Action {
    fn clone(&self) -> (r: Action)
        ensures
            r == *self,
    {
        Action {
            action: self.action.clone(),
            is_default: self.is_default,
            after: self.after,
            bind: clone_opt_string(&self.bind),
            label: clone_opt_string(&self.label),
        }
    }
}

impl Action {
    /// The after-action this descriptor asks for, with the `Close`
    /// default applied.
    pub open spec fn effective_after(&self) -> AfterAction {
        match self.after {
            Some(a) => a,
            None => AfterAction::Close,
        }
    }
}

/// A violation of the action-descriptor contract during activation.
#[derive(Clone, Copy, PartialEq, Eq, Structural, Debug)]
pub enum ActionError {
    /// A single-action item has no descriptor for its one identifier.
    MissingDescriptor,
    /// A multi-action item has no descriptor flagged as default.
    NoDefaultAction,
    /// A quick-activate bind whose index suffix is not a decimal index.
    InvalidQuickActivate,
}

/// The first descriptor whose identifier is `id`.
pub open spec fn find_by_id_spec(hints: Seq<Action>, id: Seq<char>) -> Option<Action> {
    find_first(hints, |a: Action| a.action@ == id)
}

/// The first descriptor flagged `is_default == Some(true)`.
pub open spec fn find_default_spec(hints: Seq<Action>) -> Option<Action> {
    find_first(hints, |a: Action| a.is_default == Some(true))
}

/// The tie-break of activation: a single-action item uses the descriptor
/// of its one identifier; an item with several uses the descriptor
/// flagged default. A miss is a contract violation, reported loudly.
pub open spec fn choose_action_spec(hints: Seq<Action>, ids: Seq<String>) -> Result<Action, ActionError> {
    if ids.len() == 1 {
        match find_by_id_spec(hints, ids[0]@) {
            Some(a) => Ok(a),
            None => Err(ActionError::MissingDescriptor),
        }
    } else {
        match find_default_spec(hints) {
            Some(a) => Ok(a),
            None => Err(ActionError::NoDefaultAction),
        }
    }
}

/// The first descriptor in `hints` whose identifier is `id`.
pub fn find_by_id(hints: &Vec<Action>, id: &str) -> (r: Option<Action>)
    ensures
        r == find_by_id_spec(hints@, id@),
{
    let ghost p = |a: Action| a.action@ == id@;
    proof {
        assert(hints@.skip(0) =~= hints@);
    }
    let mut i: usize = 0;
    while i < hints.len()
        invariant
            i <= hints@.len(),
            p == (|a: Action| a.action@ == id@),
            find_first(hints@, p) == find_first(hints@.skip(i as int), p),
        decreases hints@.len() - i,
    {
        if crate::strutil::str_eq(hints[i].action.as_str(), id) {
            proof {
                lemma_find_first_found(hints@, p, i as int);
            }
            return Some(hints[i].clone());
        }
        proof {
            lemma_find_first_step(hints@, p, i as int);
        }
        i = i + 1;
    }
    proof {
        assert(hints@.skip(i as int) =~= Seq::<Action>::empty());
    }
    None
}

/// The first descriptor in `hints` flagged as default.
pub fn find_default(hints: &Vec<Action>) -> (r: Option<Action>)
    ensures
        r == find_default_spec(hints@),
{
    let ghost p = |a: Action| a.is_default == Some(true);
    proof {
        assert(hints@.skip(0) =~= hints@);
    }
    let mut i: usize = 0;
    while i < hints.len()
        invariant
            i <= hints@.len(),
            p == (|a: Action| a.is_default == Some(true)),
            find_first(hints@, p) == find_first(hints@.skip(i as int), p),
        decreases hints@.len() - i,
    {
        let d = hints[i].is_default;
        if match d {
            Some(b) => b,
            None => false,
        } {
            proof {
                lemma_find_first_found(hints@, p, i as int);
            }
            return Some(hints[i].clone());
        }
        proof {
            lemma_find_first_step(hints@, p, i as int);
        }
        i = i + 1;
    }
    proof {
        assert(hints@.skip(i as int) =~= Seq::<Action>::empty());
    }
    None
}

/// Picks the descriptor a default activation of an item uses, by the
/// tie-break above.
pub fn choose_action(hints: &Vec<Action>, ids: &Vec<String>) -> (r: Result<Action, ActionError>)
    ensures
        r == choose_action_spec(hints@, ids@),
{
    if ids.len() == 1 {
        match find_by_id(hints, ids[0].as_str()) {
            Some(a) => Ok(a),
            None => Err(ActionError::MissingDescriptor),
        }
    } else {
        match find_default(hints) {
            Some(a) => Ok(a),
            None => Err(ActionError::NoDefaultAction),
        }
    }
}

} // verus!
