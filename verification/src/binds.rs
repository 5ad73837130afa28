//! The configuration-derived bind tables and their pure lookups: global
//! binds, provider-global binds, item-scoped provider binds, and the
//! provider hint table that maps action identifiers to descriptors.

use vstd::prelude::*;
use crate::actions::Action;
use crate::search::{find_first, lemma_find_first_step, lemma_find_first_found};
use crate::strutil::{str_eq, seq_has_str, vec_has_str};

verus! {

/// A global bind: one key chord mapped to one action descriptor.
pub struct Bind {
    pub key: u32,
    pub mods: u32,
    pub action: Action,
}

/// A provider-scoped bind.
pub struct ProviderBind {
    pub provider: String,
    pub key: u32,
    pub mods: u32,
    pub action: Action,
}

/// A hint-table entry: one descriptor a provider produces for one of its
/// action identifiers.
pub struct Hint {
    pub provider: String,
    pub action: Action,
}

/// All configuration-derived lookup tables consulted during resolution.
pub struct BindTable {
    pub global: Vec<Bind>,
    pub provider_global: Vec<ProviderBind>,
    pub provider_item: Vec<ProviderBind>,
    pub hints: Vec<Hint>,
}

/// The first global bind for the chord, if any.
pub open spec fn get_bind_spec(t: Seq<Bind>, key: u32, mods: u32) -> Option<Action> {
    match find_first(t, |b: Bind| b.key == key && b.mods == mods) {
        Some(b) => Some(b.action),
        None => None,
    }
}

/// The first bind registered globally for a provider, independent of the
/// selected item.
pub open spec fn provider_global_bind_spec(
    t: Seq<ProviderBind>,
    provider: Seq<char>,
    key: u32,
    mods: u32,
) -> Option<Action> {
    match find_first(t, |b: ProviderBind| b.provider@ == provider && b.key == key && b.mods == mods) {
        Some(b) => Some(b.action),
        None => None,
    }
}

/// The first bind scoped to a provider and restricted to the action
/// identifiers an item declares.
pub open spec fn provider_bind_spec(
    t: Seq<ProviderBind>,
    provider: Seq<char>,
    key: u32,
    mods: u32,
    allowed: Seq<String>,
) -> Option<Action> {
    match find_first(
        t,
        |b: ProviderBind|
            b.provider@ == provider && b.key == key && b.mods == mods && seq_has_str(
                allowed,
                b.action.action@,
            ),
    ) {
        Some(b) => Some(b.action),
        None => None,
    }
}

/// The descriptors a provider supplies for the given action identifiers,
/// in table order.
pub open spec fn hints_for_spec(hints: Seq<Hint>, provider: Seq<char>, ids: Seq<String>) -> Seq<Action>
    decreases hints.len(),
{
    if hints.len() == 0 {
        Seq::empty()
    } else {
        let rest = hints_for_spec(hints.drop_last(), provider, ids);
        if hints.last().provider@ == provider && seq_has_str(ids, hints.last().action.action@) {
            rest.push(hints.last().action)
        } else {
            rest
        }
    }
}

impl BindTable {
    /// Looks up a global bind by key and modifier mask; a pure lookup
    /// with no side effects.
    pub fn get_bind(&self, key: u32, mods: u32) -> (r: Option<Action>)
        ensures
            r == get_bind_spec(self.global@, key, mods),
    {
        let ghost p = |b: Bind| b.key == key && b.mods == mods;
        proof {
            assert(self.global@.skip(0) =~= self.global@);
        }
        let mut i: usize = 0;
        while i < self.global.len()
            invariant
                i <= self.global@.len(),
                p == (|b: Bind| b.key == key && b.mods == mods),
                find_first(self.global@, p) == find_first(self.global@.skip(i as int), p),
            decreases self.global@.len() - i,
        {
            if self.global[i].key == key && self.global[i].mods == mods {
                proof {
                    lemma_find_first_found(self.global@, p, i as int);
                }
                return Some(self.global[i].action.clone());
            }
            proof {
                lemma_find_first_step(self.global@, p, i as int);
            }
            i = i + 1;
        }
        proof {
            assert(self.global@.skip(i as int) =~= Seq::<Bind>::empty());
        }
        None
    }

    /// Looks up a provider-global bind; a pure lookup with no side
    /// effects.
    pub fn get_provider_global_bind(&self, provider: &str, key: u32, mods: u32) -> (r: Option<
        Action,
    >)
        ensures
            r == provider_global_bind_spec(self.provider_global@, provider@, key, mods),
    {
        let ghost p = |b: ProviderBind| b.provider@ == provider@ && b.key == key && b.mods == mods;
        proof {
            assert(self.provider_global@.skip(0) =~= self.provider_global@);
        }
        let mut i: usize = 0;
        while i < self.provider_global.len()
            invariant
                i <= self.provider_global@.len(),
                p == (|b: ProviderBind| b.provider@ == provider@ && b.key == key && b.mods == mods),
                find_first(self.provider_global@, p) == find_first(
                    self.provider_global@.skip(i as int),
                    p,
                ),
            decreases self.provider_global@.len() - i,
        {
            let b = &self.provider_global[i];
            if b.key == key && b.mods == mods && str_eq(b.provider.as_str(), provider) {
                proof {
                    lemma_find_first_found(self.provider_global@, p, i as int);
                }
                return Some(self.provider_global[i].action.clone());
            }
            proof {
                lemma_find_first_step(self.provider_global@, p, i as int);
            }
            i = i + 1;
        }
        proof {
            assert(self.provider_global@.skip(i as int) =~= Seq::<ProviderBind>::empty());
        }
        None
    }

    /// Looks up an item-scoped provider bind, restricted to the action
    /// identifiers the item declares; a pure lookup with no side effects.
    pub fn get_provider_bind(&self, provider: &str, key: u32, mods: u32, allowed: &Vec<String>) -> (r:
        Option<Action>)
        ensures
            r == provider_bind_spec(self.provider_item@, provider@, key, mods, allowed@),
    {
        let ghost p = |b: ProviderBind|
            b.provider@ == provider@ && b.key == key && b.mods == mods && seq_has_str(
                allowed@,
                b.action.action@,
            );
        proof {
            assert(self.provider_item@.skip(0) =~= self.provider_item@);
        }
        let mut i: usize = 0;
        while i < self.provider_item.len()
            invariant
                i <= self.provider_item@.len(),
                p == (|b: ProviderBind|
                    b.provider@ == provider@ && b.key == key && b.mods == mods && seq_has_str(
                        allowed@,
                        b.action.action@,
                    )),
                find_first(self.provider_item@, p) == find_first(
                    self.provider_item@.skip(i as int),
                    p,
                ),
            decreases self.provider_item@.len() - i,
        {
            let b = &self.provider_item[i];
            if b.key == key && b.mods == mods && str_eq(b.provider.as_str(), provider)
                && vec_has_str(allowed, b.action.action.as_str()) {
                proof {
                    lemma_find_first_found(self.provider_item@, p, i as int);
                }
                return Some(self.provider_item[i].action.clone());
            }
            proof {
                lemma_find_first_step(self.provider_item@, p, i as int);
            }
            i = i + 1;
        }
        proof {
            assert(self.provider_item@.skip(i as int) =~= Seq::<ProviderBind>::empty());
        }
        None
    }

    /// The descriptors the hint table supplies for a provider and a set
    /// of action identifiers, in table order.
    pub fn get_keybind_hint(&self, provider: &str, ids: &Vec<String>) -> (r: Vec<Action>)
        ensures
            r@ == hints_for_spec(self.hints@, provider@, ids@),
    {
        let mut out: Vec<Action> = Vec::new();
        let mut i: usize = 0;
        while i < self.hints.len()
            invariant
                i <= self.hints@.len(),
                out@ == hints_for_spec(self.hints@.take(i as int), provider@, ids@),
            decreases self.hints@.len() - i,
        {
            let h = &self.hints[i];
            proof {
                assert(self.hints@.take(i + 1).drop_last() =~= self.hints@.take(i as int));
                assert(self.hints@.take(i + 1).last() == self.hints@[i as int]);
            }
            if str_eq(h.provider.as_str(), provider) && vec_has_str(ids, h.action.action.as_str()) {
                out.push(self.hints[i].action.clone());
            }
            i = i + 1;
        }
        proof {
            assert(self.hints@.take(self.hints@.len() as int) =~= self.hints@);
        }
        out
    }
}

} // verus!
