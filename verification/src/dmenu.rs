//! Result items and the dmenu score filter: a length-scaled threshold
//! predicate over provider-supplied relevance scores, active only in
//! dmenu mode with a non-empty query.

use vstd::prelude::*;
use vstd::string::StrSliceExecFns;

verus! {

/// One result row supplied by a provider.
pub struct ResultItem {
    /// The provider that produced the item.
    pub provider: String,
    /// The action identifiers the item supports, order-significant.
    pub actions: Vec<String>,
    /// A provider-defined relevance score, read only by the dmenu filter.
    pub dmenu_score: u32,
}

/// The score a provider must reach, per character of query text. A
/// tuned heuristic constant, not a computed value.
pub const DMENU_SCORE_PER_QUERY_CHAR: u32 = 18;

/// Whether an item with the given score passes the dmenu filter: kept
/// whenever dmenu mode is inactive or the query is empty, otherwise kept
/// iff the score reaches the length-scaled threshold.
pub open spec fn dmenu_keeps(dmenu_active: bool, query_len: nat, score: u32) -> bool {
    !dmenu_active || query_len == 0 || score as int >= 18 * query_len
}

/// The dmenu filter predicate. The query length is its character count.
pub fn keep_item(dmenu_active: bool, query: &str, score: u32) -> (r: bool)
    ensures
        r == dmenu_keeps(dmenu_active, query@.len(), score),
{
    if !dmenu_active {
        return true;
    }
    let l = query.unicode_len();
    if l == 0 {
        return true;
    }
    let threshold = (DMENU_SCORE_PER_QUERY_CHAR as u128) * (l as u128);
    proof {
        assert(DMENU_SCORE_PER_QUERY_CHAR == 18u32);
    }
    (score as u128) >= threshold
}

/// The subsequence of `items` passing the dmenu filter, in order.
pub open spec fn filter_items_spec(items: Seq<ResultItem>, dmenu_active: bool, query_len: nat) -> Seq<
    ResultItem,
>
    decreases items.len(),
{
    if items.len() == 0 {
        Seq::empty()
    } else {
        let rest = filter_items_spec(items.drop_last(), dmenu_active, query_len);
        if dmenu_keeps(dmenu_active, query_len, items.last().dmenu_score) {
            rest.push(items.last())
        } else {
            rest
        }
    }
}

/// Applies the dmenu filter to a result list.
pub fn filter_items(items: Vec<ResultItem>, dmenu_active: bool, query: &str) -> (r: Vec<ResultItem>)
    ensures
        r@ == filter_items_spec(items@, dmenu_active, query@.len()),
{
    let ghost orig = items@;
    let ghost qlen = query@.len();
    let mut src = items;
    let mut out: Vec<ResultItem> = Vec::new();
    let mut k: usize = 0;
    let n0 = src.len();
    proof {
        assert(orig.skip(0) =~= orig);
        assert(orig.take(0) =~= Seq::<ResultItem>::empty());
        assert(orig.len() == n0);
    }
    while src.len() > 0
        invariant
            orig.len() <= usize::MAX,
            k + src@.len() == orig.len(),
            src@ == orig.skip(k as int),
            out@ == filter_items_spec(orig.take(k as int), dmenu_active, qlen),
            qlen == query@.len(),
        decreases src@.len(),
    {
        let it = src.remove(0);
        proof {
            assert(orig.skip(k as int)[0] == orig[k as int]);
            assert(orig.skip(k as int).remove(0) =~= orig.skip(k + 1));
            assert(orig.take(k + 1).drop_last() =~= orig.take(k as int));
            assert(orig.take(k + 1).last() == orig[k as int]);
        }
        if keep_item(dmenu_active, query, it.dmenu_score) {
            out.push(it);
        }
        k = k + 1;
    }
    proof {
        assert(orig.take(orig.len() as int) =~= orig);
    }
    out
}

} // verus!
