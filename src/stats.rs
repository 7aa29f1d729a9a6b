use vstd::prelude::*;
use vstd::seq_lib::group_to_multiset_ensures;

use crate::providers::TokenUsage;

verus! {

/// Running token totals over many requests. Each counter saturates at
/// `usize::MAX` rather than wrapping.
#[derive(Clone, Copy, Debug, PartialEq, Eq, Structural)]
pub struct TokenStats {
    pub prompt_tokens: usize,
    pub completion_tokens: usize,
    pub total_tokens: usize,
}

pub open spec fn zero_stats() -> TokenStats {
    TokenStats { prompt_tokens: 0, completion_tokens: 0, total_tokens: 0 }
}

pub open spec fn capped(n: int) -> usize {
    if n > usize::MAX {
        usize::MAX
    } else {
        n as usize
    }
}

/// The totals after one more usage record.
pub open spec fn added(s: TokenStats, u: TokenUsage) -> TokenStats {
    TokenStats {
        prompt_tokens: capped(s.prompt_tokens + u.prompt_tokens),
        completion_tokens: capped(s.completion_tokens + u.completion_tokens),
        total_tokens: capped(s.total_tokens + u.total_tokens),
    }
}

/// The totals after the records of `us`, added in order.
pub open spec fn accumulated(s: TokenStats, us: Seq<TokenUsage>) -> TokenStats
    decreases us.len(),
{
    if us.len() == 0 {
        s
    } else {
        added(accumulated(s, us.drop_last()), us.last())
    }
}

/// The component-wise sums of the records: prompt, completion, total.
pub open spec fn sums(us: Seq<TokenUsage>) -> (int, int, int)
    decreases us.len(),
{
    if us.len() == 0 {
        (0, 0, 0)
    } else {
        let (p, c, t) = sums(us.drop_last());
        (
            p + us.last().prompt_tokens,
            c + us.last().completion_tokens,
            t + us.last().total_tokens,
        )
    }
}

impl TokenStats {
    /// All totals zero.
    pub fn new() -> (r: Self)
        ensures
            r == zero_stats(),
    {
        TokenStats { prompt_tokens: 0, completion_tokens: 0, total_tokens: 0 }
    }

    /// Adds one usage record to the totals.
    pub fn add(&mut self, usage: &TokenUsage)
        ensures
            *final(self) == added(*old(self), *usage),
    {
        self.prompt_tokens = self.prompt_tokens.saturating_add(usage.prompt_tokens);
        self.completion_tokens = self.completion_tokens.saturating_add(usage.completion_tokens);
        self.total_tokens = self.total_tokens.saturating_add(usage.total_tokens);
    }
}

proof fn lemma_sums_nonneg(us: Seq<TokenUsage>)
    ensures
        sums(us).0 >= 0,
        sums(us).1 >= 0,
        sums(us).2 >= 0,
    decreases us.len(),
{
    if us.len() > 0 {
        lemma_sums_nonneg(us.drop_last());
    }
}

/// Totals from zero are the sums, each held at `usize::MAX`.
proof fn lemma_accumulated_is_capped_sums(us: Seq<TokenUsage>)
    ensures
        accumulated(zero_stats(), us) == (TokenStats {
            prompt_tokens: capped(sums(us).0),
            completion_tokens: capped(sums(us).1),
            total_tokens: capped(sums(us).2),
        }),
    decreases us.len(),
{
    if us.len() > 0 {
        lemma_accumulated_is_capped_sums(us.drop_last());
        lemma_sums_nonneg(us.drop_last());
    }
}

proof fn lemma_sums_remove(us: Seq<TokenUsage>, j: int)
    requires
        0 <= j < us.len(),
    ensures
        sums(us).0 == sums(us.remove(j)).0 + us[j].prompt_tokens,
        sums(us).1 == sums(us.remove(j)).1 + us[j].completion_tokens,
        sums(us).2 == sums(us.remove(j)).2 + us[j].total_tokens,
    decreases us.len(),
{
    if j == us.len() - 1 {
        assert(us.remove(j) =~= us.drop_last());
    } else {
        lemma_sums_remove(us.drop_last(), j);
        assert(us.remove(j).drop_last() =~= us.drop_last().remove(j));
        assert(us.remove(j).last() == us.last());
    }
}

proof fn lemma_sums_permutation(a: Seq<TokenUsage>, b: Seq<TokenUsage>)
    requires
        a.to_multiset() == b.to_multiset(),
    ensures
        sums(a) == sums(b),
    decreases a.len(),
{
    broadcast use group_to_multiset_ensures;

    if a.len() == 0 {
        assert(a.to_multiset().len() == a.len());
        assert(b.to_multiset().len() == b.len());
        assert(b =~= Seq::<TokenUsage>::empty());
    } else {
        let x = a.last();
        let a1 = a.drop_last();
        assert(a =~= a1.push(x));
        assert(a.to_multiset() == a1.to_multiset().insert(x));
        assert(b.to_multiset().count(x) > 0);
        assert(b.contains(x));
        let j = choose|j: int| 0 <= j < b.len() && b[j] == x;
        let b1 = b.remove(j);
        assert(b1.to_multiset() =~= a1.to_multiset());
        lemma_sums_permutation(a1, b1);
        lemma_sums_remove(b, j);
    }
}

/// Requests that complete in any order leave the same totals: no increment is
/// lost, whatever the interleaving of the records.
pub proof fn lemma_totals_ignore_order(a: Seq<TokenUsage>, b: Seq<TokenUsage>)
    requires
        a.to_multiset() == b.to_multiset(),
    ensures
        accumulated(zero_stats(), a) == accumulated(zero_stats(), b),
{
    lemma_sums_permutation(a, b);
    lemma_accumulated_is_capped_sums(a);
    lemma_accumulated_is_capped_sums(b);
}

/// After a run of successful requests whose records each have total equal to
/// prompt plus completion, the totals are the component-wise sums of the
/// records, and the total is still prompt plus completion (where the sum of
/// the totals fits a `usize`).
pub proof fn lemma_totals_are_sums(us: Seq<TokenUsage>)
    requires
        forall|i: int|
            0 <= i < us.len() ==> (#[trigger] us[i]).total_tokens == us[i].prompt_tokens
                + us[i].completion_tokens,
        sums(us).2 <= usize::MAX,
    ensures
        accumulated(zero_stats(), us).prompt_tokens == sums(us).0,
        accumulated(zero_stats(), us).completion_tokens == sums(us).1,
        accumulated(zero_stats(), us).total_tokens == sums(us).2,
        accumulated(zero_stats(), us).total_tokens == accumulated(zero_stats(), us).prompt_tokens
            + accumulated(zero_stats(), us).completion_tokens,
{
    lemma_sums_split(us);
    lemma_sums_nonneg(us);
    lemma_accumulated_is_capped_sums(us);
}

proof fn lemma_sums_split(us: Seq<TokenUsage>)
    requires
        forall|i: int|
            0 <= i < us.len() ==> (#[trigger] us[i]).total_tokens == us[i].prompt_tokens
                + us[i].completion_tokens,
    ensures
        sums(us).2 == sums(us).0 + sums(us).1,
    decreases us.len(),
{
    if us.len() > 0 {
        let pre = us.drop_last();
        assert forall|i: int| 0 <= i < pre.len() implies (#[trigger] pre[i]).total_tokens
            == pre[i].prompt_tokens + pre[i].completion_tokens by {
            assert(pre[i] == us[i]);
        }
        lemma_sums_split(pre);
        assert(us[us.len() - 1] == us.last());
    }
}

} // verus!
