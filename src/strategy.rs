//! Sub-stat allocation strategies: pure ones and weighted pairs.

use vstd::prelude::*;
use crate::text::{contains_str, strings_view};

verus! {

/// How six sub-stat rolls are split between a primary and a secondary channel.
#[derive(Clone, Debug)]
pub struct Strategy {
    pub p: String,
    pub s: String,
    pub ratio_p: u64,
    pub ratio_s: u64,
}

/// A strategy as primary key, secondary key and the two weights.
pub type StrategyModel = (Seq<char>, Seq<char>, u64, u64);

impl View for Strategy {
    type V = StrategyModel;

    open spec fn view(&self) -> StrategyModel {
        (self.p@, self.s@, self.ratio_p, self.ratio_s)
    }
}

pub open spec fn strategies_view(v: Seq<Strategy>) -> Seq<StrategyModel> {
    v.map_values(|s: Strategy| s@)
}

/// One strategy per candidate, all six rolls on it.
pub open spec fn pure_strategies(c: Seq<Seq<char>>) -> Seq<StrategyModel> {
    c.map_values(|k: Seq<char>| (k, k, 6u64, 0u64))
}

/// The four weight splits of the pair `(a, b)` when both are candidates.
pub open spec fn pair_splits(c: Seq<Seq<char>>, a: Seq<char>, b: Seq<char>) -> Seq<StrategyModel> {
    if c.contains(a) && c.contains(b) {
        seq![(a, b, 4u64, 3u64), (a, b, 3u64, 4u64), (a, b, 5u64, 2u64), (a, b, 2u64, 5u64)]
    } else {
        Seq::empty()
    }
}

/// The weighted pairs, in their fixed order.
pub open spec fn hybrid_strategies(c: Seq<Seq<char>>) -> Seq<StrategyModel> {
    pair_splits(c, "dmg"@, "cf"@) + pair_splits(c, "dmg"@, "spa"@) + pair_splits(c, "dmg"@, "range"@)
        + pair_splits(c, "dmg"@, "cm"@) + pair_splits(c, "cf"@, "cm"@) + pair_splits(
        c,
        "spa"@,
        "range"@,
    )
}

/// Every strategy tried for the candidate channels `c`.
pub open spec fn strategies_for(c: Seq<Seq<char>>) -> Seq<StrategyModel> {
    pure_strategies(c) + hybrid_strategies(c)
}

/// Whether a strategy puts weight on, or names, the channel `key`.
pub open spec fn mentions(m: StrategyModel, key: Seq<char>) -> bool {
    m.0 == key || m.1 == key
}

fn push_pair(out: &mut Vec<Strategy>, candidates: &Vec<String>, a: &str, b: &str)
    ensures
        strategies_view(final(out)@) == strategies_view(old(out)@) + pair_splits(
            strings_view(candidates@),
            a@,
            b@,
        ),
{
    let ghost start = strategies_view(out@);
    if contains_str(candidates, a) && contains_str(candidates, b) {
        out.push(Strategy { p: a.to_owned(), s: b.to_owned(), ratio_p: 4, ratio_s: 3 });
        out.push(Strategy { p: a.to_owned(), s: b.to_owned(), ratio_p: 3, ratio_s: 4 });
        out.push(Strategy { p: a.to_owned(), s: b.to_owned(), ratio_p: 5, ratio_s: 2 });
        out.push(Strategy { p: a.to_owned(), s: b.to_owned(), ratio_p: 2, ratio_s: 5 });
        assert(strategies_view(out@) =~= start + pair_splits(strings_view(candidates@), a@, b@));
    } else {
        assert(strategies_view(out@) =~= start + pair_splits(strings_view(candidates@), a@, b@));
    }
}

/// The strategies tried for the candidate channels: first one pure strategy per
/// candidate, in order, then four splits of each fixed pair whose two channels
/// are both candidates.
pub fn generate_strategies(candidates: &Vec<String>) -> (r: Vec<Strategy>)
    ensures
        strategies_view(r@) == strategies_for(strings_view(candidates@)),
        forall|key: Seq<char>|
            !strings_view(candidates@).contains(key) && !(#[trigger] hybrid_keys().contains(key))
                ==> forall|i: int| 0 <= i < r@.len() ==> !mentions(r@[i]@, key),
{
    let ghost c = strings_view(candidates@);
    let mut out: Vec<Strategy> = Vec::new();
    let mut i: usize = 0;
    while i < candidates.len()
        invariant
            i <= candidates.len(),
            c == strings_view(candidates@),
            strategies_view(out@) =~= pure_strategies(c.take(i as int)),
        decreases candidates.len() - i,
    {
        let ghost before = out@;
        let k = &candidates[i];
        out.push(Strategy { p: k.clone(), s: k.clone(), ratio_p: 6, ratio_s: 0 });
        proof {
            assert(c[i as int] == candidates@[i as int]@);
            assert(out@ =~= before.push(out@.last()));
            assert(strategies_view(out@) =~= strategies_view(before).push(out@.last()@));
            assert(c.take(i + 1) =~= c.take(i as int).push(c[i as int]));
            assert(pure_strategies(c.take(i + 1)) =~= pure_strategies(c.take(i as int)).push(
                (c[i as int], c[i as int], 6u64, 0u64),
            ));
        }
        i = i + 1;
    }
    assert(c.take(candidates.len() as int) =~= c);
    push_pair(&mut out, candidates, "dmg", "cf");
    push_pair(&mut out, candidates, "dmg", "spa");
    push_pair(&mut out, candidates, "dmg", "range");
    push_pair(&mut out, candidates, "dmg", "cm");
    push_pair(&mut out, candidates, "cf", "cm");
    push_pair(&mut out, candidates, "spa", "range");
    assert(strategies_view(out@) =~= strategies_for(c));
    proof {
        assert forall|key: Seq<char>|
            !c.contains(key) && !(#[trigger] hybrid_keys().contains(key)) implies forall|i: int|
            0 <= i < out@.len() ==> !mentions(out@[i]@, key) by {
            lemma_strategies_avoid(c, key);
            assert forall|i: int| 0 <= i < out@.len() implies !mentions(out@[i]@, key) by {
                assert(strategies_view(out@)[i] == out@[i]@);
            }
        }
    }
    out
}

/// The channels that the weighted pairs draw on.
pub open spec fn hybrid_keys() -> Seq<Seq<char>> {
    seq!["dmg"@, "cf"@, "spa"@, "range"@, "cm"@]
}

/// A channel that is no candidate and belongs to no weighted pair appears in
/// no strategy.
pub proof fn lemma_strategies_avoid(c: Seq<Seq<char>>, key: Seq<char>)
    requires
        !c.contains(key),
        !hybrid_keys().contains(key),
    ensures
        forall|i: int| 0 <= i < strategies_for(c).len() ==> !mentions(strategies_for(c)[i], key),
{
    assert(hybrid_keys()[0] == "dmg"@);
    assert(hybrid_keys()[1] == "cf"@);
    assert(hybrid_keys()[2] == "spa"@);
    assert(hybrid_keys()[3] == "range"@);
    assert(hybrid_keys()[4] == "cm"@);
    let s = strategies_for(c);
    assert forall|i: int| 0 <= i < s.len() implies !mentions(s[i], key) by {
        let p = pure_strategies(c);
        if i < p.len() {
            assert(s[i] == p[i]);
            assert(c[i] != key);
        } else {
            assert(s[i] == hybrid_strategies(c)[i - p.len()]);
        }
    }
}

/// A strategy generated from candidates without "dot" never names "dot".
pub proof fn lemma_no_dot_strategy(c: Seq<Seq<char>>)
    requires
        !c.contains("dot"@),
    ensures
        forall|i: int|
            0 <= i < strategies_for(c).len() ==> !mentions(#[trigger] strategies_for(c)[i], "dot"@),
{
    reveal_strlit("dot");
    reveal_strlit("dmg");
    reveal_strlit("cf");
    reveal_strlit("spa");
    reveal_strlit("range");
    reveal_strlit("cm");
    assert(!hybrid_keys().contains("dot"@)) by {
        assert forall|k: int| 0 <= k < hybrid_keys().len() implies hybrid_keys()[k] != "dot"@ by {
            assert(hybrid_keys()[k].len() != 3 || hybrid_keys()[k][0] != 'd' || hybrid_keys()[k][1] != 'o');
        }
    }
    lemma_strategies_avoid(c, "dot"@);
}

} // verus!
