//! The configurations that one build search evaluates, in evaluation order.

use vstd::prelude::*;
use crate::stats::{Channels, RelicStats};
use crate::strategy::{generate_strategies, strategies_for, strategies_view, Strategy, StrategyModel};
use crate::substats::{
    apply_contextual_stats, assigns_view, slot_assignments, slot_channels, AssignModel,
    SubStatAssignment,
};
use crate::text::{str_eq, strings_view};

verus! {

/// The sub-stat rolls chosen for each slot, and the accessory worn.
#[derive(Clone, Debug)]
pub struct SubStatsDesc {
    pub head: Option<Vec<SubStatAssignment>>,
    pub body: Option<Vec<SubStatAssignment>>,
    pub legs: Option<Vec<SubStatAssignment>>,
    pub selected_head: String,
}

/// One configuration to evaluate: what its sub-stats add to the build's
/// equipment, and how they were chosen.
#[derive(Clone, Debug)]
pub struct Candidate {
    pub relic_stats: RelicStats,
    pub sub_stats: SubStatsDesc,
}

pub type SlotModel = Option<Seq<AssignModel>>;

/// Channels added, accessory worn, and the head, body and leg rolls.
pub type CandidateModel = (Channels, Seq<char>, SlotModel, SlotModel, SlotModel);

pub open spec fn slot_view(o: Option<Vec<SubStatAssignment>>) -> SlotModel {
    match o {
        Some(v) => Some(assigns_view(v@)),
        None => None,
    }
}

impl Candidate {
    pub open spec fn model(&self) -> CandidateModel {
        (
            self.relic_stats.channels(),
            self.sub_stats.selected_head@,
            slot_view(self.sub_stats.head),
            slot_view(self.sub_stats.body),
            slot_view(self.sub_stats.legs),
        )
    }
}

pub open spec fn candidates_view(v: Seq<Candidate>) -> Seq<CandidateModel> {
    v.map_values(|c: Candidate| c.model())
}

/// The accessories tried for an accessory mode: the four named ones for
/// "auto", the named one itself otherwise, or none.
pub open spec fn head_options_of(mode: Seq<char>) -> Seq<Seq<char>> {
    if mode == "auto"@ {
        seq!["sun_god"@, "ninja"@, "reaper_necklace"@, "shadow_reaper_necklace"@]
    } else if mode != "none"@ {
        seq![mode]
    } else {
        seq!["none"@]
    }
}

/// The configuration with no sub-stat rolls at all.
pub open spec fn bare_candidate(h: Seq<char>) -> CandidateModel {
    (Channels::zero(), h, None, None, None)
}

/// The configuration that applies strategy `st` with accessory `h`: to the
/// accessory slot when one is worn, and to body and legs when sub-stats count.
pub open spec fn strategy_candidate(
    body: Seq<char>,
    legs: Seq<char>,
    include_subs: bool,
    h: Seq<char>,
    st: StrategyModel,
) -> CandidateModel {
    let worn = h != "none"@;
    let hc = if worn { slot_channels(None, st.0, st.1, st.2, st.3) } else { Channels::zero() };
    let bc = if include_subs { slot_channels(Some(body), st.0, st.1, st.2, st.3) } else { Channels::zero() };
    let lc = if include_subs { slot_channels(Some(legs), st.0, st.1, st.2, st.3) } else { Channels::zero() };
    (
        hc.plus(bc).plus(lc),
        h,
        if worn { Some(slot_assignments(None, st.0, st.1, st.2, st.3)) } else { None },
        if include_subs { Some(slot_assignments(Some(body), st.0, st.1, st.2, st.3)) } else { None },
        if include_subs { Some(slot_assignments(Some(legs), st.0, st.1, st.2, st.3)) } else { None },
    )
}

/// The configurations tried with accessory `h`.
pub open spec fn head_candidates(
    body: Seq<char>,
    legs: Seq<char>,
    include_subs: bool,
    h: Seq<char>,
    strats: Seq<StrategyModel>,
) -> Seq<CandidateModel> {
    if !include_subs && h == "none"@ {
        seq![bare_candidate(h)]
    } else {
        strats.map_values(|st: StrategyModel| strategy_candidate(body, legs, include_subs, h, st))
    }
}

/// The configurations tried for each accessory in turn.
pub open spec fn candidates_for(
    body: Seq<char>,
    legs: Seq<char>,
    include_subs: bool,
    heads: Seq<Seq<char>>,
    strats: Seq<StrategyModel>,
) -> Seq<CandidateModel>
    decreases heads.len(),
{
    if heads.len() == 0 {
        Seq::empty()
    } else {
        candidates_for(body, legs, include_subs, heads.drop_last(), strats) + head_candidates(
            body,
            legs,
            include_subs,
            heads.last(),
            strats,
        )
    }
}

/// Every weight of every generated strategy is within one slot's rolls.
pub proof fn lemma_strategy_weights(c: Seq<Seq<char>>)
    ensures
        forall|i: int|
            0 <= i < strategies_for(c).len() ==> (#[trigger] strategies_for(c)[i]).2 <= 6
                && strategies_for(c)[i].3 <= 6,
{
    let s = strategies_for(c);
    let p = crate::strategy::pure_strategies(c);
    assert forall|i: int| 0 <= i < s.len() implies (#[trigger] s[i]).2 <= 6 && s[i].3 <= 6 by {
        if i < p.len() {
            assert(s[i] == p[i]);
        } else {
            assert(s[i] == crate::strategy::hybrid_strategies(c)[i - p.len()]);
        }
    }
}

/// The accessories tried for the accessory mode `head_mode`.
pub fn head_options(head_mode: &str) -> (r: Vec<String>)
    ensures
        strings_view(r@) == head_options_of(head_mode@),
{
    let mut v: Vec<String> = Vec::new();
    if str_eq(head_mode, "auto") {
        v.push("sun_god".to_owned());
        v.push("ninja".to_owned());
        v.push("reaper_necklace".to_owned());
        v.push("shadow_reaper_necklace".to_owned());
    } else if !str_eq(head_mode, "none") {
        v.push(head_mode.to_owned());
    } else {
        v.push("none".to_owned());
    }
    assert(strings_view(v@) =~= head_options_of(head_mode@));
    v
}

fn bare(set: &str, head: &str) -> (r: Candidate)
    ensures
        r.model() == bare_candidate(head@),
        r.relic_stats.set@ == set@,
{
    Candidate {
        relic_stats: RelicStats::new(set),
        sub_stats: SubStatsDesc { head: None, body: None, legs: None, selected_head: head.to_owned() },
    }
}

fn with_strategy(
    set: &str,
    body_type: &str,
    leg_type: &str,
    include_subs: bool,
    head: &str,
    st: &Strategy,
) -> (r: Candidate)
    requires
        st.ratio_p <= 6,
        st.ratio_s <= 6,
    ensures
        r.model() == strategy_candidate(body_type@, leg_type@, include_subs, head@, st@),
        r.relic_stats.set@ == set@,
{
    let ghost stm = st@;
    let mut relic_stats = RelicStats::new(set);
    let worn = !str_eq(head, "none");
    let mut head_slot: Option<Vec<SubStatAssignment>> = None;
    let mut body_slot: Option<Vec<SubStatAssignment>> = None;
    let mut legs_slot: Option<Vec<SubStatAssignment>> = None;
    let ghost hc = if worn { slot_channels(None, stm.0, stm.1, stm.2, stm.3) } else { Channels::zero() };
    if worn {
        let mut assigns: Vec<SubStatAssignment> = Vec::new();
        apply_contextual_stats(&mut relic_stats, None, st.p.as_str(), st.s.as_str(), st.ratio_p,
            st.ratio_s, &mut assigns);
        assert(assigns_view(assigns@) =~= slot_assignments(None, stm.0, stm.1, stm.2, stm.3));
        head_slot = Some(assigns);
    }
    assert(relic_stats.channels() == hc);
    assert(relic_stats.channels().bounded(0int + 600));
    if include_subs {
        let mut body_assigns: Vec<SubStatAssignment> = Vec::new();
        apply_contextual_stats(&mut relic_stats, Some(body_type), st.p.as_str(), st.s.as_str(),
            st.ratio_p, st.ratio_s, &mut body_assigns);
        assert(relic_stats.channels().bounded(600int + 600));
        assert(assigns_view(body_assigns@) =~= slot_assignments(Some(body_type@), stm.0, stm.1, stm.2, stm.3));
        body_slot = Some(body_assigns);
        let mut legs_assigns: Vec<SubStatAssignment> = Vec::new();
        apply_contextual_stats(&mut relic_stats, Some(leg_type), st.p.as_str(), st.s.as_str(),
            st.ratio_p, st.ratio_s, &mut legs_assigns);
        assert(assigns_view(legs_assigns@) =~= slot_assignments(Some(leg_type@), stm.0, stm.1, stm.2, stm.3));
        legs_slot = Some(legs_assigns);
    } else {
        assert(hc.plus(Channels::zero()).plus(Channels::zero()) == hc);
    }
    Candidate {
        relic_stats,
        sub_stats: SubStatsDesc {
            head: head_slot,
            body: body_slot,
            legs: legs_slot,
            selected_head: head.to_owned(),
        },
    }
}

/// Adding the configurations of one more accessory.
proof fn lemma_candidates_step(
    body: Seq<char>,
    legs: Seq<char>,
    include_subs: bool,
    heads: Seq<Seq<char>>,
    strats: Seq<StrategyModel>,
    i: int,
)
    requires
        0 <= i < heads.len(),
    ensures
        candidates_for(body, legs, include_subs, heads.take(i + 1), strats) == candidates_for(
            body,
            legs,
            include_subs,
            heads.take(i),
            strats,
        ) + head_candidates(body, legs, include_subs, heads[i], strats),
{
    assert(heads.take(i + 1).drop_last() =~= heads.take(i));
}

/// The configurations that one build search evaluates, in order: for each
/// accessory that `head_mode` selects, the bare build when neither sub-stats
/// nor an accessory are in play, else one configuration per strategy for
/// `candidates`. Each starts from the set `set` with nothing on its channels.
pub fn sub_config_candidates(
    set: &str,
    body_type: &str,
    leg_type: &str,
    include_subs: bool,
    head_mode: &str,
    candidates: &Vec<String>,
) -> (r: Vec<Candidate>)
    ensures
        candidates_view(r@) == candidates_for(
            body_type@,
            leg_type@,
            include_subs,
            head_options_of(head_mode@),
            strategies_for(strings_view(candidates@)),
        ),
        forall|k: int| 0 <= k < r@.len() ==> (#[trigger] r@[k]).relic_stats.set@ == set@,
{
    let heads = head_options(head_mode);
    let strategies = generate_strategies(candidates);
    let ghost hs = strings_view(heads@);
    let ghost sts = strategies_view(strategies@);
    proof {
        lemma_strategy_weights(strings_view(candidates@));
    }
    let mut out: Vec<Candidate> = Vec::new();
    let mut i: usize = 0;
    while i < heads.len()
        invariant
            i <= heads.len(),
            hs == strings_view(heads@),
            sts == strategies_view(strategies@),
            sts == strategies_for(strings_view(candidates@)),
            forall|q: int| 0 <= q < sts.len() ==> (#[trigger] sts[q]).2 <= 6 && sts[q].3 <= 6,
            candidates_view(out@) == candidates_for(body_type@, leg_type@, include_subs, hs.take(i as int), sts),
            forall|k: int| 0 <= k < out@.len() ==> (#[trigger] out@[k]).relic_stats.set@ == set@,
        decreases heads.len() - i,
    {
        let head = heads[i].as_str();
        assert(head@ == hs[i as int]);
        proof {
            lemma_candidates_step(body_type@, leg_type@, include_subs, hs, sts, i as int);
        }
        let ghost done = candidates_view(out@);
        if !include_subs && str_eq(head, "none") {
            out.push(bare(set, head));
            assert(candidates_view(out@) =~= done + head_candidates(body_type@, leg_type@, include_subs, hs[i as int], sts));
        } else {
            let mut j: usize = 0;
            while j < strategies.len()
                invariant
                    i < heads.len(),
                    j <= strategies.len(),
                    head@ == hs[i as int],
                    !(!include_subs && head@ == "none"@),
                    sts == strategies_view(strategies@),
                    forall|q: int| 0 <= q < sts.len() ==> (#[trigger] sts[q]).2 <= 6 && sts[q].3 <= 6,
                    candidates_view(out@) == done + sts.take(j as int).map_values(
                        |st: StrategyModel| strategy_candidate(body_type@, leg_type@, include_subs, head@, st),
                    ),
                    forall|k: int| 0 <= k < out@.len() ==> (#[trigger] out@[k]).relic_stats.set@ == set@,
                decreases strategies.len() - j,
            {
                let ghost before = out@;
                assert(sts[j as int] == strategies@[j as int]@);
                let c = with_strategy(set, body_type, leg_type, include_subs, head, &strategies[j]);
                out.push(c);
                proof {
                    assert(out@ =~= before.push(c));
                    assert(candidates_view(out@) =~= candidates_view(before).push(c.model()));
                    assert(sts.take(j + 1) =~= sts.take(j as int).push(sts[j as int]));
                    assert(sts.take(j + 1).map_values(
                        |st: StrategyModel| strategy_candidate(body_type@, leg_type@, include_subs, head@, st),
                    ) =~= sts.take(j as int).map_values(
                        |st: StrategyModel| strategy_candidate(body_type@, leg_type@, include_subs, head@, st),
                    ).push(c.model()));
                }
                j = j + 1;
            }
            assert(sts.take(strategies.len() as int) =~= sts);
        }
        i = i + 1;
    }
    assert(hs.take(heads.len() as int) =~= hs);
    out
}

} // verus!
