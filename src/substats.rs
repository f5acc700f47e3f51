//! Sub-stat rolls on one equipment slot, with the main-stat collision rule.

use vstd::prelude::*;
use crate::stats::{get_perfect_sub, on_channel, perfect_sub, Channels, RelicStats, CHANNEL_LIMIT};
use crate::text::str_eq;

verus! {

/// Most rolls that one slot can hold.
pub const MAX_ROLLS: u64 = 6;

/// Rolls given to one channel of a slot, and what they add, in tenths of a percent.
#[derive(Clone, Debug)]
pub struct SubStatAssignment {
    pub type_: String,
    pub val: u64,
}

pub type AssignModel = (Seq<char>, u64);

impl View for SubStatAssignment {
    type V = AssignModel;

    open spec fn view(&self) -> AssignModel {
        (self.type_@, self.val)
    }
}

pub open spec fn assigns_view(v: Seq<SubStatAssignment>) -> Seq<AssignModel> {
    v.map_values(|a: SubStatAssignment| a@)
}

pub open spec fn capped(n: int) -> u64 {
    if n < MAX_ROLLS { n as u64 } else { MAX_ROLLS }
}

/// Weights after the collision rule: a channel that is the slot's main stat
/// gets no rolls, and they go to the other channel, up to the cap.
pub open spec fn slot_weights(
    main: Option<Seq<char>>,
    p: Seq<char>,
    s: Seq<char>,
    rp: u64,
    rs: u64,
) -> (u64, u64) {
    match main {
        Some(ms) => if p == ms {
            (0, capped(rs + rp))
        } else if s == ms {
            (capped(rp + rs), 0)
        } else {
            (rp, rs)
        },
        None => (rp, rs),
    }
}

/// What `w` perfect rolls on `key` add, as a list of at most one assignment.
pub open spec fn rolls(key: Seq<char>, w: u64) -> Seq<AssignModel> {
    if w > 0 { seq![(key, (perfect_sub(key) * w) as u64)] } else { Seq::empty() }
}

/// The assignments recorded for one slot.
pub open spec fn slot_assignments(
    main: Option<Seq<char>>,
    p: Seq<char>,
    s: Seq<char>,
    rp: u64,
    rs: u64,
) -> Seq<AssignModel> {
    let w = slot_weights(main, p, s, rp, rs);
    rolls(p, w.0) + rolls(s, w.1)
}

/// What one slot adds to the six channels.
#[verifier::opaque]
pub open spec fn slot_channels(
    main: Option<Seq<char>>,
    p: Seq<char>,
    s: Seq<char>,
    rp: u64,
    rs: u64,
) -> Channels {
    let w = slot_weights(main, p, s, rp, rs);
    on_channel(p, (perfect_sub(p) * w.0) as u64).plus(on_channel(s, (perfect_sub(s) * w.1) as u64))
}

pub open spec fn opt_view(o: Option<&str>) -> Option<Seq<char>> {
    match o {
        Some(m) => Some(m@),
        None => None,
    }
}

fn roll_onto(
    relic_stats: &mut RelicStats,
    key: &str,
    w: u64,
    assignments: &mut Vec<SubStatAssignment>,
)
    requires
        old(relic_stats).channels().bounded(CHANNEL_LIMIT - 300),
        w <= MAX_ROLLS,
    ensures
        final(relic_stats).set == old(relic_stats).set,
        final(relic_stats).channels() == old(relic_stats).channels().plus(
            on_channel(key@, (perfect_sub(key@) * w) as u64),
        ),
        forall|n: int|
            old(relic_stats).channels().bounded(n) ==> #[trigger] final(relic_stats).channels().bounded(
                n + 300,
            ),
        assigns_view(final(assignments)@) == assigns_view(old(assignments)@) + rolls(key@, w),
{
    let ghost before = assignments@;
    let val = get_perfect_sub(key) * w;
    if w > 0 {
        relic_stats.add_to(key, val);
        assignments.push(SubStatAssignment { type_: key.to_owned(), val });
        assert(assigns_view(assignments@) =~= assigns_view(before) + rolls(key@, w));
    } else {
        assert(on_channel(key@, 0) == Channels::zero());
        assert(old(relic_stats).channels().plus(Channels::zero()) == old(relic_stats).channels());
        assert(assigns_view(assignments@) =~= assigns_view(before) + rolls(key@, w));
    }
}

/// Applies a strategy's rolls to one slot whose main stat is `main_stat`
/// (none for the accessory), adding to `relic_stats` and recording each
/// channel that gets rolls in `assignments`.
pub fn apply_contextual_stats(
    relic_stats: &mut RelicStats,
    main_stat: Option<&str>,
    p_stat: &str,
    s_stat: &str,
    ratio_p: u64,
    ratio_s: u64,
    assignments: &mut Vec<SubStatAssignment>,
)
    requires
        old(relic_stats).channels().bounded(CHANNEL_LIMIT - 600),
        ratio_p <= MAX_ROLLS,
        ratio_s <= MAX_ROLLS,
    ensures
        final(relic_stats).set == old(relic_stats).set,
        final(relic_stats).channels() == old(relic_stats).channels().plus(
            slot_channels(opt_view(main_stat), p_stat@, s_stat@, ratio_p, ratio_s),
        ),
        forall|n: int|
            old(relic_stats).channels().bounded(n) ==> #[trigger] final(relic_stats).channels().bounded(
                n + 600,
            ),
        assigns_view(final(assignments)@) == assigns_view(old(assignments)@) + slot_assignments(
            opt_view(main_stat),
            p_stat@,
            s_stat@,
            ratio_p,
            ratio_s,
        ),
{
    let mut p_weight = ratio_p;
    let mut s_weight = ratio_s;
    if let Some(ms) = main_stat {
        if str_eq(p_stat, ms) {
            s_weight = if s_weight + p_weight < MAX_ROLLS { s_weight + p_weight } else { MAX_ROLLS };
            p_weight = 0;
        } else if str_eq(s_stat, ms) {
            p_weight = if p_weight + s_weight < MAX_ROLLS { p_weight + s_weight } else { MAX_ROLLS };
            s_weight = 0;
        }
    }
    reveal(slot_channels);
    assert((p_weight, s_weight) == slot_weights(opt_view(main_stat), p_stat@, s_stat@, ratio_p, ratio_s));
    let ghost a0 = assignments@;
    roll_onto(relic_stats, p_stat, p_weight, assignments);
    assert(forall|n: int|
        old(relic_stats).channels().bounded(n) ==> #[trigger] relic_stats.channels().bounded(n + 300));
    roll_onto(relic_stats, s_stat, s_weight, assignments);
    assert forall|n: int|
        old(relic_stats).channels().bounded(n) implies #[trigger] relic_stats.channels().bounded(n + 600) by {
        assert(relic_stats.channels().bounded((n + 300) + 300));
    }
    assert(assigns_view(assignments@) =~= assigns_view(a0) + slot_assignments(
        opt_view(main_stat),
        p_stat@,
        s_stat@,
        ratio_p,
        ratio_s,
    ));
}

} // verus!
