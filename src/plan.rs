//! The top-level search plan: which traits, builds, accessory modes, sub-stat
//! candidates and scenarios are searched, and how results are named.

use vstd::prelude::*;
use vstd::string::StringExecFns;
use crate::bonus::{unit_rules, unit_rules_of};
use crate::text::{before_first, lemma_before_absent, split_before, str_eq, strings_view, trim_str, trimmed};

verus! {

/// `s` without the entries equal to `k`, order kept.
pub open spec fn without(s: Seq<Seq<char>>, k: Seq<char>) -> Seq<Seq<char>>
    decreases s.len(),
{
    if s.len() == 0 {
        Seq::empty()
    } else if s.last() == k {
        without(s.drop_last(), k)
    } else {
        without(s.drop_last(), k).push(s.last())
    }
}

/// The entries of `v` that differ from `drop`, in order.
pub fn filter_out(v: &Vec<String>, drop: &str) -> (r: Vec<String>)
    ensures
        strings_view(r@) == without(strings_view(v@), drop@),
{
    let ghost s = strings_view(v@);
    let mut out: Vec<String> = Vec::new();
    let mut i: usize = 0;
    while i < v.len()
        invariant
            i <= v.len(),
            s == strings_view(v@),
            strings_view(out@) == without(s.take(i as int), drop@),
        decreases v.len() - i,
    {
        let ghost before = out@;
        assert(s.take(i + 1).drop_last() =~= s.take(i as int));
        assert(s.take(i + 1).last() == v@[i as int]@);
        if !str_eq(v[i].as_str(), drop) {
            out.push(v[i].clone());
            assert(strings_view(out@) =~= strings_view(before).push(v@[i as int]@));
        }
        i = i + 1;
    }
    assert(s.take(v.len() as int) =~= s);
    out
}

/// The entries of a sequence of trait identifiers other than the "none"
/// sentinel, by position.
pub open spec fn searched_traits(ids: Seq<Seq<char>>) -> Seq<int>
    decreases ids.len(),
{
    if ids.len() == 0 {
        Seq::empty()
    } else if ids.last() == "none"@ {
        searched_traits(ids.drop_last())
    } else {
        searched_traits(ids.drop_last()).push(ids.len() - 1)
    }
}

/// A copy of a list of strings.
fn copy_strings(v: &Vec<String>) -> (r: Vec<String>)
    ensures
        strings_view(r@) == strings_view(v@),
{
    let mut out: Vec<String> = Vec::new();
    let mut i: usize = 0;
    while i < v.len()
        invariant
            i <= v.len(),
            strings_view(out@) =~= strings_view(v@).take(i as int),
        decreases v.len() - i,
    {
        let ghost before = out@;
        out.push(v[i].clone());
        assert(strings_view(out@) =~= strings_view(before).push(v@[i as int]@));
        assert(strings_view(v@).take(i + 1) =~= strings_view(v@).take(i as int).push(v@[i as int]@));
        i = i + 1;
    }
    assert(strings_view(v@).take(v.len() as int) =~= strings_view(v@));
    out
}

/// Positions of the traits to search, in order: all but the "none" sentinel.
pub fn traits_to_search(trait_ids: &Vec<String>) -> (r: Vec<usize>)
    ensures
        r@.map_values(|k: usize| k as int) == searched_traits(strings_view(trait_ids@)),
{
    let ghost s = strings_view(trait_ids@);
    let mut out: Vec<usize> = Vec::new();
    let mut i: usize = 0;
    while i < trait_ids.len()
        invariant
            i <= trait_ids.len(),
            s == strings_view(trait_ids@),
            out@.map_values(|k: usize| k as int) == searched_traits(s.take(i as int)),
        decreases trait_ids.len() - i,
    {
        let ghost before = out@;
        assert(s.take(i + 1).drop_last() =~= s.take(i as int));
        assert(s.take(i + 1).last() == trait_ids@[i as int]@);
        if !str_eq(trait_ids[i].as_str(), "none") {
            out.push(i);
            assert(out@.map_values(|k: usize| k as int) =~= before.map_values(|k: usize| k as int).push(
                i as int,
            ));
        }
        i = i + 1;
    }
    assert(s.take(trait_ids.len() as int) =~= s);
    out
}

/// With no trait but the "none" sentinel, nothing is searched.
pub proof fn lemma_only_sentinel_searches_nothing(ids: Seq<Seq<char>>)
    requires
        forall|i: int| 0 <= i < ids.len() ==> ids[i] == "none"@,
    ensures
        searched_traits(ids).len() == 0,
    decreases ids.len(),
{
    if ids.len() > 0 {
        lemma_only_sentinel_searches_nothing(ids.drop_last());
    }
}

/// Whether the unit deals damage over time of its own: its stats say so
/// (`stat_dot`), or it is a unit that always counts as doing so.
pub fn has_native_dot(stat_dot: bool, unit_id: &str) -> (r: bool)
    ensures
        r == (stat_dot || unit_rules_of(unit_id@).counts_as_dot),
{
    stat_dot || unit_rules(unit_id).counts_as_dot
}

/// What is searched for one trait.
#[derive(Clone, Debug)]
pub struct TraitPlan {
    /// Sub-stat channels the strategies draw on.
    pub candidates: Vec<String>,
    /// Positions of the build templates searched.
    pub builds: Vec<usize>,
    /// Accessory modes searched with each build.
    pub heads: Vec<String>,
}

pub open spec fn kept_builds(body_types: Seq<Seq<char>>, dot_possible: bool) -> Seq<int>
    decreases body_types.len(),
{
    if body_types.len() == 0 {
        Seq::empty()
    } else if !dot_possible && body_types.last() == "dot"@ {
        kept_builds(body_types.drop_last(), dot_possible)
    } else {
        kept_builds(body_types.drop_last(), dot_possible).push(body_types.len() - 1)
    }
}

/// Positions of the builds to search: those with a dot body are left out
/// when damage over time cannot occur.
pub fn relevant_builds(body_types: &Vec<String>, dot_possible: bool) -> (r: Vec<usize>)
    ensures
        r@.map_values(|k: usize| k as int) == kept_builds(strings_view(body_types@), dot_possible),
{
    let ghost s = strings_view(body_types@);
    let mut out: Vec<usize> = Vec::new();
    let mut i: usize = 0;
    while i < body_types.len()
        invariant
            i <= body_types.len(),
            s == strings_view(body_types@),
            out@.map_values(|k: usize| k as int) == kept_builds(s.take(i as int), dot_possible),
        decreases body_types.len() - i,
    {
        let ghost before = out@;
        assert(s.take(i + 1).drop_last() =~= s.take(i as int));
        assert(s.take(i + 1).last() == body_types@[i as int]@);
        if dot_possible || !str_eq(body_types[i].as_str(), "dot") {
            out.push(i);
            assert(out@.map_values(|k: usize| k as int) =~= before.map_values(|k: usize| k as int).push(
                i as int,
            ));
        }
        i = i + 1;
    }
    assert(s.take(body_types.len() as int) =~= s);
    out
}

/// The sub-stat channels searched for a trait: all of them when the trait adds
/// damage over time or the unit has its own, else all but "dot".
pub open spec fn trait_candidates(
    native_dot: bool,
    trait_adds_dot: bool,
    subs: Seq<Seq<char>>,
) -> Seq<Seq<char>> {
    if native_dot || trait_adds_dot { subs } else { without(subs, "dot"@) }
}

/// The accessory modes searched: the dot accessory is left out when damage
/// over time cannot occur.
pub open spec fn trait_heads(dot_possible: bool, heads: Seq<Seq<char>>) -> Seq<Seq<char>> {
    if dot_possible { heads } else { without(heads, "ninja"@) }
}

/// What is searched for a trait, given whether the unit has damage over time
/// of its own and whether the trait adds some.
pub fn plan_trait(
    native_dot: bool,
    trait_adds_dot: bool,
    body_types: &Vec<String>,
    heads: &Vec<String>,
    sub_candidates: &Vec<String>,
) -> (r: TraitPlan)
    ensures
        strings_view(r.candidates@) == trait_candidates(
            native_dot,
            trait_adds_dot,
            strings_view(sub_candidates@),
        ),
        r.builds@.map_values(|k: usize| k as int) == kept_builds(
            strings_view(body_types@),
            native_dot || trait_adds_dot,
        ),
        strings_view(r.heads@) == trait_heads(native_dot || trait_adds_dot, strings_view(heads@)),
{
    let dot_possible = native_dot || trait_adds_dot;
    let candidates = if dot_possible {
        copy_strings(sub_candidates)
    } else {
        filter_out(sub_candidates, "dot")
    };
    let kept_heads = if dot_possible {
        copy_strings(heads)
    } else {
        filter_out(heads, "ninja")
    };
    TraitPlan { candidates, builds: relevant_builds(body_types, dot_possible), heads: kept_heads }
}

/// The three ways a build is searched.
#[derive(Clone, Copy, Debug, PartialEq, Eq, Structural)]
pub enum Priority {
    Dmg,
    Spa,
    Range,
}

pub open spec fn priority_key(p: Priority) -> Seq<char> {
    match p {
        Priority::Dmg => "dmg"@,
        Priority::Spa => "spa"@,
        Priority::Range => "range"@,
    }
}

impl Priority {
    /// The priority's name in result records.
    pub fn key(&self) -> (r: String)
        ensures
            r@ == priority_key(*self),
    {
        match self {
            Priority::Dmg => "dmg".to_owned(),
            Priority::Spa => "spa".to_owned(),
            Priority::Range => "range".to_owned(),
        }
    }
}

/// The combat scenario of one search. The star multiplier is in hundredths.
#[derive(Clone, Copy, Debug, PartialEq, Eq, Structural)]
pub struct Scenario {
    pub prio: Priority,
    pub dmg_points: u64,
    pub spa_points: u64,
    pub wave: u64,
    pub is_boss: bool,
    pub is_sss: bool,
    pub virtual_realm: bool,
    pub star_mult_hundredths: u64,
    /// Whether candidates are compared by range first.
    pub by_range: bool,
}

pub open spec fn scenario_of(prio: Priority, virtual_realm: bool) -> Scenario {
    Scenario {
        prio,
        dmg_points: if prio == Priority::Spa { 0 } else { 99 },
        spa_points: if prio == Priority::Spa { 99 } else { 0 },
        wave: 25,
        is_boss: false,
        is_sss: true,
        virtual_realm,
        star_mult_hundredths: 105,
        by_range: prio == Priority::Range,
    }
}

/// The scenarios searched for a unit, in order: damage investment, speed
/// investment, and range for a range-priority unit.
pub open spec fn scenarios_of(unit_id: Seq<char>) -> Seq<Scenario> {
    let rules = unit_rules_of(unit_id);
    let both = seq![
        scenario_of(Priority::Dmg, rules.virtual_realm),
        scenario_of(Priority::Spa, rules.virtual_realm),
    ];
    if rules.range_priority {
        both.push(scenario_of(Priority::Range, false))
    } else {
        both
    }
}

/// The scenarios searched for the unit `unit_id`.
pub fn scenarios(unit_id: &str) -> (r: Vec<Scenario>)
    ensures
        r@ == scenarios_of(unit_id@),
{
    let rules = unit_rules(unit_id);
    let mut v: Vec<Scenario> = Vec::new();
    v.push(Scenario {
        prio: Priority::Dmg,
        dmg_points: 99,
        spa_points: 0,
        wave: 25,
        is_boss: false,
        is_sss: true,
        virtual_realm: rules.virtual_realm,
        star_mult_hundredths: 105,
        by_range: false,
    });
    v.push(Scenario {
        prio: Priority::Spa,
        dmg_points: 0,
        spa_points: 99,
        wave: 25,
        is_boss: false,
        is_sss: true,
        virtual_realm: rules.virtual_realm,
        star_mult_hundredths: 105,
        by_range: false,
    });
    if rules.range_priority {
        v.push(Scenario {
            prio: Priority::Range,
            dmg_points: 99,
            spa_points: 0,
            wave: 25,
            is_boss: false,
            is_sss: true,
            virtual_realm: false,
            star_mult_hundredths: 105,
            by_range: true,
        });
    }
    assert(v@ =~= scenarios_of(unit_id@));
    v
}

/// Identifier of a result: its parts joined by '-'.
pub open spec fn result_id_of(
    unit_id: Seq<char>,
    trait_id: Seq<char>,
    build_name: Seq<char>,
    prio: Priority,
    head_mode: Seq<char>,
) -> Seq<char> {
    unit_id + "-"@ + trait_id + "-"@ + build_name + "-"@ + priority_key(prio) + "-"@ + head_mode
}

/// The identifier of the result of one search.
pub fn result_id(unit_id: &str, trait_id: &str, build_name: &str, prio: Priority, head_mode: &str) -> (r:
    String)
    ensures
        r@ == result_id_of(unit_id@, trait_id@, build_name@, prio, head_mode@),
{
    let mut id = unit_id.to_owned();
    id.append("-");
    id.append(trait_id);
    id.append("-");
    id.append(build_name);
    id.append("-");
    let key = prio.key();
    id.append(key.as_str());
    id.append("-");
    id.append(head_mode);
    id
}

/// Display name of a build's set: its name up to the first '(', trimmed.
pub fn set_display_name(build_name: &str) -> (r: String)
    ensures
        r@ == trimmed(before_first(build_name@, '(')),
{
    match split_before(build_name, '(') {
        Some(stem) => trim_str(stem.as_str()),
        None => {
            proof {
                lemma_before_absent(build_name@, '(');
            }
            trim_str(build_name)
        },
    }
}

} // verus!
