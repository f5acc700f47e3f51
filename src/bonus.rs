//! Set-bonus resolution that depends on the accessory, the unit's element and
//! its tags, the accessory passives, and the per-unit rule table.

use vstd::prelude::*;
use crate::stats::Channels;
use crate::text::{contains_str, str_eq, strings_view};

verus! {

/// `c` when `b` holds, else nothing.
pub open spec fn when(b: bool, c: Channels) -> Channels {
    if b { c } else { Channels::zero() }
}

/// Fixed bonus that a worn accessory adds to the set bonus.
pub open spec fn head_bonus(head: Seq<char>) -> Channels {
    if head == "reaper_necklace"@ {
        Channels::of(0, 75, 150, 0, 0, 0)
    } else if head == "shadow_reaper_necklace"@ {
        Channels::of(25, 0, 100, 50, 50, 0)
    } else {
        Channels::zero()
    }
}

/// Whether the element qualifies for the elemental bonus of `set`.
pub open spec fn element_matches(set: Seq<char>, element: Seq<char>) -> bool {
    (set == "ninja"@ && (element == "Dark"@ || element == "Rose"@ || element == "Fire"@))
    || (set == "sun_god"@ && (element == "Ice"@ || element == "Light"@ || element == "Water"@))
}

/// Elemental bonus of a set for a unit of the given element.
pub open spec fn element_bonus(set: Seq<char>, element: Seq<char>) -> Channels {
    when(element_matches(set, element), Channels::of(100, 0, 0, 0, 0, 0))
}

/// Bonus that the set grants to units carrying the given tags.
pub open spec fn tag_bonus(set: Seq<char>, tags: Seq<Seq<char>>) -> Channels {
    if set == "shadow_reaper"@ {
        when(tags.contains("Peroxide"@), Channels::of(0, 100, 0, 0, 0, 0))
            .plus(when(tags.contains("Reaper"@), Channels::of(250, 125, 0, 0, 0, 0)))
            .plus(when(tags.contains("Rage"@), Channels::of(150, 85, 0, 0, 0, 100)))
            .plus(when(tags.contains("Hollow"@), Channels::of(0, 0, 0, 125, 200, 0)))
    } else if set == "reaper_set"@ {
        when(tags.contains("Peroxide"@), Channels::of(100, 0, 0, 85, 0, 50))
            .plus(when(tags.contains("Reaper"@), Channels::of(0, 0, 150, 0, 0, 0)))
            .plus(when(tags.contains("Rage"@), Channels::of(0, 0, 100, 250, 100, 0)))
            .plus(when(tags.contains("Hollow"@), Channels::of(125, 75, 150, 0, 0, 0)))
    } else {
        Channels::zero()
    }
}

/// Everything added to the scaled set bonus: accessory, element and tag bonuses.
pub open spec fn contextual_bonus(
    set: Seq<char>,
    head: Seq<char>,
    element: Seq<char>,
    tags: Seq<Seq<char>>,
) -> Channels {
    head_bonus(head).plus(element_bonus(set, element)).plus(tag_bonus(set, tags))
}

fn pick(b: bool, c: Channels) -> (r: Channels)
    ensures
        r == when(b, c),
{
    if b { c } else { Channels::new_zero() }
}

fn head_piece_bonus(head: &str) -> (r: Channels)
    ensures
        r == head_bonus(head@),
        r.bounded(150),
{
    if str_eq(head, "reaper_necklace") {
        Channels { dmg: 0, spa: 75, range: 150, cm: 0, cf: 0, dot: 0 }
    } else if str_eq(head, "shadow_reaper_necklace") {
        Channels { dmg: 25, spa: 0, range: 100, cm: 50, cf: 50, dot: 0 }
    } else {
        Channels::new_zero()
    }
}

fn elemental_bonus(set: &str, element: &str) -> (r: Channels)
    ensures
        r == element_bonus(set@, element@),
        r.bounded(100),
{
    let matches = (str_eq(set, "ninja") && (str_eq(element, "Dark") || str_eq(element, "Rose")
        || str_eq(element, "Fire"))) || (str_eq(set, "sun_god") && (str_eq(element, "Ice")
        || str_eq(element, "Light") || str_eq(element, "Water")));
    pick(matches, Channels { dmg: 100, spa: 0, range: 0, cm: 0, cf: 0, dot: 0 })
}

fn tagged_bonus(set: &str, tags: &Vec<String>) -> (r: Channels)
    ensures
        r == tag_bonus(set@, strings_view(tags@)),
        r.bounded(1000),
{
    let peroxide = contains_str(tags, "Peroxide");
    let reaper = contains_str(tags, "Reaper");
    let rage = contains_str(tags, "Rage");
    let hollow = contains_str(tags, "Hollow");
    if str_eq(set, "shadow_reaper") {
        let a = pick(peroxide, Channels { dmg: 0, spa: 100, range: 0, cm: 0, cf: 0, dot: 0 });
        let b = pick(reaper, Channels { dmg: 250, spa: 125, range: 0, cm: 0, cf: 0, dot: 0 });
        let c = pick(rage, Channels { dmg: 150, spa: 85, range: 0, cm: 0, cf: 0, dot: 100 });
        let d = pick(hollow, Channels { dmg: 0, spa: 0, range: 0, cm: 125, cf: 200, dot: 0 });
        a.sum(b).sum(c).sum(d)
    } else if str_eq(set, "reaper_set") {
        let a = pick(peroxide, Channels { dmg: 100, spa: 0, range: 0, cm: 85, cf: 0, dot: 50 });
        let b = pick(reaper, Channels { dmg: 0, spa: 0, range: 150, cm: 0, cf: 0, dot: 0 });
        let c = pick(rage, Channels { dmg: 0, spa: 0, range: 100, cm: 250, cf: 100, dot: 0 });
        let d = pick(hollow, Channels { dmg: 125, spa: 75, range: 150, cm: 0, cf: 0, dot: 0 });
        a.sum(b).sum(c).sum(d)
    } else {
        Channels::new_zero()
    }
}

/// The part of the set bonus that the star multiplier does not scale: the
/// accessory's fixed bonus, the elemental bonus and the tag bonuses of `set`.
pub fn get_contextual_bonus(set: &str, head: &str, element: &str, tags: &Vec<String>) -> (r:
    Channels)
    ensures
        r == contextual_bonus(set@, head@, element@, strings_view(tags@)),
{
    head_piece_bonus(head).sum(elemental_bonus(set, element)).sum(tagged_bonus(set, tags))
}

/// The passive proc of a worn accessory. Uptime is
/// `duration / (duration + attacks * interval)`.
#[derive(Clone, Copy, Debug, PartialEq, Eq, Structural)]
pub enum HeadPassive {
    /// No proc.
    Nothing,
    /// Adds the effective range, times the uptime, to the additive damage bonus.
    RangeToDamage { attacks: u64, duration: u64 },
    /// Adds `amount` tenths of a percent, times the uptime, to the dot bonus.
    DotBonus { attacks: u64, duration: u64, amount: u64 },
}

pub open spec fn head_passive_of(head: Seq<char>) -> HeadPassive {
    if head == "sun_god"@ {
        HeadPassive::RangeToDamage { attacks: 6, duration: 7 }
    } else if head == "ninja"@ {
        HeadPassive::DotBonus { attacks: 5, duration: 10, amount: 200 }
    } else {
        HeadPassive::Nothing
    }
}

/// The passive proc of the accessory `head`.
pub fn head_passive(head: &str) -> (r: HeadPassive)
    ensures
        r == head_passive_of(head@),
{
    if str_eq(head, "sun_god") {
        HeadPassive::RangeToDamage { attacks: 6, duration: 7 }
    } else if str_eq(head, "ninja") {
        HeadPassive::DotBonus { attacks: 5, duration: 10, amount: 200 }
    } else {
        HeadPassive::Nothing
    }
}

/// Rules that hold for one unit only, by its identifier.
#[derive(Clone, Copy, Debug, PartialEq, Eq, Structural)]
pub struct UnitRules {
    /// Equipment and set crit chance is ignored.
    pub ignores_gear_crit_chance: bool,
    /// The unit counts as dealing damage over time whatever its stats say.
    pub counts_as_dot: bool,
    /// Dot stacks can exceed one in the special scenario.
    pub dot_stacking: bool,
    /// Its damage and speed scenarios are played in the special scenario.
    pub virtual_realm: bool,
    /// Its builds are also searched, and ranked, by range.
    pub range_priority: bool,
}

pub open spec fn unit_rules_of(id: Seq<char>) -> UnitRules {
    let k = id == "kirito"@;
    UnitRules {
        ignores_gear_crit_chance: k,
        counts_as_dot: k,
        dot_stacking: k,
        virtual_realm: k,
        range_priority: id == "law"@,
    }
}

/// The special rules of the unit `id`; none hold for an unknown unit.
pub fn unit_rules(id: &str) -> (r: UnitRules)
    ensures
        r == unit_rules_of(id@),
{
    let k = str_eq(id, "kirito");
    UnitRules {
        ignores_gear_crit_chance: k,
        counts_as_dot: k,
        dot_stacking: k,
        virtual_realm: k,
        range_priority: str_eq(id, "law"),
    }
}

/// Where the number of concurrent dot stacks comes from.
#[derive(Clone, Copy, Debug, PartialEq, Eq, Structural)]
pub enum StackSource {
    /// One stack.
    Single,
    /// The unit's hits per attack.
    HitCount,
    /// The unit's declared dot-stack count.
    DeclaredStacks,
}

/// How the damage-over-time component of an evaluation is formed.
#[derive(Clone, Copy, Debug, PartialEq, Eq, Structural)]
pub struct DotPlan {
    /// Whether there is a dot component at all; when not, it is zero.
    pub active: bool,
    pub stacks: StackSource,
    /// Whether the dot rate is multiplied by the placement count.
    pub scaled_by_placement: bool,
}

pub open spec fn dot_plan_of(
    unit_id: Seq<char>,
    unit_has_dot: bool,
    has_radiation: bool,
    allow_dot_stack: bool,
    allow_placement_stack: bool,
    virtual_realm: bool,
    has_hit_count: bool,
) -> DotPlan {
    DotPlan {
        active: unit_has_dot || has_radiation,
        stacks: if allow_dot_stack && unit_rules_of(unit_id).dot_stacking && virtual_realm {
            if has_hit_count { StackSource::HitCount } else { StackSource::DeclaredStacks }
        } else {
            StackSource::Single
        },
        scaled_by_placement: allow_dot_stack || allow_placement_stack,
    }
}

/// How the dot component is formed for the unit `unit_id`: `unit_has_dot`
/// says whether the unit has a dot of its own, `has_hit_count` whether it
/// declares hits per attack; the other flags come from the trait and the
/// scenario.
pub fn dot_plan(
    unit_id: &str,
    unit_has_dot: bool,
    has_radiation: bool,
    allow_dot_stack: bool,
    allow_placement_stack: bool,
    virtual_realm: bool,
    has_hit_count: bool,
) -> (r: DotPlan)
    ensures
        r == dot_plan_of(
            unit_id@,
            unit_has_dot,
            has_radiation,
            allow_dot_stack,
            allow_placement_stack,
            virtual_realm,
            has_hit_count,
        ),
{
    let stacks = if allow_dot_stack && unit_rules(unit_id).dot_stacking && virtual_realm {
        if has_hit_count {
            StackSource::HitCount
        } else {
            StackSource::DeclaredStacks
        }
    } else {
        StackSource::Single
    };
    DotPlan {
        active: unit_has_dot || has_radiation,
        stacks,
        scaled_by_placement: allow_dot_stack || allow_placement_stack,
    }
}

/// Without a dot of the unit's own and without a radiation proc, an evaluation
/// has no damage-over-time component, whatever the other flags.
pub proof fn lemma_no_dot_source_no_dot(
    unit_id: Seq<char>,
    has_radiation: bool,
    allow_dot_stack: bool,
    allow_placement_stack: bool,
    virtual_realm: bool,
    has_hit_count: bool,
)
    requires
        !has_radiation,
    ensures
        !dot_plan_of(
            unit_id,
            false,
            has_radiation,
            allow_dot_stack,
            allow_placement_stack,
            virtual_realm,
            has_hit_count,
        ).active,
{
}

} // verus!
