use wasm_calc::bonus::{dot_plan, get_contextual_bonus, head_passive, unit_rules, HeadPassive, StackSource};
use wasm_calc::stats::{get_perfect_sub, get_set_bonus, Channels, RelicStats};

fn ch(dmg: u64, spa: u64, range: u64, cm: u64, cf: u64, dot: u64) -> Channels {
    Channels { dmg, spa, range, cm, cf, dot }
}

fn channels_of(r: &RelicStats) -> Channels {
    ch(r.dmg, r.spa, r.range, r.cm, r.cf, r.dot)
}

fn tags(v: &[&str]) -> Vec<String> {
    v.iter().map(|s| s.to_string()).collect()
}

#[test]
fn perfect_sub_values() {
    assert_eq!(get_perfect_sub("dmg"), 40);
    assert_eq!(get_perfect_sub("spa"), 15);
    assert_eq!(get_perfect_sub("cm"), 45);
    assert_eq!(get_perfect_sub("cf"), 25);
    assert_eq!(get_perfect_sub("dot"), 50);
    assert_eq!(get_perfect_sub("range"), 20);
    assert_eq!(get_perfect_sub("speed"), 0);
    assert_eq!(get_perfect_sub(""), 0);
}

#[test]
fn set_bonus_table() {
    assert_eq!(channels_of(&get_set_bonus("laughing")), ch(50, 50, 0, 0, 0, 0));
    assert_eq!(channels_of(&get_set_bonus("ninja")), ch(50, 0, 0, 0, 0, 0));
    assert_eq!(channels_of(&get_set_bonus("sun_god")), ch(50, 0, 0, 0, 0, 0));
    assert_eq!(channels_of(&get_set_bonus("ex")), ch(0, 0, 0, 250, 100, 0));
    assert_eq!(channels_of(&get_set_bonus("shadow_reaper")), ch(25, 0, 100, 50, 50, 0));
    assert_eq!(channels_of(&get_set_bonus("reaper_set")), ch(0, 75, 150, 0, 0, 0));
    let unknown = get_set_bonus("mystery");
    assert_eq!(unknown.set, "mystery");
    assert_eq!(channels_of(&unknown), ch(0, 0, 0, 0, 0, 0));
}

#[test]
fn new_relic_is_empty() {
    let r = RelicStats::new("ex");
    assert_eq!(r.set, "ex");
    assert_eq!(channels_of(&r), ch(0, 0, 0, 0, 0, 0));
}

#[test]
fn add_to_named_channel_only() {
    let mut r = RelicStats::new("ex");
    r.add_to("cm", 90);
    r.add_to("range", 20);
    r.add_to("unknown", 500);
    assert_eq!(channels_of(&r), ch(0, 0, 20, 90, 0, 0));
}

#[test]
fn accessory_fixed_bonuses() {
    let none = tags(&[]);
    assert_eq!(get_contextual_bonus("ex", "reaper_necklace", "", &none), ch(0, 75, 150, 0, 0, 0));
    assert_eq!(
        get_contextual_bonus("ex", "shadow_reaper_necklace", "", &none),
        ch(25, 0, 100, 50, 50, 0)
    );
    assert_eq!(get_contextual_bonus("ex", "sun_god", "", &none), ch(0, 0, 0, 0, 0, 0));
}

#[test]
fn elemental_bonuses() {
    let none = tags(&[]);
    assert_eq!(get_contextual_bonus("ninja", "none", "Fire", &none), ch(100, 0, 0, 0, 0, 0));
    assert_eq!(get_contextual_bonus("ninja", "none", "Ice", &none), ch(0, 0, 0, 0, 0, 0));
    assert_eq!(get_contextual_bonus("sun_god", "none", "Water", &none), ch(100, 0, 0, 0, 0, 0));
    assert_eq!(get_contextual_bonus("sun_god", "none", "Dark", &none), ch(0, 0, 0, 0, 0, 0));
    assert_eq!(get_contextual_bonus("ex", "none", "Fire", &none), ch(0, 0, 0, 0, 0, 0));
}

#[test]
fn tag_bonuses() {
    let all = tags(&["Peroxide", "Reaper", "Rage", "Hollow"]);
    assert_eq!(get_contextual_bonus("shadow_reaper", "none", "", &all), ch(400, 310, 0, 125, 200, 100));
    assert_eq!(get_contextual_bonus("reaper_set", "none", "", &all), ch(225, 75, 400, 335, 100, 50));
    assert_eq!(get_contextual_bonus("shadow_reaper", "none", "", &tags(&["Rage"])), ch(150, 85, 0, 0, 0, 100));
    assert_eq!(get_contextual_bonus("ninja", "none", "", &all), ch(0, 0, 0, 0, 0, 0));
}

#[test]
fn bonuses_add_up() {
    let t = tags(&["Reaper"]);
    assert_eq!(
        get_contextual_bonus("reaper_set", "reaper_necklace", "Fire", &t),
        ch(0, 75, 300, 0, 0, 0)
    );
}

#[test]
fn accessory_passives() {
    assert_eq!(head_passive("sun_god"), HeadPassive::RangeToDamage { attacks: 6, duration: 7 });
    assert_eq!(head_passive("ninja"), HeadPassive::DotBonus { attacks: 5, duration: 10, amount: 200 });
    assert_eq!(head_passive("reaper_necklace"), HeadPassive::Nothing);
    assert_eq!(head_passive("none"), HeadPassive::Nothing);
}

#[test]
fn crit_override_unit_rules() {
    let k = unit_rules("kirito");
    assert!(k.ignores_gear_crit_chance);
    assert!(k.counts_as_dot);
    assert!(k.dot_stacking);
    assert!(k.virtual_realm);
    assert!(!k.range_priority);
    let l = unit_rules("law");
    assert!(l.range_priority);
    assert!(!l.ignores_gear_crit_chance);
    let o = unit_rules("goku");
    assert!(!o.ignores_gear_crit_chance && !o.counts_as_dot && !o.range_priority);
}

#[test]
fn no_dot_source_means_no_dot_component() {
    let p = dot_plan("goku", false, false, true, true, true, true);
    assert!(!p.active);
    assert!(dot_plan("goku", true, false, false, false, false, false).active);
    assert!(dot_plan("goku", false, true, false, false, false, false).active);
}

#[test]
fn dot_stack_sources() {
    assert_eq!(dot_plan("kirito", true, false, true, false, true, true).stacks, StackSource::HitCount);
    assert_eq!(dot_plan("kirito", true, false, true, false, true, false).stacks, StackSource::DeclaredStacks);
    assert_eq!(dot_plan("kirito", true, false, true, false, false, true).stacks, StackSource::Single);
    assert_eq!(dot_plan("kirito", true, false, false, false, true, true).stacks, StackSource::Single);
    assert_eq!(dot_plan("goku", true, false, true, false, true, true).stacks, StackSource::Single);
}

#[test]
fn dot_placement_scaling() {
    assert!(dot_plan("goku", true, false, true, false, false, false).scaled_by_placement);
    assert!(dot_plan("goku", true, false, false, true, false, false).scaled_by_placement);
    assert!(!dot_plan("goku", true, false, false, false, false, false).scaled_by_placement);
}
