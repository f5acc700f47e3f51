use wasm_calc::search::{head_options, sub_config_candidates};
use wasm_calc::stats::{Channels, RelicStats};
use wasm_calc::strategy::generate_strategies;
use wasm_calc::substats::{apply_contextual_stats, SubStatAssignment};

fn strings(v: &[&str]) -> Vec<String> {
    v.iter().map(|s| s.to_string()).collect()
}

fn ch(dmg: u64, spa: u64, range: u64, cm: u64, cf: u64, dot: u64) -> Channels {
    Channels { dmg, spa, range, cm, cf, dot }
}

fn channels_of(r: &RelicStats) -> Channels {
    ch(r.dmg, r.spa, r.range, r.cm, r.cf, r.dot)
}

fn pairs(v: &[SubStatAssignment]) -> Vec<(String, u64)> {
    v.iter().map(|a| (a.type_.clone(), a.val)).collect()
}

#[test]
fn pure_then_hybrid_strategies() {
    let s = generate_strategies(&strings(&["dmg", "cf"]));
    let got: Vec<(String, String, u64, u64)> =
        s.iter().map(|x| (x.p.clone(), x.s.clone(), x.ratio_p, x.ratio_s)).collect();
    let want = vec![
        ("dmg", "dmg", 6, 0),
        ("cf", "cf", 6, 0),
        ("dmg", "cf", 4, 3),
        ("dmg", "cf", 3, 4),
        ("dmg", "cf", 5, 2),
        ("dmg", "cf", 2, 5),
    ];
    let want: Vec<(String, String, u64, u64)> =
        want.into_iter().map(|(a, b, c, d)| (a.to_string(), b.to_string(), c, d)).collect();
    assert_eq!(got, want);
}

#[test]
fn all_channels_give_all_pairs() {
    let s = generate_strategies(&strings(&["dmg", "spa", "cm", "cf", "dot", "range"]));
    assert_eq!(s.len(), 6 + 6 * 4);
}

#[test]
fn no_dot_strategy_without_dot_candidate() {
    let s = generate_strategies(&strings(&["dmg", "spa", "cm", "cf", "range"]));
    assert!(!s.is_empty());
    assert!(s.iter().all(|x| x.p != "dot" && x.s != "dot"));
}

#[test]
fn no_candidates_no_strategies() {
    assert!(generate_strategies(&Vec::new()).is_empty());
}

#[test]
fn rolls_without_collision() {
    let mut r = RelicStats::new("ex");
    let mut a = Vec::new();
    apply_contextual_stats(&mut r, None, "dmg", "cf", 4, 3, &mut a);
    assert_eq!(channels_of(&r), ch(160, 0, 0, 0, 75, 0));
    assert_eq!(pairs(&a), vec![("dmg".to_string(), 160), ("cf".to_string(), 75)]);
}

#[test]
fn collision_on_primary_moves_rolls() {
    let mut r = RelicStats::new("ex");
    let mut a = Vec::new();
    apply_contextual_stats(&mut r, Some("dmg"), "dmg", "cf", 4, 3, &mut a);
    assert_eq!(channels_of(&r), ch(0, 0, 0, 0, 150, 0));
    assert_eq!(pairs(&a), vec![("cf".to_string(), 150)]);
}

#[test]
fn collision_on_secondary_moves_rolls() {
    let mut r = RelicStats::new("ex");
    let mut a = Vec::new();
    apply_contextual_stats(&mut r, Some("spa"), "dmg", "spa", 2, 5, &mut a);
    assert_eq!(channels_of(&r), ch(240, 0, 0, 0, 0, 0));
    assert_eq!(pairs(&a), vec![("dmg".to_string(), 240)]);
}

#[test]
fn pure_strategy_on_main_stat_keeps_rolls() {
    let mut r = RelicStats::new("ex");
    let mut a = Vec::new();
    apply_contextual_stats(&mut r, Some("range"), "range", "range", 6, 0, &mut a);
    assert_eq!(channels_of(&r), ch(0, 0, 120, 0, 0, 0));
    assert_eq!(pairs(&a), vec![("range".to_string(), 120)]);
}

#[test]
fn head_option_modes() {
    assert_eq!(
        head_options("auto"),
        strings(&["sun_god", "ninja", "reaper_necklace", "shadow_reaper_necklace"])
    );
    assert_eq!(head_options("ninja"), strings(&["ninja"]));
    assert_eq!(head_options("none"), strings(&["none"]));
}

#[test]
fn bare_build_when_nothing_to_roll() {
    let c = sub_config_candidates("ex", "dmg", "spa", false, "none", &strings(&["dmg", "cf"]));
    assert_eq!(c.len(), 1);
    assert_eq!(c[0].relic_stats.set, "ex");
    assert_eq!(channels_of(&c[0].relic_stats), ch(0, 0, 0, 0, 0, 0));
    assert!(c[0].sub_stats.head.is_none() && c[0].sub_stats.body.is_none());
    assert_eq!(c[0].sub_stats.selected_head, "none");
}

#[test]
fn one_candidate_per_strategy_and_accessory() {
    let c = sub_config_candidates("ninja", "dmg", "spa", true, "auto", &strings(&["dmg", "cf"]));
    assert_eq!(c.len(), 4 * 6);
    assert_eq!(c[0].sub_stats.selected_head, "sun_god");
    assert_eq!(c[23].sub_stats.selected_head, "shadow_reaper_necklace");
    // First strategy: six rolls on dmg in each of the three slots. On the body, whose
    // main stat is dmg, they move to the secondary channel, which is dmg as well.
    assert_eq!(channels_of(&c[0].relic_stats), ch(720, 0, 0, 0, 0, 0));
    assert_eq!(c[0].sub_stats.head.as_ref().map(|v| pairs(v)), Some(vec![("dmg".to_string(), 240)]));
}

#[test]
fn accessory_only_rolls_head() {
    let c = sub_config_candidates("ex", "dmg", "spa", false, "sun_god", &strings(&["cf"]));
    assert_eq!(c.len(), 1);
    assert_eq!(channels_of(&c[0].relic_stats), ch(0, 0, 0, 0, 150, 0));
    assert!(c[0].sub_stats.body.is_none());
    assert!(c[0].sub_stats.head.is_some());
}
