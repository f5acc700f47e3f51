use wasm_calc::plan::{
    filter_out, has_native_dot, plan_trait, relevant_builds, result_id, scenarios, set_display_name,
    traits_to_search, Priority,
};
use wasm_calc::ranking::rank_descending;

fn strings(v: &[&str]) -> Vec<String> {
    v.iter().map(|s| s.to_string()).collect()
}

#[test]
fn filter_keeps_order() {
    assert_eq!(filter_out(&strings(&["dmg", "dot", "cf", "dot"]), "dot"), strings(&["dmg", "cf"]));
}

#[test]
fn no_traits_searched_for_sentinel_only() {
    assert!(traits_to_search(&Vec::new()).is_empty());
    assert!(traits_to_search(&strings(&["none"])).is_empty());
    assert_eq!(traits_to_search(&strings(&["none", "ruler", "none", "eternal"])), vec![1, 3]);
}

#[test]
fn native_dot_sources() {
    assert!(has_native_dot(true, "goku"));
    assert!(has_native_dot(false, "kirito"));
    assert!(!has_native_dot(false, "goku"));
}

#[test]
fn dot_free_trait_plan() {
    let p = plan_trait(
        false,
        false,
        &strings(&["dmg", "dot", "spa"]),
        &strings(&["auto", "ninja", "none"]),
        &strings(&["dmg", "dot", "cf"]),
    );
    assert_eq!(p.candidates, strings(&["dmg", "cf"]));
    assert_eq!(p.builds, vec![0, 2]);
    assert_eq!(p.heads, strings(&["auto", "none"]));
}

#[test]
fn dot_trait_plan_keeps_everything() {
    let p = plan_trait(false, true, &strings(&["dot"]), &strings(&["ninja"]), &strings(&["dot"]));
    assert_eq!(p.candidates, strings(&["dot"]));
    assert_eq!(p.builds, vec![0]);
    assert_eq!(p.heads, strings(&["ninja"]));
}

#[test]
fn builds_kept_when_dot_possible() {
    assert_eq!(relevant_builds(&strings(&["dot", "dmg"]), true), vec![0, 1]);
    assert_eq!(relevant_builds(&strings(&["dot", "dmg"]), false), vec![1]);
}

#[test]
fn scenarios_per_unit() {
    let s = scenarios("goku");
    assert_eq!(s.len(), 2);
    assert_eq!(s[0].prio, Priority::Dmg);
    assert_eq!((s[0].dmg_points, s[0].spa_points), (99, 0));
    assert_eq!(s[1].prio, Priority::Spa);
    assert_eq!((s[1].dmg_points, s[1].spa_points), (0, 99));
    assert_eq!(s[0].star_mult_hundredths, 105);
    assert!(s[0].is_sss && !s[0].is_boss && !s[0].virtual_realm);
    assert_eq!(s[0].wave, 25);
    let k = scenarios("kirito");
    assert!(k[0].virtual_realm && k[1].virtual_realm);
    let l = scenarios("law");
    assert_eq!(l.len(), 3);
    assert_eq!(l[2].prio, Priority::Range);
    assert!(l[2].by_range && !l[2].virtual_realm);
}

#[test]
fn result_identifier() {
    assert_eq!(
        result_id("law", "ruler", "Ninja (Dmg)", Priority::Range, "auto"),
        "law-ruler-Ninja (Dmg)-range-auto"
    );
    assert_eq!(Priority::Spa.key(), "spa");
}

#[test]
fn display_name_cuts_at_parenthesis() {
    assert_eq!(set_display_name("Ninja Set (Dmg body)"), "Ninja Set");
    assert_eq!(set_display_name("  Laughing  "), "Laughing");
    assert_eq!(set_display_name("(x)"), "");
}

#[test]
fn ranking_best_first_and_stable() {
    assert_eq!(rank_descending(&vec![3, 5, 5, 1]), vec![1, 2, 0, 3]);
    assert!(rank_descending(&Vec::new()).is_empty());
    let keys = vec![7, 1, 9, 9, 0, 7];
    let order = rank_descending(&keys);
    assert_eq!(order, vec![2, 3, 0, 5, 1, 4]);
    for w in order.windows(2) {
        assert!(keys[w[0]] >= keys[w[1]]);
    }
}
