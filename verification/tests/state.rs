use rand::RngCore;
use what_you_shouldnt_care_about_in_2026::state::{GameState, PlayerAspects};

#[test]
fn default_state_uses_default_seed() {
    let state = GameState::default();
    assert_eq!(
        state.seed,
        what_you_shouldnt_care_about_in_2026::state::DEFAULT_SEED
    );
}

#[test]
fn with_seed_stores_seed_and_rng_is_reproducible() {
    let a = GameState::with_seed(42);
    let b = GameState::with_seed(42);
    let c = GameState::with_seed(7);

    let mut ra = a.rng();
    let a1 = ra.next_u32();
    let a2 = ra.next_u32();
    let mut rb = b.rng();
    let b1 = rb.next_u32();
    let mut rc = c.rng();
    let c1 = rc.next_u32();

    assert_eq!(a1, b1, "same seed must yield same first draw");
    assert_ne!(a1, c1, "different seed must yield different draw");
    assert_ne!(a1, a2, "sequential draws differ");
}

#[test]
fn profile_updates_are_clamped_to_zero_and_one_hundred() {
    let mut profile = PlayerAspects::default();
    profile.adjust_anxiety(200);
    assert_eq!(profile.baseline_anxiety, 100);

    profile.adjust_anxiety(-300);
    assert_eq!(profile.baseline_anxiety, 0);
}

#[test]
fn keywords_are_unique_and_empty_keywords_are_ignored() {
    let mut profile = PlayerAspects::default();
    profile.add_keyword("");
    profile.add_keyword("static");
    profile.add_keyword("static");

    assert_eq!(profile.keywords, vec!["static"]);
}

#[test]
fn every_adjustment_clamps_exactly() {
    let mut p = PlayerAspects::default();
    p.adjust_social(-7);
    p.adjust_esoteric(i32::MAX);
    p.adjust_geopolitical(i32::MIN);
    p.adjust_locus(25);
    p.adjust_shadow(101);
    assert_eq!(p.social_engagement, 43);
    assert_eq!(p.esoteric_attunement, 100);
    assert_eq!(p.geopolitical_awareness, 0);
    assert_eq!(p.locus_of_control, 75);
    assert_eq!(p.shadow_score, 100);
    // An out-of-range value set directly is brought back by any adjustment.
    p.baseline_anxiety = 500;
    p.adjust_anxiety(0);
    assert_eq!(p.baseline_anxiety, 100);
}

#[test]
fn default_profile_values() {
    let p = PlayerAspects::default();
    assert_eq!(p.social_engagement, 50);
    assert_eq!(p.esoteric_attunement, 50);
    assert_eq!(p.geopolitical_awareness, 50);
    assert_eq!(p.locus_of_control, 50);
    assert_eq!(p.baseline_anxiety, 20);
    assert_eq!(p.shadow_score, 0);
    assert!(!p.contract_signed);
    assert_eq!(p.constellation_name, None);
    assert!(p.keywords.is_empty());
}

#[test]
fn keywords_keep_catch_order() {
    let mut p = PlayerAspects::default();
    p.add_keyword("b");
    p.add_keyword("a");
    p.add_keyword("b");
    assert_eq!(p.keywords, vec!["b", "a"]);
}

#[test]
fn completed_ids_are_listed_in_string_order() {
    let mut state = GameState::default();
    state.complete_segment("radio");
    state.complete_segment("mirror");
    state.complete_segment("elevator");
    state.complete_segment("mirror");
    let ids = state.completed_set();
    assert_eq!(
        ids,
        &vec!["elevator".to_owned(), "mirror".to_owned(), "radio".to_owned()]
    );
}
