use what_you_shouldnt_care_about_in_2026::oracle::{self, Axis};
use what_you_shouldnt_care_about_in_2026::state::PlayerAspects;

fn profile_with(mut f: impl FnMut(&mut PlayerAspects)) -> PlayerAspects {
    let mut p = PlayerAspects::default();
    f(&mut p);
    p
}

#[test]
fn dominant_axis_resolves_each_axis() {
    assert_eq!(
        oracle::dominant_axis(&profile_with(|p| p.social_engagement = 90)).0,
        Axis::Social
    );
    assert_eq!(
        oracle::dominant_axis(&profile_with(|p| p.esoteric_attunement = 90)).0,
        Axis::Esoteric
    );
    assert_eq!(
        oracle::dominant_axis(&profile_with(|p| p.geopolitical_awareness = 90)).0,
        Axis::Geopolitical
    );
    assert_eq!(
        oracle::dominant_axis(&profile_with(|p| p.locus_of_control = 90)).0,
        Axis::Locus
    );
}

#[test]
fn classify_detects_markers() {
    let c = oracle::classify(&profile_with(|p| {
        p.baseline_anxiety = 80;
        p.contract_signed = true;
        p.constellation_name = Some("X".to_owned());
        p.keywords.push("echo".to_owned());
    }));
    assert!(c.anxiety_high);
    assert!(c.contract_signed);
    assert!(c.has_constellation);
    assert!(c.has_keywords);
}

#[test]
fn anxiety_threshold_is_strictly_above_70() {
    assert!(!oracle::classify(&profile_with(|p| p.baseline_anxiety = 70)).anxiety_high);
    assert!(oracle::classify(&profile_with(|p| p.baseline_anxiety = 71)).anxiety_high);
}

#[test]
fn neutral_profile_uses_fallback_template() {
    let verdict = oracle::generate(&PlayerAspects::default());
    assert!(verdict.contains("ORACLE VERDICT"));
    assert!(!verdict.contains("{"));
    assert!(verdict.contains("nothing"));
}

#[test]
fn every_template_is_reachable_and_placeholder_free() {
    // Cover the marker combinations that select distinct templates.
    let cases = [
        profile_with(|p| p.social_engagement = 80),
        profile_with(|p| {
            p.social_engagement = 80;
            p.baseline_anxiety = 80;
        }),
        profile_with(|p| {
            p.social_engagement = 80;
            p.contract_signed = true;
        }),
        profile_with(|p| {
            p.social_engagement = 80;
            p.constellation_name = Some("C".to_owned());
        }),
        profile_with(|p| {
            p.social_engagement = 80;
            p.keywords.push("k".to_owned());
        }),
        profile_with(|p| {
            p.social_engagement = 80;
            p.baseline_anxiety = 80;
            p.contract_signed = true;
            p.constellation_name = Some("C".to_owned());
            p.keywords.push("k".to_owned());
        }),
        profile_with(|p| p.esoteric_attunement = 80),
        profile_with(|p| {
            p.esoteric_attunement = 80;
            p.baseline_anxiety = 80;
        }),
        profile_with(|p| {
            p.esoteric_attunement = 80;
            p.contract_signed = true;
        }),
        profile_with(|p| {
            p.esoteric_attunement = 80;
            p.constellation_name = Some("C".to_owned());
        }),
        profile_with(|p| {
            p.esoteric_attunement = 80;
            p.keywords.push("k".to_owned());
        }),
        profile_with(|p| {
            p.esoteric_attunement = 80;
            p.baseline_anxiety = 80;
            p.contract_signed = true;
            p.constellation_name = Some("C".to_owned());
            p.keywords.push("k".to_owned());
        }),
        profile_with(|p| p.geopolitical_awareness = 80),
        profile_with(|p| {
            p.geopolitical_awareness = 80;
            p.baseline_anxiety = 80;
        }),
        profile_with(|p| {
            p.geopolitical_awareness = 80;
            p.contract_signed = true;
        }),
        profile_with(|p| {
            p.geopolitical_awareness = 80;
            p.constellation_name = Some("C".to_owned());
        }),
        profile_with(|p| {
            p.geopolitical_awareness = 80;
            p.keywords.push("k".to_owned());
        }),
        profile_with(|p| {
            p.geopolitical_awareness = 80;
            p.baseline_anxiety = 80;
            p.contract_signed = true;
            p.constellation_name = Some("C".to_owned());
            p.keywords.push("k".to_owned());
        }),
        profile_with(|p| p.locus_of_control = 80),
        profile_with(|p| {
            p.locus_of_control = 80;
            p.baseline_anxiety = 80;
        }),
        profile_with(|p| {
            p.locus_of_control = 80;
            p.contract_signed = true;
        }),
        profile_with(|p| {
            p.locus_of_control = 80;
            p.constellation_name = Some("C".to_owned());
        }),
        profile_with(|p| {
            p.locus_of_control = 80;
            p.keywords.push("k".to_owned());
        }),
        profile_with(|p| {
            p.locus_of_control = 80;
            p.baseline_anxiety = 80;
            p.contract_signed = true;
            p.constellation_name = Some("C".to_owned());
            p.keywords.push("k".to_owned());
        }),
        profile_with(|p| p.baseline_anxiety = 80),
        profile_with(|p| p.contract_signed = true),
        profile_with(|p| p.constellation_name = Some("C".to_owned())),
        profile_with(|p| p.keywords.push("k".to_owned())),
        profile_with(|p| {
            p.baseline_anxiety = 80;
            p.contract_signed = true;
        }),
        profile_with(|p| {
            p.social_engagement = 80;
            p.constellation_name = Some("C".to_owned());
            p.keywords.push("k".to_owned());
        }),
        profile_with(|p| {
            p.esoteric_attunement = 80;
            p.contract_signed = true;
            p.constellation_name = Some("C".to_owned());
        }),
        profile_with(|p| {
            p.geopolitical_awareness = 80;
            p.contract_signed = true;
            p.keywords.push("k".to_owned());
        }),
        profile_with(|p| {
            p.locus_of_control = 80;
            p.constellation_name = Some("C".to_owned());
            p.keywords.push("k".to_owned());
        }),
    ];

    for (i, profile) in cases.iter().enumerate() {
        let verdict = oracle::generate(profile);
        assert!(
            !verdict.contains('{'),
            "case {i} left a placeholder: {verdict}"
        );
        assert!(verdict.starts_with("ORACLE VERDICT"));
        assert!(verdict.len() > 40, "case {i} verdict too short");
    }
    assert!(cases.len() >= 30, "expected >=30 distinct profile cases");
}

#[test]
fn identical_profile_yields_identical_verdict() {
    let make = || {
        profile_with(|p| {
            p.social_engagement = 60;
            p.esoteric_attunement = 40;
            p.baseline_anxiety = 75;
            p.keywords.push("signal".to_owned());
        })
    };
    assert_eq!(oracle::generate(&make()), oracle::generate(&make()));
}

#[test]
fn extreme_profiles_do_not_panic() {
    let high = profile_with(|p| {
        p.social_engagement = 100;
        p.esoteric_attunement = 100;
        p.geopolitical_awareness = 100;
        p.locus_of_control = 100;
        p.baseline_anxiety = 100;
        p.shadow_score = 100;
        p.contract_signed = true;
        p.constellation_name = Some("Omega".to_owned());
        p.keywords.push("all".to_owned());
    });
    let verdict = oracle::generate(&high);
    assert!(!verdict.contains('{'));

    let low = profile_with(|p| {
        p.social_engagement = 0;
        p.esoteric_attunement = 0;
        p.geopolitical_awareness = 0;
        p.locus_of_control = 0;
        p.baseline_anxiety = 0;
    });
    assert!(!oracle::generate(&low).contains('{'));
}

#[test]
fn keyword_inserted_safely_without_braces() {
    let profile = profile_with(|p| p.keywords.push("broadcast".to_owned()));
    let verdict = oracle::generate(&profile);
    assert!(verdict.contains("broadcast"));
    assert!(!verdict.contains("{keyword}"));
}

#[test]
fn neutral_profile_exact_verdict() {
    let verdict = oracle::generate(&PlayerAspects::default());
    assert_eq!(
        verdict,
        "ORACLE VERDICT\n\nYour dominant aura is social (50/100). Your main concern in 2026 is other people's opinions.\n\nYour dominant aura is social. In 2026 your main concern is other people's opinions, which is efficient: you can ignore reality and still trend.\n\nYour anxiety remains within commercially acceptable limits. No shadow contract was signed, which is suspiciously responsible.\n\nRemember absolutely nothing: everything is temporary, especially your certainty."
    );
}

#[test]
fn ties_resolve_in_axis_order() {
    let p = profile_with(|p| {
        p.social_engagement = 10;
        p.esoteric_attunement = 70;
        p.geopolitical_awareness = 70;
        p.locus_of_control = 70;
    });
    assert_eq!(oracle::dominant_axis(&p), (Axis::Esoteric, 70));
    let q = profile_with(|p| {
        p.social_engagement = 0;
        p.esoteric_attunement = 0;
        p.geopolitical_awareness = 5;
        p.locus_of_control = 5;
    });
    assert_eq!(oracle::dominant_axis(&q), (Axis::Geopolitical, 5));
}

#[test]
fn unmatched_markers_fall_back_to_neutral_template() {
    // Anxiety and a keyword together match no marker template.
    let p = profile_with(|p| {
        p.locus_of_control = 90;
        p.baseline_anxiety = 90;
        p.keywords.push("static".to_owned());
    });
    let verdict = oracle::generate(&p);
    assert!(verdict.contains("Your dominant aura is locus (90/100)."));
    assert!(verdict.contains("According to our analysis, your main concern in 2026 is nothing."));
    assert!(verdict.contains("Your anxiety has requested its own broadcast channel."));
    assert!(verdict.ends_with("Remember static: everything is temporary, especially your certainty."));
}

#[test]
fn anxious_contract_template_is_used() {
    let p = profile_with(|p| {
        p.baseline_anxiety = 71;
        p.contract_signed = true;
    });
    let verdict = oracle::generate(&p);
    assert!(verdict.contains("Your anxiety is high and the contract is signed."));
    assert!(verdict.contains("The Shadow Corporation has already processed your consent."));
}

#[test]
fn constellation_fills_both_slots() {
    let p = profile_with(|p| {
        p.esoteric_attunement = 99;
        p.baseline_anxiety = 80;
        p.contract_signed = true;
        p.constellation_name = Some("Lyra".to_owned());
        p.keywords.push("echo".to_owned());
    });
    let verdict = oracle::generate(&p);
    assert!(verdict.contains(
        "your constellation 'Lyra' is sealed, and the keyword 'Lyra' is now part of the contract."
    ));
    assert!(verdict.contains("(99/100)"));
    assert!(verdict.ends_with("Remember Lyra: everything is temporary, especially your certainty."));
}

#[test]
fn axis_names_and_concerns() {
    assert_eq!(Axis::Social.name(), "social");
    assert_eq!(Axis::Esoteric.concern(), "the collapse of ordinary reality");
    assert_eq!(Axis::Geopolitical.name(), "geopolitical");
    assert_eq!(Axis::Locus.concern(), "the illusion of control");
}

#[test]
fn brace_in_marker_is_the_only_brace_in_verdict() {
    let p = profile_with(|p| p.constellation_name = Some("{odd}".to_string()));
    let verdict = oracle::generate(&p);
    assert!(verdict.contains("{odd}"));
    assert_eq!(verdict.matches('{').count(), verdict.matches("{odd}").count());
}
