use dnd_character::api::classes::{Feature, LevelFeaturesQuery, LevelSpellcasting, Level, SpellcastingQuery};
use dnd_character::api::graduated::keep_highest_tiers;
use dnd_character::api::shared::ApiError;
use dnd_character::classes::{Class, ClassProperties};
use dnd_character::Character;

fn answer(names: &[&str]) -> Result<Option<LevelFeaturesQuery>, ApiError> {
    Ok(Some(LevelFeaturesQuery {
        features: Some(
            names
                .iter()
                .map(|n| Feature {
                    index: n.to_string(),
                })
                .collect(),
        ),
    }))
}

fn strings(names: &[&str]) -> Vec<String> {
    names.iter().map(|n| n.to_string()).collect()
}

fn class(index: &str) -> Class {
    Class::new(index.to_string(), ClassProperties::fresh(index))
}

#[test]
fn highest_die_survives() {
    assert_eq!(
        keep_highest_tiers(&strings(&["foo-d4", "foo-d6", "foo-d8"])),
        strings(&["foo-d8"])
    );
    assert_eq!(
        keep_highest_tiers(&strings(&["foo-d8", "bar-d4", "foo-d6", "bar-d10"])),
        strings(&["foo-d8", "bar-d10"])
    );
}

#[test]
fn dice_counts_and_speeds_keep_the_highest() {
    assert_eq!(
        keep_highest_tiers(&strings(&[
            "brutal-critical-1-dice",
            "brutal-critical-2-dice",
            "rage",
            "brutal-critical-3-dice",
            "sneak-attack-1-die",
        ])),
        strings(&["rage", "brutal-critical-3-dice", "sneak-attack-1-die"])
    );
    assert_eq!(
        keep_highest_tiers(&strings(&["unarmored-movement-2", "unarmored-movement-1"])),
        strings(&["unarmored-movement-2"])
    );
}

#[test]
fn challenge_ratings_keep_the_highest() {
    assert_eq!(
        keep_highest_tiers(&strings(&[
            "destroy-undead-cr-1-2-or-below",
            "destroy-undead-cr-1-or-below",
            "destroy-undead-cr-4-or-below",
            "destroy-undead-cr-2-or-below",
        ])),
        strings(&["destroy-undead-cr-4-or-below"])
    );
    assert_eq!(
        keep_highest_tiers(&strings(&["turn-cr-1-2-or-below", "turn-cr-1-4-or-below"])),
        strings(&["turn-cr-1-2-or-below"])
    );
}

#[test]
fn improved_divine_smite_replaces_divine_smite() {
    assert_eq!(
        keep_highest_tiers(&strings(&["divine-smite", "aura-of-courage", "improved-divine-smite"])),
        strings(&["aura-of-courage", "improved-divine-smite"])
    );
    assert_eq!(keep_highest_tiers(&strings(&["divine-smite"])), strings(&["divine-smite"]));
}

#[test]
fn listing_filters_by_classification() {
    let c = class("monk");
    let names = [
        "martial-arts",
        "ki",
        "monastic-tradition",
        "monk-ability-score-improvement-1",
        "deflect-missiles",
        "unarmored-movement-1",
        "unarmored-movement-2",
    ];
    assert_eq!(
        c.get_levels_features(true, answer(&names)).unwrap(),
        strings(&["martial-arts", "ki", "deflect-missiles", "unarmored-movement-2"])
    );
    assert_eq!(
        c.get_levels_features(false, answer(&names)).unwrap(),
        strings(&["deflect-missiles"])
    );
}

#[test]
fn listing_without_passive_appends_chosen_options() {
    let mut c = class("ranger");
    c.1.multiattack = Some("multiattack-volley".to_string());
    c.1.hunters_prey = Some("hunters-prey-colossus-slayer".to_string());
    c.1.sorcerer_metamagic = Some(strings(&["metamagic-careful-spell", "metamagic-twinned-spell"]));
    assert_eq!(
        c.get_levels_features(false, answer(&["multiattack", "vanish"])).unwrap(),
        strings(&[
            "vanish",
            "multiattack-volley",
            "hunters-prey-colossus-slayer",
            "metamagic-careful-spell",
            "metamagic-twinned-spell",
        ])
    );
    assert_eq!(
        c.get_levels_features(true, answer(&["multiattack", "vanish"])).unwrap(),
        strings(&["vanish"])
    );
}

#[test]
fn listing_reports_errors() {
    let c = class("monk");
    assert!(matches!(c.get_levels_features(true, Ok(None)), Err(ApiError::Schema)));
    assert!(matches!(
        c.get_levels_features(true, Err(ApiError::Transport("down".to_string()))),
        Err(ApiError::Transport(_))
    ));
}

#[test]
fn character_features_concatenate_classes() {
    let mut c = Character::new(
        "bard".to_string(),
        "a".to_string(),
        16,
        "human".to_string(),
        "human".to_string(),
        "chaotic-neutral".to_string(),
        "bard".to_string(),
        "".to_string(),
        "".to_string(),
    );
    c.classes.0.push(class("monk"));
    let features = c
        .get_features(
            true,
            vec![
                answer(&["song-of-rest-d6", "song-of-rest-d8", "bard-college"]),
                answer(&["druidic", "ki"]),
            ],
        )
        .unwrap();
    assert_eq!(features, strings(&["song-of-rest-d8", "druidic", "ki"]));
    assert!(!c
        .get_features(false, vec![answer(&["song-of-rest-d6"]), answer(&["druidic"])])
        .unwrap()
        .contains(&"druidic".to_string()));
    assert!(matches!(
        c.get_features(true, vec![answer(&["ki"]), Ok(None)]),
        Err(ApiError::Schema)
    ));
}

#[test]
fn character_spell_slots_by_class() {
    let c = Character::new(
        "bard".to_string(),
        "a".to_string(),
        16,
        "human".to_string(),
        "human".to_string(),
        "chaotic-neutral".to_string(),
        "bard".to_string(),
        "".to_string(),
        "".to_string(),
    );
    let counts = LevelSpellcasting {
        cantrips_known: Some(2),
        spell_slots_level_1: Some(2),
        spell_slots_level_2: None,
        spell_slots_level_3: None,
        spell_slots_level_4: None,
        spell_slots_level_5: None,
        spell_slots_level_6: None,
        spell_slots_level_7: None,
        spell_slots_level_8: None,
        spell_slots_level_9: None,
    };
    let slots = c
        .get_spellcasting_slots(vec![Ok(Some(SpellcastingQuery {
            level: Some(Level {
                spellcasting: Some(counts),
            }),
        }))])
        .unwrap();
    assert_eq!(slots, vec![("bard".to_string(), counts)]);
    let none = c
        .get_spellcasting_slots(vec![Ok(Some(SpellcastingQuery {
            level: Some(Level { spellcasting: None }),
        }))])
        .unwrap();
    assert!(none.is_empty());
    assert!(matches!(
        c.get_spellcasting_slots(vec![Ok(Some(SpellcastingQuery { level: None }))]),
        Err(ApiError::Schema)
    ));
}

#[test]
fn class_listing_keeps_only_the_highest_die() {
    let c = class("bard");
    assert_eq!(
        c.get_levels_features(true, answer(&["foo-d4", "foo-d6", "foo-d8"])).unwrap(),
        strings(&["foo-d8"])
    );
    assert_eq!(
        c.get_levels_features(false, answer(&["foo-d4", "foo-d6", "foo-d8"])).unwrap(),
        strings(&["foo-d8"])
    );
}

#[test]
fn get_level_features() {
    let cleric = Character::new(
        "cleric".to_string(),
        "a".to_string(),
        16,
        "human".to_string(),
        "human".to_string(),
        "chaotic-neutral".to_string(),
        "bard".to_string(),
        "".to_string(),
        "".to_string(),
    );
    let features = cleric
        .get_features(
            true,
            vec![answer(&[
                "spellcasting-cleric",
                "divine-domain",
                "channel-divinity-1-rest",
                "turn-undead",
                "destroy-undead-cr-1-2-or-below",
                "destroy-undead-cr-1-or-below",
                "destroy-undead-cr-2-or-below",
                "destroy-undead-cr-3-or-below",
                "destroy-undead-cr-4-or-below",
                "divine-intervention",
            ])],
        )
        .expect("Error in API Request");
    assert_eq!(
        features
            .iter()
            .filter(|feature| feature.starts_with("destroy-undead-cr-"))
            .count(),
        1
    );
    assert!(features.contains(&"destroy-undead-cr-4-or-below".to_string()));

    let bard = Character::new(
        "bard".to_string(),
        "a".to_string(),
        16,
        "human".to_string(),
        "human".to_string(),
        "chaotic-neutral".to_string(),
        "bard".to_string(),
        "".to_string(),
        "".to_string(),
    );
    let bard_features = [
        "bardic-inspiration-d6",
        "song-of-rest-d6",
        "jack-of-all-trades",
        "bardic-inspiration-d8",
        "song-of-rest-d8",
        "song-of-rest-d10",
        "bardic-inspiration-d10",
        "song-of-rest-d12",
        "bardic-inspiration-d12",
        "druidic",
    ];
    let features = bard
        .get_features(true, vec![answer(&bard_features)])
        .expect("Error in API Request");
    assert_eq!(
        features
            .iter()
            .filter(|feature| feature.starts_with("song-of-rest-"))
            .count(),
        1
    );
    let features = bard
        .get_features(false, vec![answer(&bard_features)])
        .expect("Error in API Request");
    assert!(!features.contains(&"druidic".to_string()));
}
