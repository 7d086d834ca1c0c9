use dnd_character::abilities::AbilityScore;
use dnd_character::api::classes::{
    ChoosableCustomLevelFeature, ChoosableCustomLevelFeatureOption, Feature, LevelFeaturesQuery,
    LevelFilter, LevelSpellcasting,
};
use dnd_character::api::shared::ApiError;
use dnd_character::classes::{Class, ClassProperties, ClassSpellCasting, UsableSlots};

fn answer(names: &[&str]) -> Result<Option<LevelFeaturesQuery>, ApiError> {
    Ok(Some(LevelFeaturesQuery {
        features: Some(
            names
                .iter()
                .map(|n| Feature {
                    index: n.to_string(),
                })
                .collect(),
        ),
    }))
}

fn class(index: &str) -> Class {
    Class::new(index.to_string(), ClassProperties::fresh(index))
}

#[test]
fn level_up_query_covers_the_levels_above() {
    let c = class("barbarian");
    let q = c.level_up_query(4);
    assert_eq!(q.class.unwrap().0, "barbarian");
    assert_eq!(
        q.level,
        Some(LevelFilter {
            gt: Some(1),
            gte: None,
            lte: Some(4)
        })
    );
    let q = c.levels_features_query(None);
    assert_eq!(
        q.level,
        Some(LevelFilter {
            gt: None,
            gte: Some(0),
            lte: Some(1)
        })
    );
}

#[test]
fn set_level_returns_choices_in_order() {
    let mut c = class("ranger");
    let pending = c
        .set_level(
            3,
            answer(&[
                "favored-enemy-1-type",
                "ranger-fighting-style",
                "spellcasting-ranger",
                "primeval-awareness",
                "rage",
                "natural-explorer-1-terrain-type",
            ]),
        )
        .unwrap();
    assert_eq!(
        pending,
        vec![
            ChoosableCustomLevelFeature::RangerFavoredEnemyType,
            ChoosableCustomLevelFeature::RangerFightingStyle,
            ChoosableCustomLevelFeature::RangerTerrainType,
        ]
    );
    assert_eq!(c.1.level, 3);
}

#[test]
fn primal_champion_raises_strength_and_constitution() {
    let mut c = class("barbarian");
    c.1.level = 19;
    let pending = c.set_level(20, answer(&["primal-champion"])).unwrap();
    assert!(pending.is_empty());
    assert_eq!(c.1.abilities_modifiers.strength, AbilityScore::new(4, false));
    assert_eq!(c.1.abilities_modifiers.constitution, AbilityScore::new(4, false));
    assert_eq!(c.1.abilities_modifiers.dexterity, AbilityScore::new(0, false));
    assert_eq!(c.1.level, 20);
}

#[test]
fn progression_to_level_twenty_asks_for_improvements() {
    let barbarian: [&[&str]; 21] = [
        &[],
        &["rage", "barbarian-unarmored-defense"],
        &["reckless-attack", "danger-sense"],
        &["primal-path", "path-of-the-berserker-frenzy"],
        &["barbarian-ability-score-improvement-1"],
        &["barbarian-extra-attack", "fast-movement"],
        &["path-of-the-berserker-mindless-rage"],
        &["feral-instinct"],
        &["barbarian-ability-score-improvement-2"],
        &["brutal-critical-1-dice"],
        &["path-of-the-berserker-intimidating-presence"],
        &["relentless-rage"],
        &["barbarian-ability-score-improvement-3"],
        &["brutal-critical-2-dice"],
        &["path-of-the-berserker-retaliation"],
        &["persistent-rage"],
        &["barbarian-ability-score-improvement-4"],
        &["brutal-critical-3-dice"],
        &["indomitable-might"],
        &["barbarian-ability-score-improvement-5"],
        &["primal-champion"],
    ];
    let mut c = class("barbarian");
    for level in 2..=20u8 {
        let pending = c.set_level(level, answer(barbarian[level as usize])).unwrap();
        if [4u8, 8, 12, 16, 19].contains(&level) {
            assert_eq!(pending, vec![ChoosableCustomLevelFeature::AbilityScoreImprovement]);
        } else {
            assert!(pending.is_empty(), "unexpected choice at level {}", level);
        }
        assert_eq!(c.1.level, level);
    }
    assert_eq!(c.1.abilities_modifiers.strength.score, 4);
}

#[test]
fn set_level_leaves_the_class_unchanged_on_error() {
    let mut c = class("barbarian");
    let r = c.set_level(5, Err(ApiError::Transport("connection refused".to_string())));
    assert!(matches!(r, Err(ApiError::Transport(ref m)) if m == "connection refused"));
    assert_eq!(c.1.level, 1);
    let r = c.set_level(5, Ok(None));
    assert!(matches!(r, Err(ApiError::Schema)));
    assert_eq!(c.1.level, 1);
    let r = c.set_level(5, Ok(Some(LevelFeaturesQuery { features: None })));
    assert!(matches!(r, Err(ApiError::Schema)));
    assert_eq!(c.1.level, 1);
}

#[test]
fn ability_increase_raises_only_its_ability() {
    let mut c = class("fighter");
    c.apply_option(ChoosableCustomLevelFeatureOption::WisdomPlusOne);
    assert_eq!(c.1.abilities_modifiers.wisdom.score, 1);
    assert_eq!(c.1.abilities_modifiers.strength.score, 0);
    assert_eq!(c.1.abilities_modifiers.charisma.score, 0);
    c.apply_option(ChoosableCustomLevelFeatureOption::WisdomPlusOne);
    assert_eq!(c.1.abilities_modifiers.wisdom.score, 2);
    assert_eq!(c.1.abilities_modifiers.dexterity.score, 0);
}

#[test]
fn fighting_styles_fill_the_first_slot_then_the_second() {
    let mut c = class("fighter");
    c.apply_option(ChoosableCustomLevelFeatureOption::FighterFightingStyleArchery);
    assert_eq!(c.1.fighting_style.as_deref(), Some("fighter-fighting-style-archery"));
    assert_eq!(c.1.additional_fighting_style, None);
    c.apply_option(ChoosableCustomLevelFeatureOption::FighterFightingStyleDefense);
    assert_eq!(c.1.fighting_style.as_deref(), Some("fighter-fighting-style-archery"));
    assert_eq!(
        c.1.additional_fighting_style.as_deref(),
        Some("fighter-fighting-style-defense")
    );
}

#[test]
fn list_slots_keep_every_pick_in_order() {
    let mut c = class("ranger");
    c.apply_option(ChoosableCustomLevelFeatureOption::RangerTerrainTypeForest);
    c.apply_option(ChoosableCustomLevelFeatureOption::RangerTerrainTypeArctic);
    c.apply_option(ChoosableCustomLevelFeatureOption::RangerTerrainTypeForest);
    assert_eq!(
        c.1.natural_explorer_terrain_type,
        Some(vec![
            "ranger-terrain-type-forest".to_string(),
            "ranger-terrain-type-arctic".to_string(),
            "ranger-terrain-type-forest".to_string(),
        ])
    );
    c.apply_option(ChoosableCustomLevelFeatureOption::RangerFavoredEnemyTypeFey);
    assert_eq!(
        c.1.ranger_favored_enemy_type,
        Some(vec!["ranger-favored-enemy-type-fey".to_string()])
    );
}

#[test]
fn single_slots_take_the_last_pick() {
    let mut c = class("sorcerer");
    c.apply_option(ChoosableCustomLevelFeatureOption::DragonAncestorRedFireDamage);
    assert_eq!(
        c.1.sorcerer_dragon_ancestor.as_deref(),
        Some("dragon-ancestor-red---fire-damage")
    );
    c.apply_option(ChoosableCustomLevelFeatureOption::PactOfTheBlade);
    assert_eq!(c.1.warlock_pact.as_deref(), Some("pact-of-the-blade"));
    c.apply_option(ChoosableCustomLevelFeatureOption::HuntersPreyHordeBreaker);
    c.apply_option(ChoosableCustomLevelFeatureOption::HuntersPreyGiantKiller);
    assert_eq!(c.1.hunters_prey.as_deref(), Some("hunters-prey-giant-killer"));
    c.apply_option(ChoosableCustomLevelFeatureOption::DefensiveTacticsSteelWill);
    assert_eq!(c.1.defensive_tactics.as_deref(), Some("defensive-tactics-steel-will"));
    c.apply_option(ChoosableCustomLevelFeatureOption::SuperiorHuntersDefenseEvasion);
    assert_eq!(
        c.1.superior_hunters_defense.as_deref(),
        Some("superior-hunters-defense-evasion")
    );
}

#[test]
fn new_classes_start_with_their_spellcasting() {
    assert!(matches!(
        class("wizard").1.spell_casting,
        Some(ClassSpellCasting::KnowledgePrepared { ref spells_index, ref spells_prepared_index, pending_preparation: true })
            if spells_index.is_empty() && spells_prepared_index.is_empty()
    ));
    assert!(matches!(
        class("cleric").1.spell_casting,
        Some(ClassSpellCasting::AlreadyKnowPrepared { pending_preparation: true, .. })
    ));
    assert!(matches!(
        class("bard").1.spell_casting,
        Some(ClassSpellCasting::KnowledgeAlreadyPrepared { .. })
    ));
    assert!(class("barbarian").1.spell_casting.is_none());
    assert_eq!(class("barbarian").hit_dice(), 12);
    assert_eq!(class("paladin").hit_dice(), 10);
    assert_eq!(class("rogue").hit_dice(), 8);
    assert_eq!(class("wizard").hit_dice(), 6);
    assert_eq!(class("artificer").hit_dice(), 6);
}

#[test]
fn new_day_resets_preparation() {
    let mut c = class("cleric");
    c.1.spell_casting = Some(ClassSpellCasting::AlreadyKnowPrepared {
        spells_prepared_index: vec![vec!["bless".to_string()]],
        pending_preparation: false,
    });
    assert_eq!(c.get_ready_spells().unwrap(), vec![vec!["bless".to_string()]]);
    c.new_day(None);
    match &c.1.spell_casting {
        Some(ClassSpellCasting::AlreadyKnowPrepared {
            spells_prepared_index,
            pending_preparation,
        }) => {
            assert!(spells_prepared_index.is_empty());
            assert!(*pending_preparation);
        }
        _ => panic!("spellcasting changed kind"),
    }
    assert!(c.get_ready_spells().unwrap().is_empty());
}

#[test]
fn new_day_refills_slots() {
    let mut c = class("bard");
    let counts = LevelSpellcasting {
        cantrips_known: Some(2),
        spell_slots_level_1: Some(3),
        spell_slots_level_2: None,
        spell_slots_level_3: Some(-1),
        spell_slots_level_4: Some(300),
        spell_slots_level_5: None,
        spell_slots_level_6: None,
        spell_slots_level_7: None,
        spell_slots_level_8: None,
        spell_slots_level_9: None,
    };
    c.new_day(Some(counts));
    match &c.1.spell_casting {
        Some(ClassSpellCasting::KnowledgeAlreadyPrepared { usable_slots, .. }) => {
            assert_eq!(usable_slots.cantrip_slots, 2);
            assert_eq!(usable_slots.level_1, 3);
            assert_eq!(usable_slots.level_2, 0);
            assert_eq!(usable_slots.level_3, 0);
            assert_eq!(usable_slots.level_4, 255);
        }
        _ => panic!("spellcasting changed kind"),
    }
    c.new_day(None);
    match &c.1.spell_casting {
        Some(ClassSpellCasting::KnowledgeAlreadyPrepared { usable_slots, .. }) => {
            assert_eq!(usable_slots.level_1, 3);
        }
        _ => panic!("spellcasting changed kind"),
    }
    assert_eq!(UsableSlots::default().level_9, 0);
}

#[test]
fn spellcasting_query_joins_class_and_level() {
    let mut c = class("bard");
    assert_eq!(c.spellcasting_query().index.as_deref(), Some("bard-1"));
    c.1.level = 12;
    assert_eq!(c.spellcasting_query().index.as_deref(), Some("bard-12"));
    c.1.level = 200;
    assert_eq!(c.spellcasting_query().index.as_deref(), Some("bard-200"));
}

#[test]
fn new_day_keeps_a_wizards_known_spells() {
    let mut c = class("wizard");
    c.1.spell_casting = Some(ClassSpellCasting::KnowledgePrepared {
        spells_index: vec![vec!["fire-bolt".to_string()], vec!["shield".to_string()]],
        spells_prepared_index: vec![vec!["shield".to_string()]],
        pending_preparation: false,
    });
    c.new_day(None);
    match &c.1.spell_casting {
        Some(ClassSpellCasting::KnowledgePrepared {
            spells_index,
            spells_prepared_index,
            pending_preparation,
        }) => {
            assert_eq!(spells_index.len(), 2);
            assert!(spells_prepared_index.is_empty());
            assert!(*pending_preparation);
        }
        _ => panic!("spellcasting changed kind"),
    }
}
