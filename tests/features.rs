use dnd_character::api::classes::{
    ChoosableCustomLevelFeature, ChoosableCustomLevelFeatureOption, CustomLevelFeatureType,
    SheetLevelFeatureType,
};
use dnd_character::api::classes::ChoosableCustomLevelFeatureOption as O;

fn classify(s: &str) -> Option<CustomLevelFeatureType> {
    CustomLevelFeatureType::identify(s.to_string())
}

fn choosable(c: ChoosableCustomLevelFeature) -> Option<CustomLevelFeatureType> {
    Some(CustomLevelFeatureType::Choosable(c))
}

#[test]
fn classification_examples() {
    assert_eq!(classify("bard-college"), Some(CustomLevelFeatureType::Ignored));
    assert_eq!(classify("pact-boon"), choosable(ChoosableCustomLevelFeature::WarlockPact));
    assert_eq!(classify("diamond-soul"), Some(CustomLevelFeatureType::Passive));
    assert_eq!(
        classify("primal-champion"),
        Some(CustomLevelFeatureType::Sheet(SheetLevelFeatureType::PrimalChampion))
    );
    assert_eq!(classify("druidic"), Some(CustomLevelFeatureType::Passive));
    assert_eq!(classify("rage"), None);
}

#[test]
fn classification_is_deterministic() {
    for name in ["bard-college", "pact-boon", "diamond-soul", "rage", "metamagic-1"] {
        assert_eq!(classify(name), classify(name));
    }
}

#[test]
fn ability_score_improvement_matches_by_substring() {
    let asi = choosable(ChoosableCustomLevelFeature::AbilityScoreImprovement);
    assert_eq!(classify("ability-score-improvement"), asi);
    assert_eq!(classify("barbarian-ability-score-improvement-1"), asi);
    assert_eq!(classify("fighter-ability-score-improvement-6"), asi);
}

#[test]
fn prefix_families() {
    assert_eq!(classify("metamagic-1"), choosable(ChoosableCustomLevelFeature::Metamagic));
    assert_eq!(classify("metamagic-careful-spell"), Some(CustomLevelFeatureType::Ignored));
    assert_eq!(classify("eldritch-invocation-agonizing-blast"), Some(CustomLevelFeatureType::Ignored));
    assert_eq!(classify("hunters-prey"), choosable(ChoosableCustomLevelFeature::HuntersPrey));
    assert_eq!(classify("hunters-prey-giant-killer"), Some(CustomLevelFeatureType::Ignored));
    assert_eq!(
        classify("superior-hunters-defense"),
        choosable(ChoosableCustomLevelFeature::SuperiorHuntersDefense)
    );
    assert_eq!(classify("superior-hunters-defense-evasion"), Some(CustomLevelFeatureType::Ignored));
    assert_eq!(
        classify("favored-enemy-2-types"),
        choosable(ChoosableCustomLevelFeature::RangerFavoredEnemyType)
    );
    assert_eq!(
        classify("natural-explorer-1-terrain-type"),
        choosable(ChoosableCustomLevelFeature::RangerTerrainType)
    );
    assert_eq!(
        classify("mystic-arcanum-7th-level"),
        choosable(ChoosableCustomLevelFeature::ChooseOne6thLevelSpellFromWarlockList)
    );
    assert_eq!(classify("spellcasting-wizard"), Some(CustomLevelFeatureType::Ignored));
    assert_eq!(classify("pact-of-the-tome"), Some(CustomLevelFeatureType::Ignored));
    assert_eq!(classify("fighting-style-defense"), Some(CustomLevelFeatureType::Ignored));
    assert_eq!(classify("multiattack"), choosable(ChoosableCustomLevelFeature::Multiattack));
    assert_eq!(classify("multiattack-volley"), Some(CustomLevelFeatureType::Ignored));
    assert_eq!(classify("dragon-ancestor"), choosable(ChoosableCustomLevelFeature::DragonAncestor));
}

#[test]
fn exact_names_come_before_families() {
    assert_eq!(
        classify("fighter-fighting-style"),
        choosable(ChoosableCustomLevelFeature::FighterFightingStyle)
    );
    assert_eq!(
        classify("ranger-fighting-style"),
        choosable(ChoosableCustomLevelFeature::RangerFightingStyle)
    );
    assert_eq!(classify("magical-secrets-2"), Some(CustomLevelFeatureType::Ignored));
    assert_eq!(classify("bonus-proficiency"), Some(CustomLevelFeatureType::Passive));
}

#[test]
fn ability_score_improvement_offers_two_picks_of_six() {
    let options = ChoosableCustomLevelFeature::AbilityScoreImprovement.to_options();
    let group = vec![
        O::StrengthPlusOne,
        O::DexterityPlusOne,
        O::ConstitutionPlusOne,
        O::IntelligencePlusOne,
        O::WisdomPlusOne,
        O::CharismaPlusOne,
    ];
    assert_eq!(options, vec![group.clone(), group]);
}

#[test]
fn option_catalog_order() {
    assert_eq!(
        ChoosableCustomLevelFeature::WarlockPact.to_options(),
        vec![vec![O::PactOfTheChain, O::PactOfTheBlade, O::PactOfTheTome]]
    );
    assert_eq!(
        ChoosableCustomLevelFeature::Multiattack.to_options(),
        vec![vec![O::MultiattackWhirlwindAttack, O::MultiattackVolley]]
    );
    assert_eq!(ChoosableCustomLevelFeature::Metamagic.to_options().len(), 2);
    assert_eq!(ChoosableCustomLevelFeature::Metamagic.to_options()[1].len(), 8);
    assert_eq!(ChoosableCustomLevelFeature::DragonAncestor.to_options()[0].len(), 10);
    assert_eq!(ChoosableCustomLevelFeature::RangerFavoredEnemyType.to_options()[0].len(), 14);
    assert_eq!(
        ChoosableCustomLevelFeature::AdditionalFighterFightingStyle.to_options(),
        ChoosableCustomLevelFeature::FighterFightingStyle.to_options()
    );
}

#[test]
fn unmodelled_choices_have_one_empty_group() {
    for c in [
        ChoosableCustomLevelFeature::MultiplyTwoSkillProficiency,
        ChoosableCustomLevelFeature::ChooseTwoSpellForAnyClass,
        ChoosableCustomLevelFeature::ChooseOne6thLevelSpellFromWarlockList,
    ] {
        assert_eq!(c.to_options(), vec![Vec::<ChoosableCustomLevelFeatureOption>::new()]);
    }
}

#[test]
fn choosable_custom_level_feature_option_serialization() {
    let index = ChoosableCustomLevelFeatureOption::PactOfTheTome.as_index_str();

    assert_eq!(index, "pact-of-the-tome");

    if let Some(ChoosableCustomLevelFeatureOption::PactOfTheTome) =
        ChoosableCustomLevelFeatureOption::from_index_str(index)
    {
        // success, do nothing
    } else {
        assert!(false, "Failed to deserialize");
    }
}

#[test]
fn option_identifiers() {
    assert_eq!(O::StrengthPlusOne.as_index_str(), "strength-plus-one");
    assert_eq!(
        O::FighterFightingStyleGreatWeaponFighting.as_index_str(),
        "fighter-fighting-style-great-weapon-fighting"
    );
    assert_eq!(O::DragonAncestorBlackAcidDamage.as_index_str(), "dragon-ancestor-black---acid-damage");
    assert_eq!(
        ChoosableCustomLevelFeatureOption::from_index_str("metamagic-twinned-spell"),
        Some(O::MetamagicTwinnedSpell)
    );
    assert_eq!(ChoosableCustomLevelFeatureOption::from_index_str("no-such-option"), None);
    assert_eq!(
        ChoosableCustomLevelFeature::AbilityScoreImprovement.as_index_str(),
        "abilityScoreImprovement"
    );
    assert_eq!(
        ChoosableCustomLevelFeature::ChooseOne6thLevelSpellFromWarlockList.as_index_str(),
        "chooseOne6thLevelSpellFromWarlockList"
    );
}
