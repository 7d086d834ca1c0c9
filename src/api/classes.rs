use vstd::prelude::*;

use crate::abilities::{Abilities, AbilityScore};
use crate::api::graduated::{graduated, keep_highest_tiers, lemma_highest_die_example};
use crate::api::shared::{strings_view, ApiError};
use crate::classes::{Class, ClassProperties, ClassSpellCasting, UsableSlots};
pub use crate::api::features::{
    classify, ChoosableCustomLevelFeature, ChoosableCustomLevelFeatureOption,
    CustomLevelFeatureType, SheetLevelFeatureType,
};
use crate::api::features::{lemma_classification_examples, lemma_short_identifiers_unknown};

verus! {

/// Filter on a text field of the reference service.
#[derive(Debug, Clone)]
pub struct StringFilter(pub String);

/// Filter on a level: strictly above `gt`, at least `gte`, at most `lte`.
#[derive(Debug, Clone, Copy, PartialEq, Eq, Structural)]
pub struct LevelFilter {
    pub gt: Option<u8>,
    pub gte: Option<u8>,
    pub lte: Option<u8>,
}

/// Arguments of a query for the features of a class over a range of levels.
#[derive(Debug, Clone)]
pub struct LevelFeaturesQueryVariables {
    pub class: Option<StringFilter>,
    pub level: Option<LevelFilter>,
}

/// A feature as the reference service names it.
#[derive(Debug, Clone)]
pub struct Feature {
    pub index: String,
}

/// Answer to a [`LevelFeaturesQueryVariables`] query.
#[derive(Debug, Clone)]
pub struct LevelFeaturesQuery {
    pub features: Option<Vec<Feature>>,
}

/// Arguments of a query for the spell slots of a class at a level; the index is the class
/// identifier and the level joined by a hyphen.
#[derive(Debug, Clone)]
pub struct SpellcastingQueryVariables {
    pub index: Option<String>,
}

/// Spellcasting counts of a class at one level, as the reference service gives them.
#[derive(Debug, Clone, Copy, PartialEq, Eq, Structural)]
pub struct LevelSpellcasting {
    pub cantrips_known: Option<i32>,
    pub spell_slots_level_1: Option<i32>,
    pub spell_slots_level_2: Option<i32>,
    pub spell_slots_level_3: Option<i32>,
    pub spell_slots_level_4: Option<i32>,
    pub spell_slots_level_5: Option<i32>,
    pub spell_slots_level_6: Option<i32>,
    pub spell_slots_level_7: Option<i32>,
    pub spell_slots_level_8: Option<i32>,
    pub spell_slots_level_9: Option<i32>,
}

/// A class level as the reference service gives it.
#[derive(Debug, Clone, Copy, PartialEq, Eq, Structural)]
pub struct Level {
    pub spellcasting: Option<LevelSpellcasting>,
}

/// Answer to a [`SpellcastingQueryVariables`] query.
#[derive(Debug, Clone, Copy, PartialEq, Eq, Structural)]
pub struct SpellcastingQuery {
    pub level: Option<Level>,
}

/// The identifiers of the features in an answer.
pub open spec fn feature_names(fs: Seq<Feature>) -> Seq<Seq<char>> {
    fs.map_values(|f: Feature| f.index@)
}

/// What an answer to a features query yields: the feature identifiers, or the error. An
/// answer without data or without its feature list is a schema error.
pub open spec fn answered_features(
    response: Result<Option<LevelFeaturesQuery>, ApiError>,
) -> Result<Seq<Seq<char>>, ApiError> {
    match response {
        Err(e) => Err(e),
        Ok(None) => Err(ApiError::Schema),
        Ok(Some(q)) => match q.features {
            None => Err(ApiError::Schema),
            Some(fs) => Ok(feature_names(fs@)),
        },
    }
}

/// The feature identifiers in an answer to a features query, or the error it stands for.
pub fn feature_indexes(response: Result<Option<LevelFeaturesQuery>, ApiError>) -> (r: Result<
    Vec<String>,
    ApiError,
>)
    ensures
        match answered_features(response) {
            Ok(names) => r matches Ok(v) && strings_view(v@) == names,
            Err(e) => r == Err::<Vec<String>, ApiError>(e),
        },
{
    let features = match response {
        Err(e) => return Err(e),
        Ok(None) => return Err(ApiError::Schema),
        Ok(Some(q)) => match q.features {
            None => return Err(ApiError::Schema),
            Some(fs) => fs,
        },
    };
    let mut names: Vec<String> = Vec::new();
    let mut i: usize = 0;
    while i < features.len()
        invariant
            i <= features@.len(),
            names@.len() == i,
            strings_view(names@) =~= feature_names(features@.subrange(0, i as int)),
        decreases features.len() - i,
    {
        let name = features[i].index.clone();
        let ghost prev = names@;
        names.push(name);
        proof {
            let prefix = features@.subrange(0, i as int + 1);
            assert(name@ == features@[i as int].index@);
            assert forall|k: int| 0 <= k <= i implies strings_view(names@)[k] == feature_names(
                prefix,
            )[k] by {
                if k < i {
                    assert(names@[k] == prev[k]);
                    assert(strings_view(prev)[k] == feature_names(features@.subrange(0, i as int))[k]);
                }
            }
            assert(strings_view(names@) =~= feature_names(prefix));
        }
        i = i + 1;
    }
    assert(features@.subrange(0, i as int) =~= features@);
    Ok(names)
}

/// The choices that a list of features leaves to the player, in the order of the list.
pub open spec fn pending_choices(names: Seq<Seq<char>>) -> Seq<ChoosableCustomLevelFeature>
    decreases names.len(),
{
    if names.len() == 0 {
        seq![]
    } else {
        let rest = pending_choices(names.drop_last());
        match classify(names.last()) {
            Some(CustomLevelFeatureType::Choosable(c)) => rest.push(c),
            _ => rest,
        }
    }
}

/// How many features of a list are the primal champion.
pub open spec fn primal_champions(names: Seq<Seq<char>>) -> nat
    decreases names.len(),
{
    if names.len() == 0 {
        0
    } else {
        primal_champions(names.drop_last()) + if classify(names.last()) == Some(
            CustomLevelFeatureType::Sheet(SheetLevelFeatureType::PrimalChampion),
        ) {
            1nat
        } else {
            0nat
        }
    }
}

/// `a` with strength and constitution each raised by `4 * n`.
pub open spec fn primal_gain(a: Abilities, n: nat) -> Abilities {
    Abilities {
        strength: AbilityScore { score: (a.strength.score + 4 * n) as u8, ..a.strength },
        constitution: AbilityScore { score: (a.constitution.score + 4 * n) as u8, ..a.constitution },
        ..a
    }
}

/// A prefix of a list holds no more primal champions than the list.
pub proof fn lemma_primal_champions_prefix(names: Seq<Seq<char>>, n: int)
    requires
        0 <= n <= names.len(),
    ensures
        primal_champions(names.subrange(0, n)) <= primal_champions(names),
    decreases names.len() - n,
{
    if n < names.len() {
        lemma_primal_champions_prefix(names.drop_last(), n);
        assert(names.drop_last().subrange(0, n) =~= names.subrange(0, n));
    } else {
        assert(names.subrange(0, n) =~= names);
    }
}

/// The slot holds the identifier of `o`.
pub open spec fn holds_option(slot: Option<String>, o: ChoosableCustomLevelFeatureOption) -> bool {
    slot matches Some(s) && s@ == o.index_spec()
}

/// The identifiers in a list slot; an empty slot holds none.
pub open spec fn slot_items(slot: Option<Vec<String>>) -> Seq<String> {
    match slot {
        Some(v) => v@,
        None => seq![],
    }
}

/// `after` is the list slot `before` with the identifier of `o` appended.
pub open spec fn appended_option(
    before: Option<Vec<String>>,
    after: Option<Vec<String>>,
    o: ChoosableCustomLevelFeatureOption,
) -> bool {
    after matches Some(v) && v@.len() == slot_items(before).len() + 1 && v@.subrange(
        0,
        slot_items(before).len() as int,
    ) == slot_items(before) && v@.last()@ == o.index_spec()
}

/// The ability score that an ability increase option raises, if `o` is one.
pub open spec fn targeted_score(a: Abilities, o: ChoosableCustomLevelFeatureOption) -> Option<
    AbilityScore,
> {
    match o {
        ChoosableCustomLevelFeatureOption::StrengthPlusOne => Some(a.strength),
        ChoosableCustomLevelFeatureOption::DexterityPlusOne => Some(a.dexterity),
        ChoosableCustomLevelFeatureOption::ConstitutionPlusOne => Some(a.constitution),
        ChoosableCustomLevelFeatureOption::IntelligencePlusOne => Some(a.intelligence),
        ChoosableCustomLevelFeatureOption::WisdomPlusOne => Some(a.wisdom),
        ChoosableCustomLevelFeatureOption::CharismaPlusOne => Some(a.charisma),
        _ => None,
    }
}

/// One more point in `s`.
pub open spec fn plus_one(s: AbilityScore) -> AbilityScore {
    AbilityScore { score: (s.score + 1) as u8, ..s }
}

/// `a` with the score that `o` targets raised by one; `a` itself for any other option.
pub open spec fn raise_ability(a: Abilities, o: ChoosableCustomLevelFeatureOption) -> Abilities {
    match o {
        ChoosableCustomLevelFeatureOption::StrengthPlusOne => Abilities {
            strength: plus_one(a.strength),
            ..a
        },
        ChoosableCustomLevelFeatureOption::DexterityPlusOne => Abilities {
            dexterity: plus_one(a.dexterity),
            ..a
        },
        ChoosableCustomLevelFeatureOption::ConstitutionPlusOne => Abilities {
            constitution: plus_one(a.constitution),
            ..a
        },
        ChoosableCustomLevelFeatureOption::IntelligencePlusOne => Abilities {
            intelligence: plus_one(a.intelligence),
            ..a
        },
        ChoosableCustomLevelFeatureOption::WisdomPlusOne => Abilities {
            wisdom: plus_one(a.wisdom),
            ..a
        },
        ChoosableCustomLevelFeatureOption::CharismaPlusOne => Abilities {
            charisma: plus_one(a.charisma),
            ..a
        },
        _ => a,
    }
}

/// `after` is `before` once option `o` is applied: an ability increase raises its score by
/// one; a fighting style fills the fighting style slot when it is empty and the additional one
/// otherwise; a list option is appended to its list, repeats included; any other option is
/// written into its own slot. Nothing else changes.
pub open spec fn option_applied(
    before: ClassProperties,
    after: ClassProperties,
    o: ChoosableCustomLevelFeatureOption,
) -> bool {
    match o {
        ChoosableCustomLevelFeatureOption::StrengthPlusOne |
        ChoosableCustomLevelFeatureOption::DexterityPlusOne |
        ChoosableCustomLevelFeatureOption::ConstitutionPlusOne |
        ChoosableCustomLevelFeatureOption::IntelligencePlusOne |
        ChoosableCustomLevelFeatureOption::WisdomPlusOne |
        ChoosableCustomLevelFeatureOption::CharismaPlusOne => after == ClassProperties {
            abilities_modifiers: raise_ability(before.abilities_modifiers, o),
            ..before
        },
        ChoosableCustomLevelFeatureOption::PactOfTheChain |
        ChoosableCustomLevelFeatureOption::PactOfTheBlade |
        ChoosableCustomLevelFeatureOption::PactOfTheTome => after == ClassProperties { warlock_pact: after.warlock_pact, ..before }
            && holds_option(after.warlock_pact, o),
        ChoosableCustomLevelFeatureOption::HuntersPreyGiantKiller |
        ChoosableCustomLevelFeatureOption::HuntersPreyHordeBreaker |
        ChoosableCustomLevelFeatureOption::HuntersPreyColossusSlayer => after == ClassProperties { hunters_prey: after.hunters_prey, ..before }
            && holds_option(after.hunters_prey, o),
        ChoosableCustomLevelFeatureOption::DefensiveTacticsSteelWill |
        ChoosableCustomLevelFeatureOption::DefensiveTacticsEscapeTheHorde |
        ChoosableCustomLevelFeatureOption::DefensiveTacticsMultiattackDefense => after == ClassProperties { defensive_tactics: after.defensive_tactics, ..before }
            && holds_option(after.defensive_tactics, o),
        ChoosableCustomLevelFeatureOption::FighterFightingStyleArchery |
        ChoosableCustomLevelFeatureOption::FighterFightingStyleDefense |
        ChoosableCustomLevelFeatureOption::FighterFightingStyleDueling |
        ChoosableCustomLevelFeatureOption::FighterFightingStyleGreatWeaponFighting |
        ChoosableCustomLevelFeatureOption::FighterFightingStyleProtection |
        ChoosableCustomLevelFeatureOption::FighterFightingStyleTwoWeaponFighting |
        ChoosableCustomLevelFeatureOption::RangerFightingStyleArchery |
        ChoosableCustomLevelFeatureOption::RangerFightingStyleDefense |
        ChoosableCustomLevelFeatureOption::RangerFightingStyleDueling |
        ChoosableCustomLevelFeatureOption::RangerFightingStyleTwoWeaponFighting |
        ChoosableCustomLevelFeatureOption::FightingStyleDefense |
        ChoosableCustomLevelFeatureOption::FightingStyleDueling |
        ChoosableCustomLevelFeatureOption::FightingStyleGreatWeaponFighting |
        ChoosableCustomLevelFeatureOption::FightingStyleProtection => if before.fighting_style is None {
            after == ClassProperties { fighting_style: after.fighting_style, ..before }
                && holds_option(after.fighting_style, o)
        } else {
            after == ClassProperties {
                additional_fighting_style: after.additional_fighting_style,
                ..before
            } && holds_option(after.additional_fighting_style, o)
        },
        ChoosableCustomLevelFeatureOption::MultiattackVolley |
        ChoosableCustomLevelFeatureOption::MultiattackWhirlwindAttack => after == ClassProperties { multiattack: after.multiattack, ..before }
            && holds_option(after.multiattack, o),
        ChoosableCustomLevelFeatureOption::SuperiorHuntersDefenseEvasion |
        ChoosableCustomLevelFeatureOption::SuperiorHuntersDefenseStandAgainstTheTide |
        ChoosableCustomLevelFeatureOption::SuperiorHuntersDefenseUncannyDodge => after == ClassProperties { superior_hunters_defense: after.superior_hunters_defense, ..before }
            && holds_option(after.superior_hunters_defense, o),
        ChoosableCustomLevelFeatureOption::RangerTerrainTypeArctic |
        ChoosableCustomLevelFeatureOption::RangerTerrainTypeCoast |
        ChoosableCustomLevelFeatureOption::RangerTerrainTypeDesert |
        ChoosableCustomLevelFeatureOption::RangerTerrainTypeForest |
        ChoosableCustomLevelFeatureOption::RangerTerrainTypeGrassland |
        ChoosableCustomLevelFeatureOption::RangerTerrainTypeMountain |
        ChoosableCustomLevelFeatureOption::RangerTerrainTypeSwamp => after == ClassProperties { natural_explorer_terrain_type: after.natural_explorer_terrain_type, ..before }
            && appended_option(before.natural_explorer_terrain_type, after.natural_explorer_terrain_type, o),
        ChoosableCustomLevelFeatureOption::RangerFavoredEnemyTypeAberrations |
        ChoosableCustomLevelFeatureOption::RangerFavoredEnemyTypeBeasts |
        ChoosableCustomLevelFeatureOption::RangerFavoredEnemyTypeCelestials |
        ChoosableCustomLevelFeatureOption::RangerFavoredEnemyTypeConstructs |
        ChoosableCustomLevelFeatureOption::RangerFavoredEnemyTypeDragons |
        ChoosableCustomLevelFeatureOption::RangerFavoredEnemyTypeElementals |
        ChoosableCustomLevelFeatureOption::RangerFavoredEnemyTypeFey |
        ChoosableCustomLevelFeatureOption::RangerFavoredEnemyTypeFiends |
        ChoosableCustomLevelFeatureOption::RangerFavoredEnemyTypeGiants |
        ChoosableCustomLevelFeatureOption::RangerFavoredEnemyTypeMonstrosities |
        ChoosableCustomLevelFeatureOption::RangerFavoredEnemyTypeOozes |
        ChoosableCustomLevelFeatureOption::RangerFavoredEnemyTypePlants |
        ChoosableCustomLevelFeatureOption::RangerFavoredEnemyTypeUndead |
        ChoosableCustomLevelFeatureOption::RangerFavoredEnemyTypeHumanoids => after == ClassProperties { ranger_favored_enemy_type: after.ranger_favored_enemy_type, ..before }
            && appended_option(before.ranger_favored_enemy_type, after.ranger_favored_enemy_type, o),
        ChoosableCustomLevelFeatureOption::MetamagicCarefulSpell |
        ChoosableCustomLevelFeatureOption::MetamagicDistantSpell |
        ChoosableCustomLevelFeatureOption::MetamagicEmpoweredSpell |
        ChoosableCustomLevelFeatureOption::MetamagicExtendedSpell |
        ChoosableCustomLevelFeatureOption::MetamagicHeightenedSpell |
        ChoosableCustomLevelFeatureOption::MetamagicQuickenedSpell |
        ChoosableCustomLevelFeatureOption::MetamagicSubtleSpell |
        ChoosableCustomLevelFeatureOption::MetamagicTwinnedSpell => after == ClassProperties { sorcerer_metamagic: after.sorcerer_metamagic, ..before }
            && appended_option(before.sorcerer_metamagic, after.sorcerer_metamagic, o),
        ChoosableCustomLevelFeatureOption::DragonAncestorBlackAcidDamage |
        ChoosableCustomLevelFeatureOption::DragonAncestorBlueLightningDamage |
        ChoosableCustomLevelFeatureOption::DragonAncestorBrassFireDamage |
        ChoosableCustomLevelFeatureOption::DragonAncestorBronzeLightningDamage |
        ChoosableCustomLevelFeatureOption::DragonAncestorCopperAcidDamage |
        ChoosableCustomLevelFeatureOption::DragonAncestorGoldFireDamage |
        ChoosableCustomLevelFeatureOption::DragonAncestorGreenPoisonDamage |
        ChoosableCustomLevelFeatureOption::DragonAncestorRedFireDamage |
        ChoosableCustomLevelFeatureOption::DragonAncestorSilverColdDamage |
        ChoosableCustomLevelFeatureOption::DragonAncestorWhiteColdDamage => after == ClassProperties { sorcerer_dragon_ancestor: after.sorcerer_dragon_ancestor, ..before }
            && holds_option(after.sorcerer_dragon_ancestor, o),
    }
}

/// Appends the identifier of `o` to a list slot, making the list if the slot is empty.
fn append_option(slot: &mut Option<Vec<String>>, o: ChoosableCustomLevelFeatureOption)
    ensures
        appended_option(*old(slot), *final(slot), o),
{
    let item = String::from_str(o.as_index_str());
    let mut v = match slot.take() {
        Some(v) => v,
        None => Vec::new(),
    };
    proof {
        assert(v@ == slot_items(*old(slot)));
    }
    v.push(item);
    assert(v@.subrange(0, v@.len() - 1) =~= slot_items(*old(slot)));
    *slot = Some(v);
}

impl Class {
    /// Records the player's pick of option `option`.
    pub fn apply_option(&mut self, option: ChoosableCustomLevelFeatureOption)
        requires
            targeted_score(old(self).1.abilities_modifiers, option) matches Some(s) ==> s.score
                < u8::MAX,
        ensures
            final(self).0 == old(self).0,
            option_applied(old(self).1, final(self).1, option),
    {
        match option {
            ChoosableCustomLevelFeatureOption::StrengthPlusOne |
            ChoosableCustomLevelFeatureOption::DexterityPlusOne |
            ChoosableCustomLevelFeatureOption::ConstitutionPlusOne |
            ChoosableCustomLevelFeatureOption::IntelligencePlusOne |
            ChoosableCustomLevelFeatureOption::WisdomPlusOne |
            ChoosableCustomLevelFeatureOption::CharismaPlusOne => self.increase_score(option),
            ChoosableCustomLevelFeatureOption::PactOfTheChain |
            ChoosableCustomLevelFeatureOption::PactOfTheBlade |
            ChoosableCustomLevelFeatureOption::PactOfTheTome => {
                self.1.warlock_pact = Some(String::from_str(option.as_index_str()));
            },
            ChoosableCustomLevelFeatureOption::HuntersPreyGiantKiller |
            ChoosableCustomLevelFeatureOption::HuntersPreyHordeBreaker |
            ChoosableCustomLevelFeatureOption::HuntersPreyColossusSlayer => {
                self.1.hunters_prey = Some(String::from_str(option.as_index_str()));
            },
            ChoosableCustomLevelFeatureOption::DefensiveTacticsSteelWill |
            ChoosableCustomLevelFeatureOption::DefensiveTacticsEscapeTheHorde |
            ChoosableCustomLevelFeatureOption::DefensiveTacticsMultiattackDefense => {
                self.1.defensive_tactics = Some(String::from_str(option.as_index_str()));
            },
            ChoosableCustomLevelFeatureOption::FighterFightingStyleArchery |
            ChoosableCustomLevelFeatureOption::FighterFightingStyleDefense |
            ChoosableCustomLevelFeatureOption::FighterFightingStyleDueling |
            ChoosableCustomLevelFeatureOption::FighterFightingStyleGreatWeaponFighting |
            ChoosableCustomLevelFeatureOption::FighterFightingStyleProtection |
            ChoosableCustomLevelFeatureOption::FighterFightingStyleTwoWeaponFighting |
            ChoosableCustomLevelFeatureOption::RangerFightingStyleArchery |
            ChoosableCustomLevelFeatureOption::RangerFightingStyleDefense |
            ChoosableCustomLevelFeatureOption::RangerFightingStyleDueling |
            ChoosableCustomLevelFeatureOption::RangerFightingStyleTwoWeaponFighting |
            ChoosableCustomLevelFeatureOption::FightingStyleDefense |
            ChoosableCustomLevelFeatureOption::FightingStyleDueling |
            ChoosableCustomLevelFeatureOption::FightingStyleGreatWeaponFighting |
            ChoosableCustomLevelFeatureOption::FightingStyleProtection => {
                if self.1.fighting_style.is_none() {
                    self.1.fighting_style = Some(String::from_str(option.as_index_str()));
                } else {
                    self.1.additional_fighting_style = Some(
                        String::from_str(option.as_index_str()),
                    );
                }
            },
            ChoosableCustomLevelFeatureOption::MultiattackVolley |
            ChoosableCustomLevelFeatureOption::MultiattackWhirlwindAttack => {
                self.1.multiattack = Some(String::from_str(option.as_index_str()));
            },
            ChoosableCustomLevelFeatureOption::SuperiorHuntersDefenseEvasion |
            ChoosableCustomLevelFeatureOption::SuperiorHuntersDefenseStandAgainstTheTide |
            ChoosableCustomLevelFeatureOption::SuperiorHuntersDefenseUncannyDodge => {
                self.1.superior_hunters_defense = Some(String::from_str(option.as_index_str()));
            },
            ChoosableCustomLevelFeatureOption::RangerTerrainTypeArctic |
            ChoosableCustomLevelFeatureOption::RangerTerrainTypeCoast |
            ChoosableCustomLevelFeatureOption::RangerTerrainTypeDesert |
            ChoosableCustomLevelFeatureOption::RangerTerrainTypeForest |
            ChoosableCustomLevelFeatureOption::RangerTerrainTypeGrassland |
            ChoosableCustomLevelFeatureOption::RangerTerrainTypeMountain |
            ChoosableCustomLevelFeatureOption::RangerTerrainTypeSwamp => {
                append_option(&mut self.1.natural_explorer_terrain_type, option);
            },
            ChoosableCustomLevelFeatureOption::RangerFavoredEnemyTypeAberrations |
            ChoosableCustomLevelFeatureOption::RangerFavoredEnemyTypeBeasts |
            ChoosableCustomLevelFeatureOption::RangerFavoredEnemyTypeCelestials |
            ChoosableCustomLevelFeatureOption::RangerFavoredEnemyTypeConstructs |
            ChoosableCustomLevelFeatureOption::RangerFavoredEnemyTypeDragons |
            ChoosableCustomLevelFeatureOption::RangerFavoredEnemyTypeElementals |
            ChoosableCustomLevelFeatureOption::RangerFavoredEnemyTypeFey |
            ChoosableCustomLevelFeatureOption::RangerFavoredEnemyTypeFiends |
            ChoosableCustomLevelFeatureOption::RangerFavoredEnemyTypeGiants |
            ChoosableCustomLevelFeatureOption::RangerFavoredEnemyTypeMonstrosities |
            ChoosableCustomLevelFeatureOption::RangerFavoredEnemyTypeOozes |
            ChoosableCustomLevelFeatureOption::RangerFavoredEnemyTypePlants |
            ChoosableCustomLevelFeatureOption::RangerFavoredEnemyTypeUndead |
            ChoosableCustomLevelFeatureOption::RangerFavoredEnemyTypeHumanoids => {
                append_option(&mut self.1.ranger_favored_enemy_type, option);
            },
            ChoosableCustomLevelFeatureOption::MetamagicCarefulSpell |
            ChoosableCustomLevelFeatureOption::MetamagicDistantSpell |
            ChoosableCustomLevelFeatureOption::MetamagicEmpoweredSpell |
            ChoosableCustomLevelFeatureOption::MetamagicExtendedSpell |
            ChoosableCustomLevelFeatureOption::MetamagicHeightenedSpell |
            ChoosableCustomLevelFeatureOption::MetamagicQuickenedSpell |
            ChoosableCustomLevelFeatureOption::MetamagicSubtleSpell |
            ChoosableCustomLevelFeatureOption::MetamagicTwinnedSpell => {
                append_option(&mut self.1.sorcerer_metamagic, option);
            },
            ChoosableCustomLevelFeatureOption::DragonAncestorBlackAcidDamage |
            ChoosableCustomLevelFeatureOption::DragonAncestorBlueLightningDamage |
            ChoosableCustomLevelFeatureOption::DragonAncestorBrassFireDamage |
            ChoosableCustomLevelFeatureOption::DragonAncestorBronzeLightningDamage |
            ChoosableCustomLevelFeatureOption::DragonAncestorCopperAcidDamage |
            ChoosableCustomLevelFeatureOption::DragonAncestorGoldFireDamage |
            ChoosableCustomLevelFeatureOption::DragonAncestorGreenPoisonDamage |
            ChoosableCustomLevelFeatureOption::DragonAncestorRedFireDamage |
            ChoosableCustomLevelFeatureOption::DragonAncestorSilverColdDamage |
            ChoosableCustomLevelFeatureOption::DragonAncestorWhiteColdDamage => {
                self.1.sorcerer_dragon_ancestor = Some(String::from_str(option.as_index_str()));
            },
        }
    }

    /// Raises by one the ability score that an ability increase option targets.
    fn increase_score(&mut self, option: ChoosableCustomLevelFeatureOption)
        requires
            targeted_score(old(self).1.abilities_modifiers, option) matches Some(s) ==> s.score
                < u8::MAX,
        ensures
            final(self).0 == old(self).0,
            final(self).1 == (ClassProperties {
                abilities_modifiers: raise_ability(old(self).1.abilities_modifiers, option),
                ..old(self).1
            }),
    {
        match option {
            ChoosableCustomLevelFeatureOption::StrengthPlusOne => {
                self.1.abilities_modifiers.strength.score = self.1.abilities_modifiers.strength.score + 1;
            },
            ChoosableCustomLevelFeatureOption::DexterityPlusOne => {
                self.1.abilities_modifiers.dexterity.score = self.1.abilities_modifiers.dexterity.score + 1;
            },
            ChoosableCustomLevelFeatureOption::ConstitutionPlusOne => {
                self.1.abilities_modifiers.constitution.score = self.1.abilities_modifiers.constitution.score + 1;
            },
            ChoosableCustomLevelFeatureOption::IntelligencePlusOne => {
                self.1.abilities_modifiers.intelligence.score = self.1.abilities_modifiers.intelligence.score + 1;
            },
            ChoosableCustomLevelFeatureOption::WisdomPlusOne => {
                self.1.abilities_modifiers.wisdom.score = self.1.abilities_modifiers.wisdom.score + 1;
            },
            ChoosableCustomLevelFeatureOption::CharismaPlusOne => {
                self.1.abilities_modifiers.charisma.score = self.1.abilities_modifiers.charisma.score + 1;
            },
            _ => {},
        }
    }

    /// Arguments of the query for the features that a level up to `new_level` brings: those
    /// of this class above its level and up to `new_level`.
    pub fn level_up_query(&self, new_level: u8) -> (r: LevelFeaturesQueryVariables)
        ensures
            r.class matches Some(StringFilter(c)) && c@ == self.index_spec(),
            r.level == Some(LevelFilter { gt: Some(self.1.level), gte: None, lte: Some(new_level) }),
    {
        LevelFeaturesQueryVariables {
            class: Some(StringFilter(self.0.clone())),
            level: Some(LevelFilter { gt: Some(self.1.level), gte: None, lte: Some(new_level) }),
        }
    }

    /// Raises the class to `new_level`, given the service's answer to
    /// [`Class::level_up_query`]. The choices that the new features ask for are returned in the
    /// order of the answer; a primal champion raises strength and constitution by four each.
    /// When the answer is an error the class is left as it was.
    pub fn set_level(
        &mut self,
        new_level: u8,
        response: Result<Option<LevelFeaturesQuery>, ApiError>,
    ) -> (r: Result<Vec<ChoosableCustomLevelFeature>, ApiError>)
        requires
            old(self).1.level < new_level <= 20,
            answered_features(response) matches Ok(names) ==> {
                &&& old(self).1.abilities_modifiers.strength.score + 4 * primal_champions(names)
                    <= u8::MAX
                &&& old(self).1.abilities_modifiers.constitution.score + 4 * primal_champions(
                    names,
                ) <= u8::MAX
            },
        ensures
            match answered_features(response) {
                Err(e) => r == Err::<Vec<ChoosableCustomLevelFeature>, ApiError>(e) && *final(self)
                    == *old(self),
                Ok(names) => {
                    &&& r matches Ok(p) && p@ == pending_choices(names)
                    &&& final(self).0 == old(self).0
                    &&& final(self).1 == (ClassProperties {
                        level: new_level,
                        abilities_modifiers: primal_gain(
                            old(self).1.abilities_modifiers,
                            primal_champions(names),
                        ),
                        ..old(self).1
                    })
                },
            },
    {
        let names = match feature_indexes(response) {
            Err(e) => return Err(e),
            Ok(v) => v,
        };
        let ghost all = strings_view(names@);
        let mut pending: Vec<ChoosableCustomLevelFeature> = Vec::new();
        let mut modifiers = self.1.abilities_modifiers;
        let mut i: usize = 0;
        while i < names.len()
            invariant
                i <= names@.len(),
                all == strings_view(names@),
                all.len() == names@.len(),
                old(self).1.abilities_modifiers.strength.score + 4 * primal_champions(all) <= u8::MAX,
                old(self).1.abilities_modifiers.constitution.score + 4 * primal_champions(all)
                    <= u8::MAX,
                pending@ == pending_choices(all.subrange(0, i as int)),
                modifiers == primal_gain(
                    old(self).1.abilities_modifiers,
                    primal_champions(all.subrange(0, i as int)),
                ),
                *self == *old(self),
            decreases names.len() - i,
        {
            proof {
                lemma_primal_champions_prefix(all, i as int + 1);
                assert(all.subrange(0, i as int + 1).drop_last() =~= all.subrange(0, i as int));
                assert(all.subrange(0, i as int + 1).last() == names@[i as int]@);
            }
            match CustomLevelFeatureType::identify(names[i].clone()) {
                Some(CustomLevelFeatureType::Choosable(c)) => {
                    pending.push(c);
                },
                Some(CustomLevelFeatureType::Sheet(SheetLevelFeatureType::PrimalChampion)) => {
                    modifiers.strength.score = modifiers.strength.score + 4;
                    modifiers.constitution.score = modifiers.constitution.score + 4;
                },
                _ => {},
            }
            i = i + 1;
        }
        assert(all.subrange(0, i as int) =~= all);
        self.1.abilities_modifiers = modifiers;
        self.1.level = new_level;
        Ok(pending)
    }
}

/// The features of a listing before tiers are merged, in order: those that no rule knows, and
/// the passive ones when `passive` is set.
pub open spec fn listed(names: Seq<Seq<char>>, passive: bool) -> Seq<Seq<char>>
    decreases names.len(),
{
    if names.len() == 0 {
        seq![]
    } else {
        let rest = listed(names.drop_last(), passive);
        match classify(names.last()) {
            None => rest.push(names.last()),
            Some(CustomLevelFeatureType::Passive) => if passive {
                rest.push(names.last())
            } else {
                rest
            },
            _ => rest,
        }
    }
}

/// The text of a slot, if it holds one.
pub open spec fn slot_text(slot: Option<String>) -> Seq<Seq<char>> {
    match slot {
        Some(s) => seq![s@],
        None => seq![],
    }
}

/// The options chosen for multiattack, hunter's prey and metamagic, which stand for their
/// features in a listing without passive features.
pub open spec fn chosen_features(p: ClassProperties) -> Seq<Seq<char>> {
    slot_text(p.multiattack) + slot_text(p.hunters_prey) + strings_view(
        slot_items(p.sorcerer_metamagic),
    )
}

/// The listing of a class's features: the highest tiers of the listed features and, without
/// passive features, the chosen options after them.
pub open spec fn levels_listing(names: Seq<Seq<char>>, passive: bool, p: ClassProperties) -> Seq<
    Seq<char>,
> {
    if passive {
        graduated(listed(names, true))
    } else {
        graduated(listed(names, false)) + chosen_features(p)
    }
}

impl Class {
    /// Arguments of the query for the features of this class from level `from_level` (or from
    /// the start) up to its level.
    pub fn levels_features_query(&self, from_level: Option<u8>) -> (r: LevelFeaturesQueryVariables)
        ensures
            r.class matches Some(StringFilter(c)) && c@ == self.index_spec(),
            r.level == Some(
                LevelFilter {
                    gt: None,
                    gte: Some(
                        match from_level {
                            Some(l) => l,
                            None => 0,
                        },
                    ),
                    lte: Some(self.1.level),
                },
            ),
    {
        let from = match from_level {
            Some(l) => l,
            None => 0,
        };
        LevelFeaturesQueryVariables {
            class: Some(StringFilter(self.0.clone())),
            level: Some(LevelFilter { gt: None, gte: Some(from), lte: Some(self.1.level) }),
        }
    }

    /// The features to show for this class, given the service's answer to
    /// [`Class::levels_features_query`]: see [`levels_listing`].
    pub fn get_levels_features(
        &self,
        passive: bool,
        response: Result<Option<LevelFeaturesQuery>, ApiError>,
    ) -> (r: Result<Vec<String>, ApiError>)
        ensures
            match answered_features(response) {
                Err(e) => r == Err::<Vec<String>, ApiError>(e),
                Ok(names) => r matches Ok(v) && strings_view(v@) == levels_listing(
                    names,
                    passive,
                    self.1,
                ),
            },
    {
        let names = match feature_indexes(response) {
            Err(e) => return Err(e),
            Ok(v) => v,
        };
        let ghost all = strings_view(names@);
        let mut shown: Vec<String> = Vec::new();
        let mut i: usize = 0;
        while i < names.len()
            invariant
                i <= names@.len(),
                all == strings_view(names@),
                strings_view(shown@) == listed(all.subrange(0, i as int), passive),
            decreases names.len() - i,
        {
            proof {
                assert(all.subrange(0, i as int + 1).drop_last() =~= all.subrange(0, i as int));
                assert(all.subrange(0, i as int + 1).last() == names@[i as int]@);
            }
            let keep = match CustomLevelFeatureType::identify(names[i].clone()) {
                None => true,
                Some(CustomLevelFeatureType::Passive) => passive,
                _ => false,
            };
            if keep {
                let ghost prev = shown@;
                shown.push(names[i].clone());
                assert(strings_view(shown@) =~= strings_view(prev).push(names@[i as int]@));
            }
            i = i + 1;
        }
        assert(all.subrange(0, i as int) =~= all);
        let mut features = keep_highest_tiers(&shown);
        if !passive {
            let ghost base = strings_view(features@);
            match &self.1.multiattack {
                Some(m) => features.push(m.clone()),
                None => {},
            }
            match &self.1.hunters_prey {
                Some(h) => features.push(h.clone()),
                None => {},
            }
            let ghost mid = features@;
            assert(strings_view(mid) =~= base + slot_text(self.1.multiattack) + slot_text(
                self.1.hunters_prey,
            ));
            match &self.1.sorcerer_metamagic {
                Some(list) => {
                    let mut j: usize = 0;
                    while j < list.len()
                        invariant
                            j <= list@.len(),
                            features@.len() == mid.len() + j,
                            strings_view(features@) =~= strings_view(mid) + strings_view(
                                list@.subrange(0, j as int),
                            ),
                        decreases list.len() - j,
                    {
                        let ghost prev = features@;
                        features.push(list[j].clone());
                        assert(list@.subrange(0, j as int + 1) =~= list@.subrange(0, j as int).push(
                            list@[j as int],
                        ));
                        assert(strings_view(features@) =~= strings_view(prev).push(list@[j as int]@));
                        j = j + 1;
                    }
                    assert(list@.subrange(0, j as int) =~= list@);
                },
                None => {},
            }
            assert(strings_view(features@) =~= base + chosen_features(self.1));
        }
        Ok(features)
    }
}

/// A count from the service as a slot count: missing or negative is 0, and counts above
/// `u8::MAX` stop there.
pub open spec fn slot_count(c: Option<i32>) -> u8 {
    match c {
        None => 0,
        Some(v) => if v < 0 {
            0
        } else if v > u8::MAX {
            u8::MAX
        } else {
            v as u8
        },
    }
}

fn slot_count_of(c: Option<i32>) -> (r: u8)
    ensures
        r == slot_count(c),
{
    match c {
        None => 0,
        Some(v) => if v < 0 {
            0
        } else if v > u8::MAX as i32 {
            u8::MAX
        } else {
            v as u8
        },
    }
}

impl LevelSpellcasting {
    /// The usable slots that these counts give.
    pub open spec fn usable_slots_spec(self) -> UsableSlots {
        UsableSlots {
            cantrip_slots: slot_count(self.cantrips_known),
            level_1: slot_count(self.spell_slots_level_1),
            level_2: slot_count(self.spell_slots_level_2),
            level_3: slot_count(self.spell_slots_level_3),
            level_4: slot_count(self.spell_slots_level_4),
            level_5: slot_count(self.spell_slots_level_5),
            level_6: slot_count(self.spell_slots_level_6),
            level_7: slot_count(self.spell_slots_level_7),
            level_8: slot_count(self.spell_slots_level_8),
            level_9: slot_count(self.spell_slots_level_9),
        }
    }

    /// The usable slots that these counts give; see [`slot_count`].
    pub fn into_usable_slots(self) -> (r: UsableSlots)
        ensures
            r == self.usable_slots_spec(),
    {
        UsableSlots {
            cantrip_slots: slot_count_of(self.cantrips_known),
            level_1: slot_count_of(self.spell_slots_level_1),
            level_2: slot_count_of(self.spell_slots_level_2),
            level_3: slot_count_of(self.spell_slots_level_3),
            level_4: slot_count_of(self.spell_slots_level_4),
            level_5: slot_count_of(self.spell_slots_level_5),
            level_6: slot_count_of(self.spell_slots_level_6),
            level_7: slot_count_of(self.spell_slots_level_7),
            level_8: slot_count_of(self.spell_slots_level_8),
            level_9: slot_count_of(self.spell_slots_level_9),
        }
    }
}

/// What an answer to a spell slots query yields: the counts, which may be absent for a class
/// that casts nothing at that level, or the error. An answer without data or without the level
/// is a schema error.
pub open spec fn answered_slots(response: Result<Option<SpellcastingQuery>, ApiError>) -> Result<
    Option<LevelSpellcasting>,
    ApiError,
> {
    match response {
        Err(e) => Err(e),
        Ok(None) => Err(ApiError::Schema),
        Ok(Some(q)) => match q.level {
            None => Err(ApiError::Schema),
            Some(l) => Ok(l.spellcasting),
        },
    }
}

/// The spell slot counts in an answer to a spell slots query, or the error it stands for.
pub fn spellcasting_slots(response: Result<Option<SpellcastingQuery>, ApiError>) -> (r: Result<
    Option<LevelSpellcasting>,
    ApiError,
>)
    ensures
        r == answered_slots(response),
{
    match response {
        Err(e) => Err(e),
        Ok(None) => Err(ApiError::Schema),
        Ok(Some(q)) => match q.level {
            None => Err(ApiError::Schema),
            Some(l) => Ok(l.spellcasting),
        },
    }
}

/// `after` is `before` at the start of a new day: a preparing caster has nothing prepared and
/// a preparation pending; a caster from slots has the slots that `slots` gives, or keeps its
/// own when no counts came; nothing else changes.
pub open spec fn day_reset(
    before: ClassProperties,
    after: ClassProperties,
    slots: Option<LevelSpellcasting>,
) -> bool {
    match before.spell_casting {
        Some(ClassSpellCasting::KnowledgePrepared { spells_index, .. }) => {
            &&& after == ClassProperties { spell_casting: after.spell_casting, ..before }
            &&& after.spell_casting matches Some(
                ClassSpellCasting::KnowledgePrepared {
                    spells_index: known,
                    spells_prepared_index: prepared,
                    pending_preparation: pending,
                },
            ) && known == spells_index && prepared@.len() == 0 && pending
        },
        Some(ClassSpellCasting::AlreadyKnowPrepared { .. }) => {
            &&& after == ClassProperties { spell_casting: after.spell_casting, ..before }
            &&& after.spell_casting matches Some(
                ClassSpellCasting::AlreadyKnowPrepared {
                    spells_prepared_index: prepared,
                    pending_preparation: pending,
                },
            ) && prepared@.len() == 0 && pending
        },
        Some(ClassSpellCasting::KnowledgeAlreadyPrepared { spells_index, usable_slots }) => {
            match slots {
                Some(l) => after == ClassProperties {
                    spell_casting: Some(
                        ClassSpellCasting::KnowledgeAlreadyPrepared {
                            spells_index,
                            usable_slots: l.usable_slots_spec(),
                        },
                    ),
                    ..before
                },
                None => after == before,
            }
        },
        None => after == before,
    }
}

impl Class {
    /// Starts a new day for this class; `slots` are the spell slot counts that the service
    /// gave for the class at its level, if any.
    pub fn new_day(&mut self, slots: Option<LevelSpellcasting>)
        ensures
            final(self).0 == old(self).0,
            day_reset(old(self).1, final(self).1, slots),
    {
        let casting = self.1.spell_casting.take();
        self.1.spell_casting = match casting {
            Some(ClassSpellCasting::KnowledgePrepared { spells_index, .. }) => Some(
                ClassSpellCasting::KnowledgePrepared {
                    spells_index,
                    spells_prepared_index: Vec::new(),
                    pending_preparation: true,
                },
            ),
            Some(ClassSpellCasting::AlreadyKnowPrepared { .. }) => Some(
                ClassSpellCasting::AlreadyKnowPrepared {
                    spells_prepared_index: Vec::new(),
                    pending_preparation: true,
                },
            ),
            Some(ClassSpellCasting::KnowledgeAlreadyPrepared { spells_index, usable_slots }) => {
                let usable_slots = match slots {
                    Some(l) => l.into_usable_slots(),
                    None => usable_slots,
                };
                Some(ClassSpellCasting::KnowledgeAlreadyPrepared { spells_index, usable_slots })
            },
            None => None,
        };
    }
}

/// An ability increase option.
pub open spec fn is_ability_increase(o: ChoosableCustomLevelFeatureOption) -> bool {
    targeted_score(Abilities::zero(), o) is Some
}

/// Applying an ability increase raises exactly its ability by one; applying the same one a
/// second time, as two ability score improvement picks of one ability do, raises it by two in
/// all, and nothing else of the class changes.
pub proof fn lemma_ability_increase_twice(
    a: ClassProperties,
    b: ClassProperties,
    c: ClassProperties,
    o: ChoosableCustomLevelFeatureOption,
)
    requires
        is_ability_increase(o),
        targeted_score(a.abilities_modifiers, o) matches Some(s) && s.score + 2 <= u8::MAX,
        option_applied(a, b, o),
        option_applied(b, c, o),
    ensures
        targeted_score(b.abilities_modifiers, o) matches Some(t) && targeted_score(
            a.abilities_modifiers,
            o,
        ) matches Some(s) && t.score == s.score + 1 && t.proficiency == s.proficiency,
        targeted_score(c.abilities_modifiers, o) matches Some(t) && targeted_score(
            a.abilities_modifiers,
            o,
        ) matches Some(s) && t.score == s.score + 2 && t.proficiency == s.proficiency,
        forall|p: ChoosableCustomLevelFeatureOption|
            is_ability_increase(p) && p != o ==> #[trigger] targeted_score(c.abilities_modifiers, p)
                == targeted_score(a.abilities_modifiers, p),
        c == (ClassProperties { abilities_modifiers: c.abilities_modifiers, ..a }),
{
}

/// The character of a decimal digit.
pub open spec fn digit_char(d: nat) -> char {
    ((d + 48) as u8) as char
}

/// `n` written in base ten, without leading zeros.
pub open spec fn decimal(n: nat) -> Seq<char>
    decreases n,
{
    if n < 10 {
        seq![digit_char(n)]
    } else {
        decimal(n / 10) + seq![digit_char(n % 10)]
    }
}

/// The one-character text of digit `d`.
fn digit_text(d: u8) -> (r: &'static str)
    requires
        d < 10,
    ensures
        r@ == seq![digit_char(d as nat)],
{
    proof {
        reveal_strlit("0");
        reveal_strlit("1");
        reveal_strlit("2");
        reveal_strlit("3");
        reveal_strlit("4");
        reveal_strlit("5");
        reveal_strlit("6");
        reveal_strlit("7");
        reveal_strlit("8");
        reveal_strlit("9");
    }
    let r = if d == 0 {
        "0"
    } else if d == 1 {
        "1"
    } else if d == 2 {
        "2"
    } else if d == 3 {
        "3"
    } else if d == 4 {
        "4"
    } else if d == 5 {
        "5"
    } else if d == 6 {
        "6"
    } else if d == 7 {
        "7"
    } else if d == 8 {
        "8"
    } else {
        "9"
    };
    assert(r@ =~= seq![digit_char(d as nat)]);
    r
}

impl Class {
    /// Arguments of the query for the spell slots of this class at its level: the class
    /// identifier and the level in base ten, joined by a hyphen.
    pub fn spellcasting_query(&self) -> (r: SpellcastingQueryVariables)
        ensures
            r.index matches Some(s) && s@ == self.index_spec() + "-"@ + decimal(self.1.level as nat),
    {
        let level = self.1.level;
        let mut s = String::from_str(self.index());
        s.append("-");
        let ghost head = s@;
        if level >= 100 {
            s.append(digit_text(level / 100));
            s.append(digit_text((level / 10) % 10));
            s.append(digit_text(level % 10));
            proof {
                let n = level as nat;
                assert(decimal(n / 10 / 10) == seq![digit_char(n / 100)]);
                assert(decimal(n / 10) =~= seq![digit_char(n / 100)] + seq![digit_char((n / 10) % 10)]);
                assert(s@ =~= head + decimal(n));
            }
        } else if level >= 10 {
            s.append(digit_text(level / 10));
            s.append(digit_text(level % 10));
            proof {
                let n = level as nat;
                assert(n / 10 < 10);
                assert(decimal(n / 10) == seq![digit_char(n / 10)]);
                assert(decimal(n) == decimal(n / 10) + seq![digit_char(n % 10)]);
                assert(s@ =~= head + decimal(n));
            }
        } else {
            s.append(digit_text(level));
            assert(s@ =~= head + decimal(level as nat));
        }
        SpellcastingQueryVariables { index: Some(s) }
    }
}

/// How many times `x` occurs in `names`.
pub open spec fn occurrences(names: Seq<Seq<char>>, x: Seq<char>) -> nat
    decreases names.len(),
{
    if names.len() == 0 {
        0
    } else {
        occurrences(names.drop_last(), x) + if names.last() == x {
            1nat
        } else {
            0nat
        }
    }
}

/// How many features of a list ask the player for a choice.
pub open spec fn choosable_count(names: Seq<Seq<char>>) -> nat
    decreases names.len(),
{
    if names.len() == 0 {
        0
    } else {
        choosable_count(names.drop_last()) + if classify(names.last()) is Some
            && classify(names.last())->0 is Choosable {
            1nat
        } else {
            0nat
        }
    }
}

/// The primal champion is the one identifier that changes the sheet.
pub proof fn lemma_only_primal_champion_changes_the_sheet(s: Seq<char>)
    ensures
        (classify(s) == Some(CustomLevelFeatureType::Sheet(SheetLevelFeatureType::PrimalChampion)))
            <==> s == "primal-champion"@,
{
    lemma_classification_examples();
}

/// Counting primal champions counts the occurrences of `primal-champion`, and the pending
/// choices of a list are exactly its choosable features.
proof fn lemma_level_up_counts(names: Seq<Seq<char>>)
    ensures
        primal_champions(names) == occurrences(names, "primal-champion"@),
        pending_choices(names).len() == choosable_count(names),
    decreases names.len(),
{
    if names.len() > 0 {
        lemma_level_up_counts(names.drop_last());
        lemma_only_primal_champion_changes_the_sheet(names.last());
    }
}

/// A level up whose features hold the primal champion once, as a barbarian's level 20 does,
/// raises strength and constitution by exactly four each through [`Class::set_level`] and leaves
/// the other abilities and every proficiency as they were; the primal champion adds no pending
/// choice, so the choices returned are exactly the choosable features.
pub proof fn lemma_primal_champion_level_up(names: Seq<Seq<char>>, a: Abilities)
    requires
        occurrences(names, "primal-champion"@) == 1,
        a.strength.score + 4 <= u8::MAX,
        a.constitution.score + 4 <= u8::MAX,
    ensures
        primal_champions(names) == 1,
        pending_choices(names).len() == choosable_count(names),
        primal_gain(a, 1).strength == (AbilityScore { score: (a.strength.score + 4) as u8, ..a.strength }),
        primal_gain(a, 1).constitution == (AbilityScore {
            score: (a.constitution.score + 4) as u8,
            ..a.constitution
        }),
        primal_gain(a, 1) == (Abilities {
            strength: primal_gain(a, 1).strength,
            constitution: primal_gain(a, 1).constitution,
            ..a
        }),
{
    lemma_level_up_counts(names);
}

/// A class whose features are `foo-d4`, `foo-d6` and `foo-d8` lists only `foo-d8`, with passive
/// features or without them when no option is chosen for multiattack, hunter's prey or
/// metamagic.
pub proof fn lemma_highest_die_listing(passive: bool, p: ClassProperties)
    requires
        passive || (p.multiattack is None && p.hunters_prey is None && p.sorcerer_metamagic is None),
    ensures
        levels_listing(seq!["foo-d4"@, "foo-d6"@, "foo-d8"@], passive, p) == seq!["foo-d8"@],
{
    reveal_strlit("foo-d4");
    reveal_strlit("foo-d6");
    reveal_strlit("foo-d8");
    let names = seq!["foo-d4"@, "foo-d6"@, "foo-d8"@];
    lemma_short_identifiers_unknown(names[0]);
    lemma_short_identifiers_unknown(names[1]);
    lemma_short_identifiers_unknown(names[2]);
    assert(names.subrange(0, 2) =~= names.drop_last());
    assert(names.subrange(0, 1) =~= names.drop_last().drop_last());
    let one = names.subrange(0, 1);
    assert(one.drop_last() =~= Seq::<Seq<char>>::empty());
    assert(listed(one.drop_last(), passive) =~= Seq::<Seq<char>>::empty());
    assert(one.last() == names[0]);
    assert(classify(one.last()) is None);
    assert(listed(one, passive) =~= one);
    let two = names.subrange(0, 2);
    assert(two.drop_last() =~= one);
    assert(two.last() == names[1]);
    assert(listed(names.subrange(0, 2), passive) =~= names.subrange(0, 2));
    assert(listed(names, passive) =~= names);
    lemma_highest_die_example();
    if !passive {
        assert(chosen_features(p) =~= Seq::<Seq<char>>::empty());
        assert(levels_listing(names, passive, p) =~= seq!["foo-d8"@]);
    }
}

} // verus!
