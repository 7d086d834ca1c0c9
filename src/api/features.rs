use vstd::prelude::*;

use crate::text::{contains, has_infix, has_prefix, starts_with, str_eq};

verus! {
/// A feature that asks the player to pick among options before it takes effect.
#[derive(Debug, Clone, Copy, PartialEq, Eq, Structural)]
pub enum ChoosableCustomLevelFeature {
    /// Spend two points among the ability scores.
    AbilityScoreImprovement,
    HuntersPrey,
    DefensiveTactics,
    WarlockPact,
    AdditionalFighterFightingStyle,
    FighterFightingStyle,
    RangerFightingStyle,
    /// Bard and rogue expertise; no option is offered yet.
    MultiplyTwoSkillProficiency,
    /// Magical secrets; no option is offered yet.
    ChooseTwoSpellForAnyClass,
    /// Mystic arcanum; no option is offered yet.
    ChooseOne6thLevelSpellFromWarlockList,
    PaladinFightingStyle,
    Multiattack,
    SuperiorHuntersDefense,
    RangerFavoredEnemyType,
    RangerTerrainType,
    Metamagic,
    DragonAncestor,
}

/// An option that a player can pick for a [`ChoosableCustomLevelFeature`].
#[derive(Debug, Clone, Copy, PartialEq, Eq, Structural)]
pub enum ChoosableCustomLevelFeatureOption {
    StrengthPlusOne,
    DexterityPlusOne,
    ConstitutionPlusOne,
    IntelligencePlusOne,
    WisdomPlusOne,
    CharismaPlusOne,
    PactOfTheChain,
    PactOfTheBlade,
    PactOfTheTome,
    FighterFightingStyleArchery,
    FighterFightingStyleDefense,
    FighterFightingStyleDueling,
    FighterFightingStyleGreatWeaponFighting,
    FighterFightingStyleProtection,
    FighterFightingStyleTwoWeaponFighting,
    RangerFightingStyleArchery,
    RangerFightingStyleDefense,
    RangerFightingStyleDueling,
    RangerFightingStyleTwoWeaponFighting,
    RangerTerrainTypeArctic,
    RangerTerrainTypeCoast,
    RangerTerrainTypeDesert,
    RangerTerrainTypeForest,
    RangerTerrainTypeGrassland,
    RangerTerrainTypeMountain,
    RangerTerrainTypeSwamp,
    RangerFavoredEnemyTypeAberrations,
    RangerFavoredEnemyTypeBeasts,
    RangerFavoredEnemyTypeCelestials,
    RangerFavoredEnemyTypeConstructs,
    RangerFavoredEnemyTypeDragons,
    RangerFavoredEnemyTypeElementals,
    RangerFavoredEnemyTypeFey,
    RangerFavoredEnemyTypeFiends,
    RangerFavoredEnemyTypeGiants,
    RangerFavoredEnemyTypeMonstrosities,
    RangerFavoredEnemyTypeOozes,
    RangerFavoredEnemyTypePlants,
    RangerFavoredEnemyTypeUndead,
    RangerFavoredEnemyTypeHumanoids,
    FightingStyleDefense,
    FightingStyleDueling,
    FightingStyleGreatWeaponFighting,
    FightingStyleProtection,
    HuntersPreyGiantKiller,
    HuntersPreyHordeBreaker,
    HuntersPreyColossusSlayer,
    DefensiveTacticsSteelWill,
    DefensiveTacticsEscapeTheHorde,
    DefensiveTacticsMultiattackDefense,
    MultiattackVolley,
    MultiattackWhirlwindAttack,
    SuperiorHuntersDefenseEvasion,
    SuperiorHuntersDefenseStandAgainstTheTide,
    SuperiorHuntersDefenseUncannyDodge,
    MetamagicCarefulSpell,
    MetamagicDistantSpell,
    MetamagicEmpoweredSpell,
    MetamagicExtendedSpell,
    MetamagicHeightenedSpell,
    MetamagicQuickenedSpell,
    MetamagicSubtleSpell,
    MetamagicTwinnedSpell,
    DragonAncestorBlackAcidDamage,
    DragonAncestorBlueLightningDamage,
    DragonAncestorBrassFireDamage,
    DragonAncestorBronzeLightningDamage,
    DragonAncestorCopperAcidDamage,
    DragonAncestorGoldFireDamage,
    DragonAncestorGreenPoisonDamage,
    DragonAncestorRedFireDamage,
    DragonAncestorSilverColdDamage,
    DragonAncestorWhiteColdDamage,
}

impl ChoosableCustomLevelFeatureOption {
    /// The kebab-case identifier of the option.
    pub open spec fn index_spec(self) -> Seq<char> {
        match self {
            ChoosableCustomLevelFeatureOption::StrengthPlusOne => "strength-plus-one"@,
            ChoosableCustomLevelFeatureOption::DexterityPlusOne => "dexterity-plus-one"@,
            ChoosableCustomLevelFeatureOption::ConstitutionPlusOne => "constitution-plus-one"@,
            ChoosableCustomLevelFeatureOption::IntelligencePlusOne => "intelligence-plus-one"@,
            ChoosableCustomLevelFeatureOption::WisdomPlusOne => "wisdom-plus-one"@,
            ChoosableCustomLevelFeatureOption::CharismaPlusOne => "charisma-plus-one"@,
            ChoosableCustomLevelFeatureOption::PactOfTheChain => "pact-of-the-chain"@,
            ChoosableCustomLevelFeatureOption::PactOfTheBlade => "pact-of-the-blade"@,
            ChoosableCustomLevelFeatureOption::PactOfTheTome => "pact-of-the-tome"@,
            ChoosableCustomLevelFeatureOption::FighterFightingStyleArchery => "fighter-fighting-style-archery"@,
            ChoosableCustomLevelFeatureOption::FighterFightingStyleDefense => "fighter-fighting-style-defense"@,
            ChoosableCustomLevelFeatureOption::FighterFightingStyleDueling => "fighter-fighting-style-dueling"@,
            ChoosableCustomLevelFeatureOption::FighterFightingStyleGreatWeaponFighting => "fighter-fighting-style-great-weapon-fighting"@,
            ChoosableCustomLevelFeatureOption::FighterFightingStyleProtection => "fighter-fighting-style-protection"@,
            ChoosableCustomLevelFeatureOption::FighterFightingStyleTwoWeaponFighting => "fighter-fighting-style-two-weapon-fighting"@,
            ChoosableCustomLevelFeatureOption::RangerFightingStyleArchery => "ranger-fighting-style-archery"@,
            ChoosableCustomLevelFeatureOption::RangerFightingStyleDefense => "ranger-fighting-style-defense"@,
            ChoosableCustomLevelFeatureOption::RangerFightingStyleDueling => "ranger-fighting-style-dueling"@,
            ChoosableCustomLevelFeatureOption::RangerFightingStyleTwoWeaponFighting => "ranger-fighting-style-two-weapon-fighting"@,
            ChoosableCustomLevelFeatureOption::RangerTerrainTypeArctic => "ranger-terrain-type-arctic"@,
            ChoosableCustomLevelFeatureOption::RangerTerrainTypeCoast => "ranger-terrain-type-coast"@,
            ChoosableCustomLevelFeatureOption::RangerTerrainTypeDesert => "ranger-terrain-type-desert"@,
            ChoosableCustomLevelFeatureOption::RangerTerrainTypeForest => "ranger-terrain-type-forest"@,
            ChoosableCustomLevelFeatureOption::RangerTerrainTypeGrassland => "ranger-terrain-type-grassland"@,
            ChoosableCustomLevelFeatureOption::RangerTerrainTypeMountain => "ranger-terrain-type-mountain"@,
            ChoosableCustomLevelFeatureOption::RangerTerrainTypeSwamp => "ranger-terrain-type-swamp"@,
            ChoosableCustomLevelFeatureOption::RangerFavoredEnemyTypeAberrations => "ranger-favored-enemy-type-aberrations"@,
            ChoosableCustomLevelFeatureOption::RangerFavoredEnemyTypeBeasts => "ranger-favored-enemy-type-beasts"@,
            ChoosableCustomLevelFeatureOption::RangerFavoredEnemyTypeCelestials => "ranger-favored-enemy-type-celestials"@,
            ChoosableCustomLevelFeatureOption::RangerFavoredEnemyTypeConstructs => "ranger-favored-enemy-type-constructs"@,
            ChoosableCustomLevelFeatureOption::RangerFavoredEnemyTypeDragons => "ranger-favored-enemy-type-dragons"@,
            ChoosableCustomLevelFeatureOption::RangerFavoredEnemyTypeElementals => "ranger-favored-enemy-type-elementals"@,
            ChoosableCustomLevelFeatureOption::RangerFavoredEnemyTypeFey => "ranger-favored-enemy-type-fey"@,
            ChoosableCustomLevelFeatureOption::RangerFavoredEnemyTypeFiends => "ranger-favored-enemy-type-fiends"@,
            ChoosableCustomLevelFeatureOption::RangerFavoredEnemyTypeGiants => "ranger-favored-enemy-type-giants"@,
            ChoosableCustomLevelFeatureOption::RangerFavoredEnemyTypeMonstrosities => "ranger-favored-enemy-type-monstrosities"@,
            ChoosableCustomLevelFeatureOption::RangerFavoredEnemyTypeOozes => "ranger-favored-enemy-type-oozes"@,
            ChoosableCustomLevelFeatureOption::RangerFavoredEnemyTypePlants => "ranger-favored-enemy-type-plants"@,
            ChoosableCustomLevelFeatureOption::RangerFavoredEnemyTypeUndead => "ranger-favored-enemy-type-undead"@,
            ChoosableCustomLevelFeatureOption::RangerFavoredEnemyTypeHumanoids => "ranger-favored-enemy-type-humanoids"@,
            ChoosableCustomLevelFeatureOption::FightingStyleDefense => "fighting-style-defense"@,
            ChoosableCustomLevelFeatureOption::FightingStyleDueling => "fighting-style-dueling"@,
            ChoosableCustomLevelFeatureOption::FightingStyleGreatWeaponFighting => "fighting-style-great-weapon-fighting"@,
            ChoosableCustomLevelFeatureOption::FightingStyleProtection => "fighting-style-protection"@,
            ChoosableCustomLevelFeatureOption::HuntersPreyGiantKiller => "hunters-prey-giant-killer"@,
            ChoosableCustomLevelFeatureOption::HuntersPreyHordeBreaker => "hunters-prey-horde-breaker"@,
            ChoosableCustomLevelFeatureOption::HuntersPreyColossusSlayer => "hunters-prey-colossus-slayer"@,
            ChoosableCustomLevelFeatureOption::DefensiveTacticsSteelWill => "defensive-tactics-steel-will"@,
            ChoosableCustomLevelFeatureOption::DefensiveTacticsEscapeTheHorde => "defensive-tactics-escape-the-horde"@,
            ChoosableCustomLevelFeatureOption::DefensiveTacticsMultiattackDefense => "defensive-tactics-multiattack-defense"@,
            ChoosableCustomLevelFeatureOption::MultiattackVolley => "multiattack-volley"@,
            ChoosableCustomLevelFeatureOption::MultiattackWhirlwindAttack => "multiattack-whirlwind-attack"@,
            ChoosableCustomLevelFeatureOption::SuperiorHuntersDefenseEvasion => "superior-hunters-defense-evasion"@,
            ChoosableCustomLevelFeatureOption::SuperiorHuntersDefenseStandAgainstTheTide => "superior-hunters-defense-stand-against-the-tide"@,
            ChoosableCustomLevelFeatureOption::SuperiorHuntersDefenseUncannyDodge => "superior-hunters-defense-uncanny-dodge"@,
            ChoosableCustomLevelFeatureOption::MetamagicCarefulSpell => "metamagic-careful-spell"@,
            ChoosableCustomLevelFeatureOption::MetamagicDistantSpell => "metamagic-distant-spell"@,
            ChoosableCustomLevelFeatureOption::MetamagicEmpoweredSpell => "metamagic-empowered-spell"@,
            ChoosableCustomLevelFeatureOption::MetamagicExtendedSpell => "metamagic-extended-spell"@,
            ChoosableCustomLevelFeatureOption::MetamagicHeightenedSpell => "metamagic-heightened-spell"@,
            ChoosableCustomLevelFeatureOption::MetamagicQuickenedSpell => "metamagic-quickened-spell"@,
            ChoosableCustomLevelFeatureOption::MetamagicSubtleSpell => "metamagic-subtle-spell"@,
            ChoosableCustomLevelFeatureOption::MetamagicTwinnedSpell => "metamagic-twinned-spell"@,
            ChoosableCustomLevelFeatureOption::DragonAncestorBlackAcidDamage => "dragon-ancestor-black---acid-damage"@,
            ChoosableCustomLevelFeatureOption::DragonAncestorBlueLightningDamage => "dragon-ancestor-blue---lightning-damage"@,
            ChoosableCustomLevelFeatureOption::DragonAncestorBrassFireDamage => "dragon-ancestor-brass---fire-damage"@,
            ChoosableCustomLevelFeatureOption::DragonAncestorBronzeLightningDamage => "dragon-ancestor-bronze---lightning-damage"@,
            ChoosableCustomLevelFeatureOption::DragonAncestorCopperAcidDamage => "dragon-ancestor-copper---acid-damage"@,
            ChoosableCustomLevelFeatureOption::DragonAncestorGoldFireDamage => "dragon-ancestor-gold---fire-damage"@,
            ChoosableCustomLevelFeatureOption::DragonAncestorGreenPoisonDamage => "dragon-ancestor-green---poison-damage"@,
            ChoosableCustomLevelFeatureOption::DragonAncestorRedFireDamage => "dragon-ancestor-red---fire-damage"@,
            ChoosableCustomLevelFeatureOption::DragonAncestorSilverColdDamage => "dragon-ancestor-silver---cold-damage"@,
            ChoosableCustomLevelFeatureOption::DragonAncestorWhiteColdDamage => "dragon-ancestor-white---cold-damage"@,
        }
    }

    /// The kebab-case identifier of the option.
    pub fn as_index_str(&self) -> (r: &'static str)
        ensures
            r@ == self.index_spec(),
    {
        match self {
            ChoosableCustomLevelFeatureOption::StrengthPlusOne => "strength-plus-one",
            ChoosableCustomLevelFeatureOption::DexterityPlusOne => "dexterity-plus-one",
            ChoosableCustomLevelFeatureOption::ConstitutionPlusOne => "constitution-plus-one",
            ChoosableCustomLevelFeatureOption::IntelligencePlusOne => "intelligence-plus-one",
            ChoosableCustomLevelFeatureOption::WisdomPlusOne => "wisdom-plus-one",
            ChoosableCustomLevelFeatureOption::CharismaPlusOne => "charisma-plus-one",
            ChoosableCustomLevelFeatureOption::PactOfTheChain => "pact-of-the-chain",
            ChoosableCustomLevelFeatureOption::PactOfTheBlade => "pact-of-the-blade",
            ChoosableCustomLevelFeatureOption::PactOfTheTome => "pact-of-the-tome",
            ChoosableCustomLevelFeatureOption::FighterFightingStyleArchery => "fighter-fighting-style-archery",
            ChoosableCustomLevelFeatureOption::FighterFightingStyleDefense => "fighter-fighting-style-defense",
            ChoosableCustomLevelFeatureOption::FighterFightingStyleDueling => "fighter-fighting-style-dueling",
            ChoosableCustomLevelFeatureOption::FighterFightingStyleGreatWeaponFighting => "fighter-fighting-style-great-weapon-fighting",
            ChoosableCustomLevelFeatureOption::FighterFightingStyleProtection => "fighter-fighting-style-protection",
            ChoosableCustomLevelFeatureOption::FighterFightingStyleTwoWeaponFighting => "fighter-fighting-style-two-weapon-fighting",
            ChoosableCustomLevelFeatureOption::RangerFightingStyleArchery => "ranger-fighting-style-archery",
            ChoosableCustomLevelFeatureOption::RangerFightingStyleDefense => "ranger-fighting-style-defense",
            ChoosableCustomLevelFeatureOption::RangerFightingStyleDueling => "ranger-fighting-style-dueling",
            ChoosableCustomLevelFeatureOption::RangerFightingStyleTwoWeaponFighting => "ranger-fighting-style-two-weapon-fighting",
            ChoosableCustomLevelFeatureOption::RangerTerrainTypeArctic => "ranger-terrain-type-arctic",
            ChoosableCustomLevelFeatureOption::RangerTerrainTypeCoast => "ranger-terrain-type-coast",
            ChoosableCustomLevelFeatureOption::RangerTerrainTypeDesert => "ranger-terrain-type-desert",
            ChoosableCustomLevelFeatureOption::RangerTerrainTypeForest => "ranger-terrain-type-forest",
            ChoosableCustomLevelFeatureOption::RangerTerrainTypeGrassland => "ranger-terrain-type-grassland",
            ChoosableCustomLevelFeatureOption::RangerTerrainTypeMountain => "ranger-terrain-type-mountain",
            ChoosableCustomLevelFeatureOption::RangerTerrainTypeSwamp => "ranger-terrain-type-swamp",
            ChoosableCustomLevelFeatureOption::RangerFavoredEnemyTypeAberrations => "ranger-favored-enemy-type-aberrations",
            ChoosableCustomLevelFeatureOption::RangerFavoredEnemyTypeBeasts => "ranger-favored-enemy-type-beasts",
            ChoosableCustomLevelFeatureOption::RangerFavoredEnemyTypeCelestials => "ranger-favored-enemy-type-celestials",
            ChoosableCustomLevelFeatureOption::RangerFavoredEnemyTypeConstructs => "ranger-favored-enemy-type-constructs",
            ChoosableCustomLevelFeatureOption::RangerFavoredEnemyTypeDragons => "ranger-favored-enemy-type-dragons",
            ChoosableCustomLevelFeatureOption::RangerFavoredEnemyTypeElementals => "ranger-favored-enemy-type-elementals",
            ChoosableCustomLevelFeatureOption::RangerFavoredEnemyTypeFey => "ranger-favored-enemy-type-fey",
            ChoosableCustomLevelFeatureOption::RangerFavoredEnemyTypeFiends => "ranger-favored-enemy-type-fiends",
            ChoosableCustomLevelFeatureOption::RangerFavoredEnemyTypeGiants => "ranger-favored-enemy-type-giants",
            ChoosableCustomLevelFeatureOption::RangerFavoredEnemyTypeMonstrosities => "ranger-favored-enemy-type-monstrosities",
            ChoosableCustomLevelFeatureOption::RangerFavoredEnemyTypeOozes => "ranger-favored-enemy-type-oozes",
            ChoosableCustomLevelFeatureOption::RangerFavoredEnemyTypePlants => "ranger-favored-enemy-type-plants",
            ChoosableCustomLevelFeatureOption::RangerFavoredEnemyTypeUndead => "ranger-favored-enemy-type-undead",
            ChoosableCustomLevelFeatureOption::RangerFavoredEnemyTypeHumanoids => "ranger-favored-enemy-type-humanoids",
            ChoosableCustomLevelFeatureOption::FightingStyleDefense => "fighting-style-defense",
            ChoosableCustomLevelFeatureOption::FightingStyleDueling => "fighting-style-dueling",
            ChoosableCustomLevelFeatureOption::FightingStyleGreatWeaponFighting => "fighting-style-great-weapon-fighting",
            ChoosableCustomLevelFeatureOption::FightingStyleProtection => "fighting-style-protection",
            ChoosableCustomLevelFeatureOption::HuntersPreyGiantKiller => "hunters-prey-giant-killer",
            ChoosableCustomLevelFeatureOption::HuntersPreyHordeBreaker => "hunters-prey-horde-breaker",
            ChoosableCustomLevelFeatureOption::HuntersPreyColossusSlayer => "hunters-prey-colossus-slayer",
            ChoosableCustomLevelFeatureOption::DefensiveTacticsSteelWill => "defensive-tactics-steel-will",
            ChoosableCustomLevelFeatureOption::DefensiveTacticsEscapeTheHorde => "defensive-tactics-escape-the-horde",
            ChoosableCustomLevelFeatureOption::DefensiveTacticsMultiattackDefense => "defensive-tactics-multiattack-defense",
            ChoosableCustomLevelFeatureOption::MultiattackVolley => "multiattack-volley",
            ChoosableCustomLevelFeatureOption::MultiattackWhirlwindAttack => "multiattack-whirlwind-attack",
            ChoosableCustomLevelFeatureOption::SuperiorHuntersDefenseEvasion => "superior-hunters-defense-evasion",
            ChoosableCustomLevelFeatureOption::SuperiorHuntersDefenseStandAgainstTheTide => "superior-hunters-defense-stand-against-the-tide",
            ChoosableCustomLevelFeatureOption::SuperiorHuntersDefenseUncannyDodge => "superior-hunters-defense-uncanny-dodge",
            ChoosableCustomLevelFeatureOption::MetamagicCarefulSpell => "metamagic-careful-spell",
            ChoosableCustomLevelFeatureOption::MetamagicDistantSpell => "metamagic-distant-spell",
            ChoosableCustomLevelFeatureOption::MetamagicEmpoweredSpell => "metamagic-empowered-spell",
            ChoosableCustomLevelFeatureOption::MetamagicExtendedSpell => "metamagic-extended-spell",
            ChoosableCustomLevelFeatureOption::MetamagicHeightenedSpell => "metamagic-heightened-spell",
            ChoosableCustomLevelFeatureOption::MetamagicQuickenedSpell => "metamagic-quickened-spell",
            ChoosableCustomLevelFeatureOption::MetamagicSubtleSpell => "metamagic-subtle-spell",
            ChoosableCustomLevelFeatureOption::MetamagicTwinnedSpell => "metamagic-twinned-spell",
            ChoosableCustomLevelFeatureOption::DragonAncestorBlackAcidDamage => "dragon-ancestor-black---acid-damage",
            ChoosableCustomLevelFeatureOption::DragonAncestorBlueLightningDamage => "dragon-ancestor-blue---lightning-damage",
            ChoosableCustomLevelFeatureOption::DragonAncestorBrassFireDamage => "dragon-ancestor-brass---fire-damage",
            ChoosableCustomLevelFeatureOption::DragonAncestorBronzeLightningDamage => "dragon-ancestor-bronze---lightning-damage",
            ChoosableCustomLevelFeatureOption::DragonAncestorCopperAcidDamage => "dragon-ancestor-copper---acid-damage",
            ChoosableCustomLevelFeatureOption::DragonAncestorGoldFireDamage => "dragon-ancestor-gold---fire-damage",
            ChoosableCustomLevelFeatureOption::DragonAncestorGreenPoisonDamage => "dragon-ancestor-green---poison-damage",
            ChoosableCustomLevelFeatureOption::DragonAncestorRedFireDamage => "dragon-ancestor-red---fire-damage",
            ChoosableCustomLevelFeatureOption::DragonAncestorSilverColdDamage => "dragon-ancestor-silver---cold-damage",
            ChoosableCustomLevelFeatureOption::DragonAncestorWhiteColdDamage => "dragon-ancestor-white---cold-damage",
        }
    }

    /// The option whose identifier is `index`, if there is one.
    pub fn from_index_str(index: &str) -> (r: Option<ChoosableCustomLevelFeatureOption>)
        ensures
            match r {
                Some(o) => o.index_spec() == index@,
                None => forall|o: ChoosableCustomLevelFeatureOption| #[trigger] o.index_spec() != index@,
            },
    {
        if str_eq(index, "strength-plus-one") {
            return Some(ChoosableCustomLevelFeatureOption::StrengthPlusOne);
        }
        if str_eq(index, "dexterity-plus-one") {
            return Some(ChoosableCustomLevelFeatureOption::DexterityPlusOne);
        }
        if str_eq(index, "constitution-plus-one") {
            return Some(ChoosableCustomLevelFeatureOption::ConstitutionPlusOne);
        }
        if str_eq(index, "intelligence-plus-one") {
            return Some(ChoosableCustomLevelFeatureOption::IntelligencePlusOne);
        }
        if str_eq(index, "wisdom-plus-one") {
            return Some(ChoosableCustomLevelFeatureOption::WisdomPlusOne);
        }
        if str_eq(index, "charisma-plus-one") {
            return Some(ChoosableCustomLevelFeatureOption::CharismaPlusOne);
        }
        if str_eq(index, "pact-of-the-chain") {
            return Some(ChoosableCustomLevelFeatureOption::PactOfTheChain);
        }
        if str_eq(index, "pact-of-the-blade") {
            return Some(ChoosableCustomLevelFeatureOption::PactOfTheBlade);
        }
        if str_eq(index, "pact-of-the-tome") {
            return Some(ChoosableCustomLevelFeatureOption::PactOfTheTome);
        }
        if str_eq(index, "fighter-fighting-style-archery") {
            return Some(ChoosableCustomLevelFeatureOption::FighterFightingStyleArchery);
        }
        if str_eq(index, "fighter-fighting-style-defense") {
            return Some(ChoosableCustomLevelFeatureOption::FighterFightingStyleDefense);
        }
        if str_eq(index, "fighter-fighting-style-dueling") {
            return Some(ChoosableCustomLevelFeatureOption::FighterFightingStyleDueling);
        }
        if str_eq(index, "fighter-fighting-style-great-weapon-fighting") {
            return Some(ChoosableCustomLevelFeatureOption::FighterFightingStyleGreatWeaponFighting);
        }
        if str_eq(index, "fighter-fighting-style-protection") {
            return Some(ChoosableCustomLevelFeatureOption::FighterFightingStyleProtection);
        }
        if str_eq(index, "fighter-fighting-style-two-weapon-fighting") {
            return Some(ChoosableCustomLevelFeatureOption::FighterFightingStyleTwoWeaponFighting);
        }
        if str_eq(index, "ranger-fighting-style-archery") {
            return Some(ChoosableCustomLevelFeatureOption::RangerFightingStyleArchery);
        }
        if str_eq(index, "ranger-fighting-style-defense") {
            return Some(ChoosableCustomLevelFeatureOption::RangerFightingStyleDefense);
        }
        if str_eq(index, "ranger-fighting-style-dueling") {
            return Some(ChoosableCustomLevelFeatureOption::RangerFightingStyleDueling);
        }
        if str_eq(index, "ranger-fighting-style-two-weapon-fighting") {
            return Some(ChoosableCustomLevelFeatureOption::RangerFightingStyleTwoWeaponFighting);
        }
        if str_eq(index, "ranger-terrain-type-arctic") {
            return Some(ChoosableCustomLevelFeatureOption::RangerTerrainTypeArctic);
        }
        if str_eq(index, "ranger-terrain-type-coast") {
            return Some(ChoosableCustomLevelFeatureOption::RangerTerrainTypeCoast);
        }
        if str_eq(index, "ranger-terrain-type-desert") {
            return Some(ChoosableCustomLevelFeatureOption::RangerTerrainTypeDesert);
        }
        if str_eq(index, "ranger-terrain-type-forest") {
            return Some(ChoosableCustomLevelFeatureOption::RangerTerrainTypeForest);
        }
        if str_eq(index, "ranger-terrain-type-grassland") {
            return Some(ChoosableCustomLevelFeatureOption::RangerTerrainTypeGrassland);
        }
        if str_eq(index, "ranger-terrain-type-mountain") {
            return Some(ChoosableCustomLevelFeatureOption::RangerTerrainTypeMountain);
        }
        if str_eq(index, "ranger-terrain-type-swamp") {
            return Some(ChoosableCustomLevelFeatureOption::RangerTerrainTypeSwamp);
        }
        if str_eq(index, "ranger-favored-enemy-type-aberrations") {
            return Some(ChoosableCustomLevelFeatureOption::RangerFavoredEnemyTypeAberrations);
        }
        if str_eq(index, "ranger-favored-enemy-type-beasts") {
            return Some(ChoosableCustomLevelFeatureOption::RangerFavoredEnemyTypeBeasts);
        }
        if str_eq(index, "ranger-favored-enemy-type-celestials") {
            return Some(ChoosableCustomLevelFeatureOption::RangerFavoredEnemyTypeCelestials);
        }
        if str_eq(index, "ranger-favored-enemy-type-constructs") {
            return Some(ChoosableCustomLevelFeatureOption::RangerFavoredEnemyTypeConstructs);
        }
        if str_eq(index, "ranger-favored-enemy-type-dragons") {
            return Some(ChoosableCustomLevelFeatureOption::RangerFavoredEnemyTypeDragons);
        }
        if str_eq(index, "ranger-favored-enemy-type-elementals") {
            return Some(ChoosableCustomLevelFeatureOption::RangerFavoredEnemyTypeElementals);
        }
        if str_eq(index, "ranger-favored-enemy-type-fey") {
            return Some(ChoosableCustomLevelFeatureOption::RangerFavoredEnemyTypeFey);
        }
        if str_eq(index, "ranger-favored-enemy-type-fiends") {
            return Some(ChoosableCustomLevelFeatureOption::RangerFavoredEnemyTypeFiends);
        }
        if str_eq(index, "ranger-favored-enemy-type-giants") {
            return Some(ChoosableCustomLevelFeatureOption::RangerFavoredEnemyTypeGiants);
        }
        if str_eq(index, "ranger-favored-enemy-type-monstrosities") {
            return Some(ChoosableCustomLevelFeatureOption::RangerFavoredEnemyTypeMonstrosities);
        }
        if str_eq(index, "ranger-favored-enemy-type-oozes") {
            return Some(ChoosableCustomLevelFeatureOption::RangerFavoredEnemyTypeOozes);
        }
        if str_eq(index, "ranger-favored-enemy-type-plants") {
            return Some(ChoosableCustomLevelFeatureOption::RangerFavoredEnemyTypePlants);
        }
        if str_eq(index, "ranger-favored-enemy-type-undead") {
            return Some(ChoosableCustomLevelFeatureOption::RangerFavoredEnemyTypeUndead);
        }
        if str_eq(index, "ranger-favored-enemy-type-humanoids") {
            return Some(ChoosableCustomLevelFeatureOption::RangerFavoredEnemyTypeHumanoids);
        }
        if str_eq(index, "fighting-style-defense") {
            return Some(ChoosableCustomLevelFeatureOption::FightingStyleDefense);
        }
        if str_eq(index, "fighting-style-dueling") {
            return Some(ChoosableCustomLevelFeatureOption::FightingStyleDueling);
        }
        if str_eq(index, "fighting-style-great-weapon-fighting") {
            return Some(ChoosableCustomLevelFeatureOption::FightingStyleGreatWeaponFighting);
        }
        if str_eq(index, "fighting-style-protection") {
            return Some(ChoosableCustomLevelFeatureOption::FightingStyleProtection);
        }
        if str_eq(index, "hunters-prey-giant-killer") {
            return Some(ChoosableCustomLevelFeatureOption::HuntersPreyGiantKiller);
        }
        if str_eq(index, "hunters-prey-horde-breaker") {
            return Some(ChoosableCustomLevelFeatureOption::HuntersPreyHordeBreaker);
        }
        if str_eq(index, "hunters-prey-colossus-slayer") {
            return Some(ChoosableCustomLevelFeatureOption::HuntersPreyColossusSlayer);
        }
        if str_eq(index, "defensive-tactics-steel-will") {
            return Some(ChoosableCustomLevelFeatureOption::DefensiveTacticsSteelWill);
        }
        if str_eq(index, "defensive-tactics-escape-the-horde") {
            return Some(ChoosableCustomLevelFeatureOption::DefensiveTacticsEscapeTheHorde);
        }
        if str_eq(index, "defensive-tactics-multiattack-defense") {
            return Some(ChoosableCustomLevelFeatureOption::DefensiveTacticsMultiattackDefense);
        }
        if str_eq(index, "multiattack-volley") {
            return Some(ChoosableCustomLevelFeatureOption::MultiattackVolley);
        }
        if str_eq(index, "multiattack-whirlwind-attack") {
            return Some(ChoosableCustomLevelFeatureOption::MultiattackWhirlwindAttack);
        }
        if str_eq(index, "superior-hunters-defense-evasion") {
            return Some(ChoosableCustomLevelFeatureOption::SuperiorHuntersDefenseEvasion);
        }
        if str_eq(index, "superior-hunters-defense-stand-against-the-tide") {
            return Some(ChoosableCustomLevelFeatureOption::SuperiorHuntersDefenseStandAgainstTheTide);
        }
        if str_eq(index, "superior-hunters-defense-uncanny-dodge") {
            return Some(ChoosableCustomLevelFeatureOption::SuperiorHuntersDefenseUncannyDodge);
        }
        if str_eq(index, "metamagic-careful-spell") {
            return Some(ChoosableCustomLevelFeatureOption::MetamagicCarefulSpell);
        }
        if str_eq(index, "metamagic-distant-spell") {
            return Some(ChoosableCustomLevelFeatureOption::MetamagicDistantSpell);
        }
        if str_eq(index, "metamagic-empowered-spell") {
            return Some(ChoosableCustomLevelFeatureOption::MetamagicEmpoweredSpell);
        }
        if str_eq(index, "metamagic-extended-spell") {
            return Some(ChoosableCustomLevelFeatureOption::MetamagicExtendedSpell);
        }
        if str_eq(index, "metamagic-heightened-spell") {
            return Some(ChoosableCustomLevelFeatureOption::MetamagicHeightenedSpell);
        }
        if str_eq(index, "metamagic-quickened-spell") {
            return Some(ChoosableCustomLevelFeatureOption::MetamagicQuickenedSpell);
        }
        if str_eq(index, "metamagic-subtle-spell") {
            return Some(ChoosableCustomLevelFeatureOption::MetamagicSubtleSpell);
        }
        if str_eq(index, "metamagic-twinned-spell") {
            return Some(ChoosableCustomLevelFeatureOption::MetamagicTwinnedSpell);
        }
        if str_eq(index, "dragon-ancestor-black---acid-damage") {
            return Some(ChoosableCustomLevelFeatureOption::DragonAncestorBlackAcidDamage);
        }
        if str_eq(index, "dragon-ancestor-blue---lightning-damage") {
            return Some(ChoosableCustomLevelFeatureOption::DragonAncestorBlueLightningDamage);
        }
        if str_eq(index, "dragon-ancestor-brass---fire-damage") {
            return Some(ChoosableCustomLevelFeatureOption::DragonAncestorBrassFireDamage);
        }
        if str_eq(index, "dragon-ancestor-bronze---lightning-damage") {
            return Some(ChoosableCustomLevelFeatureOption::DragonAncestorBronzeLightningDamage);
        }
        if str_eq(index, "dragon-ancestor-copper---acid-damage") {
            return Some(ChoosableCustomLevelFeatureOption::DragonAncestorCopperAcidDamage);
        }
        if str_eq(index, "dragon-ancestor-gold---fire-damage") {
            return Some(ChoosableCustomLevelFeatureOption::DragonAncestorGoldFireDamage);
        }
        if str_eq(index, "dragon-ancestor-green---poison-damage") {
            return Some(ChoosableCustomLevelFeatureOption::DragonAncestorGreenPoisonDamage);
        }
        if str_eq(index, "dragon-ancestor-red---fire-damage") {
            return Some(ChoosableCustomLevelFeatureOption::DragonAncestorRedFireDamage);
        }
        if str_eq(index, "dragon-ancestor-silver---cold-damage") {
            return Some(ChoosableCustomLevelFeatureOption::DragonAncestorSilverColdDamage);
        }
        if str_eq(index, "dragon-ancestor-white---cold-damage") {
            return Some(ChoosableCustomLevelFeatureOption::DragonAncestorWhiteColdDamage);
        }
        assert forall|o: ChoosableCustomLevelFeatureOption| #[trigger] o.index_spec() != index@ by {
        }
        None
    }
}

impl ChoosableCustomLevelFeature {
    /// The camelCase identifier of the feature.
    pub open spec fn index_spec(self) -> Seq<char> {
        match self {
            ChoosableCustomLevelFeature::AbilityScoreImprovement => "abilityScoreImprovement"@,
            ChoosableCustomLevelFeature::HuntersPrey => "huntersPrey"@,
            ChoosableCustomLevelFeature::DefensiveTactics => "defensiveTactics"@,
            ChoosableCustomLevelFeature::WarlockPact => "warlockPact"@,
            ChoosableCustomLevelFeature::AdditionalFighterFightingStyle => "additionalFighterFightingStyle"@,
            ChoosableCustomLevelFeature::FighterFightingStyle => "fighterFightingStyle"@,
            ChoosableCustomLevelFeature::RangerFightingStyle => "rangerFightingStyle"@,
            ChoosableCustomLevelFeature::MultiplyTwoSkillProficiency => "multiplyTwoSkillProficiency"@,
            ChoosableCustomLevelFeature::ChooseTwoSpellForAnyClass => "chooseTwoSpellForAnyClass"@,
            ChoosableCustomLevelFeature::ChooseOne6thLevelSpellFromWarlockList => "chooseOne6thLevelSpellFromWarlockList"@,
            ChoosableCustomLevelFeature::PaladinFightingStyle => "paladinFightingStyle"@,
            ChoosableCustomLevelFeature::Multiattack => "multiattack"@,
            ChoosableCustomLevelFeature::SuperiorHuntersDefense => "superiorHuntersDefense"@,
            ChoosableCustomLevelFeature::RangerFavoredEnemyType => "rangerFavoredEnemyType"@,
            ChoosableCustomLevelFeature::RangerTerrainType => "rangerTerrainType"@,
            ChoosableCustomLevelFeature::Metamagic => "metamagic"@,
            ChoosableCustomLevelFeature::DragonAncestor => "dragonAncestor"@,
        }
    }

    /// The camelCase identifier of the feature.
    pub fn as_index_str(&self) -> (r: &'static str)
        ensures
            r@ == self.index_spec(),
    {
        match self {
            ChoosableCustomLevelFeature::AbilityScoreImprovement => "abilityScoreImprovement",
            ChoosableCustomLevelFeature::HuntersPrey => "huntersPrey",
            ChoosableCustomLevelFeature::DefensiveTactics => "defensiveTactics",
            ChoosableCustomLevelFeature::WarlockPact => "warlockPact",
            ChoosableCustomLevelFeature::AdditionalFighterFightingStyle => "additionalFighterFightingStyle",
            ChoosableCustomLevelFeature::FighterFightingStyle => "fighterFightingStyle",
            ChoosableCustomLevelFeature::RangerFightingStyle => "rangerFightingStyle",
            ChoosableCustomLevelFeature::MultiplyTwoSkillProficiency => "multiplyTwoSkillProficiency",
            ChoosableCustomLevelFeature::ChooseTwoSpellForAnyClass => "chooseTwoSpellForAnyClass",
            ChoosableCustomLevelFeature::ChooseOne6thLevelSpellFromWarlockList => "chooseOne6thLevelSpellFromWarlockList",
            ChoosableCustomLevelFeature::PaladinFightingStyle => "paladinFightingStyle",
            ChoosableCustomLevelFeature::Multiattack => "multiattack",
            ChoosableCustomLevelFeature::SuperiorHuntersDefense => "superiorHuntersDefense",
            ChoosableCustomLevelFeature::RangerFavoredEnemyType => "rangerFavoredEnemyType",
            ChoosableCustomLevelFeature::RangerTerrainType => "rangerTerrainType",
            ChoosableCustomLevelFeature::Metamagic => "metamagic",
            ChoosableCustomLevelFeature::DragonAncestor => "dragonAncestor",
        }
    }
}

impl ChoosableCustomLevelFeature {
    /// The option groups of the feature, in order; the player picks one option of each group.
    /// A feature whose options are not modelled yet has a single empty group.
    pub open spec fn options_spec(self) -> Seq<Seq<ChoosableCustomLevelFeatureOption>> {
        match self {
            ChoosableCustomLevelFeature::AbilityScoreImprovement => {
                let g = seq![ChoosableCustomLevelFeatureOption::StrengthPlusOne, ChoosableCustomLevelFeatureOption::DexterityPlusOne, ChoosableCustomLevelFeatureOption::ConstitutionPlusOne, ChoosableCustomLevelFeatureOption::IntelligencePlusOne, ChoosableCustomLevelFeatureOption::WisdomPlusOne, ChoosableCustomLevelFeatureOption::CharismaPlusOne];
                seq![g, g]
            },
            ChoosableCustomLevelFeature::WarlockPact => seq![seq![ChoosableCustomLevelFeatureOption::PactOfTheChain, ChoosableCustomLevelFeatureOption::PactOfTheBlade, ChoosableCustomLevelFeatureOption::PactOfTheTome]],
            ChoosableCustomLevelFeature::AdditionalFighterFightingStyle | ChoosableCustomLevelFeature::FighterFightingStyle => seq![seq![ChoosableCustomLevelFeatureOption::FighterFightingStyleArchery, ChoosableCustomLevelFeatureOption::FighterFightingStyleDefense, ChoosableCustomLevelFeatureOption::FighterFightingStyleDueling, ChoosableCustomLevelFeatureOption::FighterFightingStyleGreatWeaponFighting, ChoosableCustomLevelFeatureOption::FighterFightingStyleProtection, ChoosableCustomLevelFeatureOption::FighterFightingStyleTwoWeaponFighting]],
            ChoosableCustomLevelFeature::RangerFightingStyle => seq![seq![ChoosableCustomLevelFeatureOption::RangerFightingStyleArchery, ChoosableCustomLevelFeatureOption::RangerFightingStyleDefense, ChoosableCustomLevelFeatureOption::RangerFightingStyleDueling, ChoosableCustomLevelFeatureOption::RangerFightingStyleTwoWeaponFighting]],
            ChoosableCustomLevelFeature::MultiplyTwoSkillProficiency | ChoosableCustomLevelFeature::ChooseTwoSpellForAnyClass | ChoosableCustomLevelFeature::ChooseOne6thLevelSpellFromWarlockList => seq![Seq::empty()],
            ChoosableCustomLevelFeature::PaladinFightingStyle => seq![seq![ChoosableCustomLevelFeatureOption::FightingStyleDefense, ChoosableCustomLevelFeatureOption::FightingStyleDueling, ChoosableCustomLevelFeatureOption::FightingStyleGreatWeaponFighting, ChoosableCustomLevelFeatureOption::FightingStyleProtection]],
            ChoosableCustomLevelFeature::HuntersPrey => seq![seq![ChoosableCustomLevelFeatureOption::HuntersPreyGiantKiller, ChoosableCustomLevelFeatureOption::HuntersPreyHordeBreaker, ChoosableCustomLevelFeatureOption::HuntersPreyColossusSlayer]],
            ChoosableCustomLevelFeature::DefensiveTactics => seq![seq![ChoosableCustomLevelFeatureOption::DefensiveTacticsSteelWill, ChoosableCustomLevelFeatureOption::DefensiveTacticsEscapeTheHorde, ChoosableCustomLevelFeatureOption::DefensiveTacticsMultiattackDefense]],
            ChoosableCustomLevelFeature::Multiattack => seq![seq![ChoosableCustomLevelFeatureOption::MultiattackWhirlwindAttack, ChoosableCustomLevelFeatureOption::MultiattackVolley]],
            ChoosableCustomLevelFeature::SuperiorHuntersDefense => seq![seq![ChoosableCustomLevelFeatureOption::SuperiorHuntersDefenseEvasion, ChoosableCustomLevelFeatureOption::SuperiorHuntersDefenseStandAgainstTheTide, ChoosableCustomLevelFeatureOption::SuperiorHuntersDefenseUncannyDodge]],
            ChoosableCustomLevelFeature::RangerFavoredEnemyType => seq![seq![ChoosableCustomLevelFeatureOption::RangerFavoredEnemyTypeAberrations, ChoosableCustomLevelFeatureOption::RangerFavoredEnemyTypeBeasts, ChoosableCustomLevelFeatureOption::RangerFavoredEnemyTypeCelestials, ChoosableCustomLevelFeatureOption::RangerFavoredEnemyTypeConstructs, ChoosableCustomLevelFeatureOption::RangerFavoredEnemyTypeDragons, ChoosableCustomLevelFeatureOption::RangerFavoredEnemyTypeElementals, ChoosableCustomLevelFeatureOption::RangerFavoredEnemyTypeFey, ChoosableCustomLevelFeatureOption::RangerFavoredEnemyTypeFiends, ChoosableCustomLevelFeatureOption::RangerFavoredEnemyTypeGiants, ChoosableCustomLevelFeatureOption::RangerFavoredEnemyTypeMonstrosities, ChoosableCustomLevelFeatureOption::RangerFavoredEnemyTypeOozes, ChoosableCustomLevelFeatureOption::RangerFavoredEnemyTypePlants, ChoosableCustomLevelFeatureOption::RangerFavoredEnemyTypeUndead, ChoosableCustomLevelFeatureOption::RangerFavoredEnemyTypeHumanoids]],
            ChoosableCustomLevelFeature::RangerTerrainType => seq![seq![ChoosableCustomLevelFeatureOption::RangerTerrainTypeArctic, ChoosableCustomLevelFeatureOption::RangerTerrainTypeCoast, ChoosableCustomLevelFeatureOption::RangerTerrainTypeDesert, ChoosableCustomLevelFeatureOption::RangerTerrainTypeForest, ChoosableCustomLevelFeatureOption::RangerTerrainTypeGrassland, ChoosableCustomLevelFeatureOption::RangerTerrainTypeMountain, ChoosableCustomLevelFeatureOption::RangerTerrainTypeSwamp]],
            ChoosableCustomLevelFeature::Metamagic => {
                let g = seq![ChoosableCustomLevelFeatureOption::MetamagicCarefulSpell, ChoosableCustomLevelFeatureOption::MetamagicDistantSpell, ChoosableCustomLevelFeatureOption::MetamagicEmpoweredSpell, ChoosableCustomLevelFeatureOption::MetamagicExtendedSpell, ChoosableCustomLevelFeatureOption::MetamagicHeightenedSpell, ChoosableCustomLevelFeatureOption::MetamagicQuickenedSpell, ChoosableCustomLevelFeatureOption::MetamagicSubtleSpell, ChoosableCustomLevelFeatureOption::MetamagicTwinnedSpell];
                seq![g, g]
            },
            ChoosableCustomLevelFeature::DragonAncestor => seq![seq![ChoosableCustomLevelFeatureOption::DragonAncestorBlackAcidDamage, ChoosableCustomLevelFeatureOption::DragonAncestorBlueLightningDamage, ChoosableCustomLevelFeatureOption::DragonAncestorBrassFireDamage, ChoosableCustomLevelFeatureOption::DragonAncestorBronzeLightningDamage, ChoosableCustomLevelFeatureOption::DragonAncestorCopperAcidDamage, ChoosableCustomLevelFeatureOption::DragonAncestorGoldFireDamage, ChoosableCustomLevelFeatureOption::DragonAncestorGreenPoisonDamage, ChoosableCustomLevelFeatureOption::DragonAncestorRedFireDamage, ChoosableCustomLevelFeatureOption::DragonAncestorSilverColdDamage, ChoosableCustomLevelFeatureOption::DragonAncestorWhiteColdDamage]],
        }
    }

    /// The option groups of the feature, in order.
    pub fn to_options(&self) -> (r: Vec<Vec<ChoosableCustomLevelFeatureOption>>)
        ensures
            r@.len() == self.options_spec().len(),
            forall|i: int| 0 <= i < r@.len() ==> #[trigger] r@[i]@ == self.options_spec()[i],
    {
        let r = match self {
            ChoosableCustomLevelFeature::AbilityScoreImprovement => {
                let g = vec![ChoosableCustomLevelFeatureOption::StrengthPlusOne, ChoosableCustomLevelFeatureOption::DexterityPlusOne, ChoosableCustomLevelFeatureOption::ConstitutionPlusOne, ChoosableCustomLevelFeatureOption::IntelligencePlusOne, ChoosableCustomLevelFeatureOption::WisdomPlusOne, ChoosableCustomLevelFeatureOption::CharismaPlusOne];
                vec![g.clone(), g]
            },
            ChoosableCustomLevelFeature::WarlockPact => vec![vec![ChoosableCustomLevelFeatureOption::PactOfTheChain, ChoosableCustomLevelFeatureOption::PactOfTheBlade, ChoosableCustomLevelFeatureOption::PactOfTheTome]],
            ChoosableCustomLevelFeature::AdditionalFighterFightingStyle | ChoosableCustomLevelFeature::FighterFightingStyle => vec![vec![ChoosableCustomLevelFeatureOption::FighterFightingStyleArchery, ChoosableCustomLevelFeatureOption::FighterFightingStyleDefense, ChoosableCustomLevelFeatureOption::FighterFightingStyleDueling, ChoosableCustomLevelFeatureOption::FighterFightingStyleGreatWeaponFighting, ChoosableCustomLevelFeatureOption::FighterFightingStyleProtection, ChoosableCustomLevelFeatureOption::FighterFightingStyleTwoWeaponFighting]],
            ChoosableCustomLevelFeature::RangerFightingStyle => vec![vec![ChoosableCustomLevelFeatureOption::RangerFightingStyleArchery, ChoosableCustomLevelFeatureOption::RangerFightingStyleDefense, ChoosableCustomLevelFeatureOption::RangerFightingStyleDueling, ChoosableCustomLevelFeatureOption::RangerFightingStyleTwoWeaponFighting]],
            ChoosableCustomLevelFeature::MultiplyTwoSkillProficiency | ChoosableCustomLevelFeature::ChooseTwoSpellForAnyClass | ChoosableCustomLevelFeature::ChooseOne6thLevelSpellFromWarlockList => vec![Vec::new()],
            ChoosableCustomLevelFeature::PaladinFightingStyle => vec![vec![ChoosableCustomLevelFeatureOption::FightingStyleDefense, ChoosableCustomLevelFeatureOption::FightingStyleDueling, ChoosableCustomLevelFeatureOption::FightingStyleGreatWeaponFighting, ChoosableCustomLevelFeatureOption::FightingStyleProtection]],
            ChoosableCustomLevelFeature::HuntersPrey => vec![vec![ChoosableCustomLevelFeatureOption::HuntersPreyGiantKiller, ChoosableCustomLevelFeatureOption::HuntersPreyHordeBreaker, ChoosableCustomLevelFeatureOption::HuntersPreyColossusSlayer]],
            ChoosableCustomLevelFeature::DefensiveTactics => vec![vec![ChoosableCustomLevelFeatureOption::DefensiveTacticsSteelWill, ChoosableCustomLevelFeatureOption::DefensiveTacticsEscapeTheHorde, ChoosableCustomLevelFeatureOption::DefensiveTacticsMultiattackDefense]],
            ChoosableCustomLevelFeature::Multiattack => vec![vec![ChoosableCustomLevelFeatureOption::MultiattackWhirlwindAttack, ChoosableCustomLevelFeatureOption::MultiattackVolley]],
            ChoosableCustomLevelFeature::SuperiorHuntersDefense => vec![vec![ChoosableCustomLevelFeatureOption::SuperiorHuntersDefenseEvasion, ChoosableCustomLevelFeatureOption::SuperiorHuntersDefenseStandAgainstTheTide, ChoosableCustomLevelFeatureOption::SuperiorHuntersDefenseUncannyDodge]],
            ChoosableCustomLevelFeature::RangerFavoredEnemyType => vec![vec![ChoosableCustomLevelFeatureOption::RangerFavoredEnemyTypeAberrations, ChoosableCustomLevelFeatureOption::RangerFavoredEnemyTypeBeasts, ChoosableCustomLevelFeatureOption::RangerFavoredEnemyTypeCelestials, ChoosableCustomLevelFeatureOption::RangerFavoredEnemyTypeConstructs, ChoosableCustomLevelFeatureOption::RangerFavoredEnemyTypeDragons, ChoosableCustomLevelFeatureOption::RangerFavoredEnemyTypeElementals, ChoosableCustomLevelFeatureOption::RangerFavoredEnemyTypeFey, ChoosableCustomLevelFeatureOption::RangerFavoredEnemyTypeFiends, ChoosableCustomLevelFeatureOption::RangerFavoredEnemyTypeGiants, ChoosableCustomLevelFeatureOption::RangerFavoredEnemyTypeMonstrosities, ChoosableCustomLevelFeatureOption::RangerFavoredEnemyTypeOozes, ChoosableCustomLevelFeatureOption::RangerFavoredEnemyTypePlants, ChoosableCustomLevelFeatureOption::RangerFavoredEnemyTypeUndead, ChoosableCustomLevelFeatureOption::RangerFavoredEnemyTypeHumanoids]],
            ChoosableCustomLevelFeature::RangerTerrainType => vec![vec![ChoosableCustomLevelFeatureOption::RangerTerrainTypeArctic, ChoosableCustomLevelFeatureOption::RangerTerrainTypeCoast, ChoosableCustomLevelFeatureOption::RangerTerrainTypeDesert, ChoosableCustomLevelFeatureOption::RangerTerrainTypeForest, ChoosableCustomLevelFeatureOption::RangerTerrainTypeGrassland, ChoosableCustomLevelFeatureOption::RangerTerrainTypeMountain, ChoosableCustomLevelFeatureOption::RangerTerrainTypeSwamp]],
            ChoosableCustomLevelFeature::Metamagic => {
                let g = vec![ChoosableCustomLevelFeatureOption::MetamagicCarefulSpell, ChoosableCustomLevelFeatureOption::MetamagicDistantSpell, ChoosableCustomLevelFeatureOption::MetamagicEmpoweredSpell, ChoosableCustomLevelFeatureOption::MetamagicExtendedSpell, ChoosableCustomLevelFeatureOption::MetamagicHeightenedSpell, ChoosableCustomLevelFeatureOption::MetamagicQuickenedSpell, ChoosableCustomLevelFeatureOption::MetamagicSubtleSpell, ChoosableCustomLevelFeatureOption::MetamagicTwinnedSpell];
                vec![g.clone(), g]
            },
            ChoosableCustomLevelFeature::DragonAncestor => vec![vec![ChoosableCustomLevelFeatureOption::DragonAncestorBlackAcidDamage, ChoosableCustomLevelFeatureOption::DragonAncestorBlueLightningDamage, ChoosableCustomLevelFeatureOption::DragonAncestorBrassFireDamage, ChoosableCustomLevelFeatureOption::DragonAncestorBronzeLightningDamage, ChoosableCustomLevelFeatureOption::DragonAncestorCopperAcidDamage, ChoosableCustomLevelFeatureOption::DragonAncestorGoldFireDamage, ChoosableCustomLevelFeatureOption::DragonAncestorGreenPoisonDamage, ChoosableCustomLevelFeatureOption::DragonAncestorRedFireDamage, ChoosableCustomLevelFeatureOption::DragonAncestorSilverColdDamage, ChoosableCustomLevelFeatureOption::DragonAncestorWhiteColdDamage]],
        };
        proof {
            assert(r@.len() == self.options_spec().len());
            assert forall|i: int| 0 <= i < r@.len() implies #[trigger] r@[i]@ =~= self.options_spec()[i] by {}
        }
        r
    }
}

/// A feature that changes the sheet by a fixed amount when it is reached.
#[derive(Debug, Clone, Copy, PartialEq, Eq, Structural)]
pub enum SheetLevelFeatureType {
    /// Strength and constitution each rise by four.
    PrimalChampion,
}

/// How a feature identifier bears on the character.
#[derive(Debug, Clone, Copy, PartialEq, Eq, Structural)]
pub enum CustomLevelFeatureType {
    /// The player has to pick options.
    Choosable(ChoosableCustomLevelFeature),
    /// The sheet changes by itself.
    Sheet(SheetLevelFeatureType),
    /// Applies by itself; listed only when passive features are asked for.
    Passive,
    /// Handled elsewhere or not modelled; never listed.
    Ignored,
}

/// Subclass choices: a class has a single subclass here, so these are not asked.
pub open spec fn is_subclass_choice(s: Seq<char>) -> bool {
    s == "bard-college"@
        || s == "divine-domain"@
        || s == "monastic-tradition"@
        || s == "sacred-oath"@
        || s == "ranger-archetype"@
        || s == "sorcerous-origin"@
        || s == "druid-circle"@
        || s == "primal-path"@
        || s == "martial-archetype"@
        || s == "roguish-archetype"@
        || s == "otherworldly-patron"@
}

fn is_subclass_choice_exec(s: &str) -> (r: bool)
    ensures
        r == is_subclass_choice(s@),
{
    str_eq(s, "bard-college")
        || str_eq(s, "divine-domain")
        || str_eq(s, "monastic-tradition")
        || str_eq(s, "sacred-oath")
        || str_eq(s, "ranger-archetype")
        || str_eq(s, "sorcerous-origin")
        || str_eq(s, "druid-circle")
        || str_eq(s, "primal-path")
        || str_eq(s, "martial-archetype")
        || str_eq(s, "roguish-archetype")
        || str_eq(s, "otherworldly-patron")
}

/// Features with no effect on the sheet that are left out of every listing.
pub open spec fn is_ignored_name(s: Seq<char>) -> bool {
    s == "additional-magical-secrets"@
        || s == "bonus-cantrip"@
        || s == "channel-divinity-1-rest"@
        || s == "channel-divinity-2-rest"@
        || s == "channel-divinity-3-rest"@
        || s == "magical-secrets-1"@
        || s == "magical-secrets-2"@
        || s == "magical-secrets-3"@
}

fn is_ignored_name_exec(s: &str) -> (r: bool)
    ensures
        r == is_ignored_name(s@),
{
    str_eq(s, "additional-magical-secrets")
        || str_eq(s, "bonus-cantrip")
        || str_eq(s, "channel-divinity-1-rest")
        || str_eq(s, "channel-divinity-2-rest")
        || str_eq(s, "channel-divinity-3-rest")
        || str_eq(s, "magical-secrets-1")
        || str_eq(s, "magical-secrets-2")
        || str_eq(s, "magical-secrets-3")
}

/// The mystic arcanum features, one per spell level from the sixth to the ninth.
pub open spec fn is_mystic_arcanum(s: Seq<char>) -> bool {
    s == "mystic-arcanum-6th-level"@
        || s == "mystic-arcanum-7th-level"@
        || s == "mystic-arcanum-8th-level"@
        || s == "mystic-arcanum-9th-level"@
}

fn is_mystic_arcanum_exec(s: &str) -> (r: bool)
    ensures
        r == is_mystic_arcanum(s@),
{
    str_eq(s, "mystic-arcanum-6th-level")
        || str_eq(s, "mystic-arcanum-7th-level")
        || str_eq(s, "mystic-arcanum-8th-level")
        || str_eq(s, "mystic-arcanum-9th-level")
}

/// Features that apply by themselves and are only shown in a passive listing.
pub open spec fn is_passive_name(s: Seq<char>) -> bool {
    s == "arcane-recovery"@
        || s == "arcane-tradition"@
        || s == "archdruid"@
        || s == "aura-improvements"@
        || s == "aura-of-courage"@
        || s == "aura-of-devotion"@
        || s == "aura-of-protection"@
        || s == "blessed-healer"@
        || s == "blindsense"@
        || s == "brutal-critical-1-dice"@
        || s == "brutal-critical-2-dice"@
        || s == "brutal-critical-3-dice"@
        || s == "danger-sense"@
        || s == "dark-ones-blessing"@
        || s == "dark-ones-own-luck"@
        || s == "destroy-undead-cr-1-or-below"@
        || s == "destroy-undead-cr-2-or-below"@
        || s == "destroy-undead-cr-3-or-below"@
        || s == "destroy-undead-cr-4-or-below"@
        || s == "destroy-undead-cr-1-2-or-below"@
        || s == "disciple-of-life"@
        || s == "divine-health"@
        || s == "draconic-resilience"@
        || s == "font-of-magic"@
        || s == "druid-lands-stride"@
        || s == "druid-timeless-body"@
        || s == "druidic"@
        || s == "elusive"@
        || s == "empowered-evocation"@
        || s == "fast-movement"@
        || s == "feral-instinct"@
        || s == "feral-senses"@
        || s == "foe-slayer"@
        || s == "hurl-through-hell"@
        || s == "improved-critical"@
        || s == "improved-divine-smite"@
        || s == "indomitable-1-use"@
        || s == "indomitable-2-uses"@
        || s == "indomitable-3-uses"@
        || s == "indomitable-might"@
        || s == "ki-empowered-strikes"@
        || s == "jack-of-all-trades"@
        || s == "martial-arts"@
        || s == "monk-evasion"@
        || s == "monk-timeless-body"@
        || s == "purity-of-body"@
        || s == "purity-of-spirit"@
        || s == "natures-sanctuary"@
        || s == "natures-ward"@
        || s == "sculpt-spells"@
        || s == "ranger-lands-stride"@
        || s == "relentless-rage"@
        || s == "reliable-talent"@
        || s == "remarkable-athlete"@
        || s == "rogue-evasion"@
        || s == "superior-critical"@
        || s == "superior-inspiration"@
        || s == "supreme-healing"@
        || s == "supreme-sneak"@
        || s == "survivor"@
        || s == "thiefs-reflexes"@
        || s == "thieves-cant"@
        || s == "tongue-of-the-sun-and-moon"@
        || s == "tranquility"@
        || s == "unarmored-movement-1"@
        || s == "unarmored-movement-2"@
        || s == "use-magic-device"@
        || s == "ki"@
        || s == "monk-unarmored-defense"@
        || s == "perfect-self"@
        || s == "slippery-mind"@
        || s == "mindless-rage"@
        || s == "barbarian-unarmored-defense"@
        || s == "divine-intervention-improvement"@
        || s == "persistent-rage"@
        || s == "evocation-savant"@
        || s == "overchannel"@
        || s == "potent-cantrip"@
        || s == "font-of-inspiration"@
        || s == "second-story-work"@
        || s == "primeval-awareness"@
        || s == "beast-spells"@
}

fn is_passive_name_exec(s: &str) -> (r: bool)
    ensures
        r == is_passive_name(s@),
{
    str_eq(s, "arcane-recovery")
        || str_eq(s, "arcane-tradition")
        || str_eq(s, "archdruid")
        || str_eq(s, "aura-improvements")
        || str_eq(s, "aura-of-courage")
        || str_eq(s, "aura-of-devotion")
        || str_eq(s, "aura-of-protection")
        || str_eq(s, "blessed-healer")
        || str_eq(s, "blindsense")
        || str_eq(s, "brutal-critical-1-dice")
        || str_eq(s, "brutal-critical-2-dice")
        || str_eq(s, "brutal-critical-3-dice")
        || str_eq(s, "danger-sense")
        || str_eq(s, "dark-ones-blessing")
        || str_eq(s, "dark-ones-own-luck")
        || str_eq(s, "destroy-undead-cr-1-or-below")
        || str_eq(s, "destroy-undead-cr-2-or-below")
        || str_eq(s, "destroy-undead-cr-3-or-below")
        || str_eq(s, "destroy-undead-cr-4-or-below")
        || str_eq(s, "destroy-undead-cr-1-2-or-below")
        || str_eq(s, "disciple-of-life")
        || str_eq(s, "divine-health")
        || str_eq(s, "draconic-resilience")
        || str_eq(s, "font-of-magic")
        || str_eq(s, "druid-lands-stride")
        || str_eq(s, "druid-timeless-body")
        || str_eq(s, "druidic")
        || str_eq(s, "elusive")
        || str_eq(s, "empowered-evocation")
        || str_eq(s, "fast-movement")
        || str_eq(s, "feral-instinct")
        || str_eq(s, "feral-senses")
        || str_eq(s, "foe-slayer")
        || str_eq(s, "hurl-through-hell")
        || str_eq(s, "improved-critical")
        || str_eq(s, "improved-divine-smite")
        || str_eq(s, "indomitable-1-use")
        || str_eq(s, "indomitable-2-uses")
        || str_eq(s, "indomitable-3-uses")
        || str_eq(s, "indomitable-might")
        || str_eq(s, "ki-empowered-strikes")
        || str_eq(s, "jack-of-all-trades")
        || str_eq(s, "martial-arts")
        || str_eq(s, "monk-evasion")
        || str_eq(s, "monk-timeless-body")
        || str_eq(s, "purity-of-body")
        || str_eq(s, "purity-of-spirit")
        || str_eq(s, "natures-sanctuary")
        || str_eq(s, "natures-ward")
        || str_eq(s, "sculpt-spells")
        || str_eq(s, "ranger-lands-stride")
        || str_eq(s, "relentless-rage")
        || str_eq(s, "reliable-talent")
        || str_eq(s, "remarkable-athlete")
        || str_eq(s, "rogue-evasion")
        || str_eq(s, "superior-critical")
        || str_eq(s, "superior-inspiration")
        || str_eq(s, "supreme-healing")
        || str_eq(s, "supreme-sneak")
        || str_eq(s, "survivor")
        || str_eq(s, "thiefs-reflexes")
        || str_eq(s, "thieves-cant")
        || str_eq(s, "tongue-of-the-sun-and-moon")
        || str_eq(s, "tranquility")
        || str_eq(s, "unarmored-movement-1")
        || str_eq(s, "unarmored-movement-2")
        || str_eq(s, "use-magic-device")
        || str_eq(s, "ki")
        || str_eq(s, "monk-unarmored-defense")
        || str_eq(s, "perfect-self")
        || str_eq(s, "slippery-mind")
        || str_eq(s, "mindless-rage")
        || str_eq(s, "barbarian-unarmored-defense")
        || str_eq(s, "divine-intervention-improvement")
        || str_eq(s, "persistent-rage")
        || str_eq(s, "evocation-savant")
        || str_eq(s, "overchannel")
        || str_eq(s, "potent-cantrip")
        || str_eq(s, "font-of-inspiration")
        || str_eq(s, "second-story-work")
        || str_eq(s, "primeval-awareness")
        || str_eq(s, "beast-spells")
}

/// Families of features that are handled elsewhere or not modelled.
pub open spec fn is_ignored_family(s: Seq<char>) -> bool {
    has_prefix(s, "bard-expertise-"@)
        || has_prefix(s, "rogue-expertise-"@)
        || has_prefix(s, "spellcasting-"@)
        || has_prefix(s, "eldritch-invocation"@)
        || has_prefix(s, "circle-spells-"@)
        || has_prefix(s, "circle-of-the-land"@)
        || has_prefix(s, "domain-spells-"@)
        || has_prefix(s, "flexible-casting-"@)
}

fn is_ignored_family_exec(s: &str) -> (r: bool)
    ensures
        r == is_ignored_family(s@),
{
    starts_with(s, "bard-expertise-")
        || starts_with(s, "rogue-expertise-")
        || starts_with(s, "spellcasting-")
        || starts_with(s, "eldritch-invocation")
        || starts_with(s, "circle-spells-")
        || starts_with(s, "circle-of-the-land")
        || starts_with(s, "domain-spells-")
        || starts_with(s, "flexible-casting-")
}

/// The individual fighting styles, which are recorded through the choice instead.
pub open spec fn is_fighting_style_choice(s: Seq<char>) -> bool {
    has_prefix(s, "fighting-style-"@)
        || has_prefix(s, "fighter-fighting-style-"@)
        || has_prefix(s, "ranger-fighting-style-"@)
}

fn is_fighting_style_choice_exec(s: &str) -> (r: bool)
    ensures
        r == is_fighting_style_choice(s@),
{
    starts_with(s, "fighting-style-")
        || starts_with(s, "fighter-fighting-style-")
        || starts_with(s, "ranger-fighting-style-")
}

/// The classification of a feature identifier: `None` for an identifier that no rule knows,
/// which callers list as it is. Exact names come first, then families by prefix, then the
/// ability score improvement by substring.
pub open spec fn classify(s: Seq<char>) -> Option<CustomLevelFeatureType> {
    if is_subclass_choice(s) {
        Some(CustomLevelFeatureType::Ignored)
    } else if s == "pact-boon"@ {
        Some(CustomLevelFeatureType::Choosable(ChoosableCustomLevelFeature::WarlockPact))
    } else if s == "additional-fighting-style"@ {
        Some(CustomLevelFeatureType::Choosable(ChoosableCustomLevelFeature::AdditionalFighterFightingStyle))
    } else if s == "fighter-fighting-style"@ {
        Some(CustomLevelFeatureType::Choosable(ChoosableCustomLevelFeature::FighterFightingStyle))
    } else if s == "bonus-proficiency"@ {
        Some(CustomLevelFeatureType::Passive)
    } else if is_ignored_name(s) {
        Some(CustomLevelFeatureType::Ignored)
    } else if is_mystic_arcanum(s) {
        Some(CustomLevelFeatureType::Choosable(ChoosableCustomLevelFeature::ChooseOne6thLevelSpellFromWarlockList))
    } else if s == "paladin-fighting-style"@ {
        Some(CustomLevelFeatureType::Choosable(ChoosableCustomLevelFeature::PaladinFightingStyle))
    } else if s == "primal-champion"@ {
        Some(CustomLevelFeatureType::Sheet(SheetLevelFeatureType::PrimalChampion))
    } else if s == "diamond-soul"@ {
        Some(CustomLevelFeatureType::Passive)
    } else if is_passive_name(s) {
        Some(CustomLevelFeatureType::Passive)
    } else if s == "oath-spells"@ || s == "natural-recovery"@ {
        Some(CustomLevelFeatureType::Ignored)
    } else if has_prefix(s, "metamagic-"@) {
        if s.len() == 11 && (s[10] as u32) < 128 {
            Some(CustomLevelFeatureType::Choosable(ChoosableCustomLevelFeature::Metamagic))
        } else {
            Some(CustomLevelFeatureType::Ignored)
        }
    } else if s == "hunters-prey"@ {
        Some(CustomLevelFeatureType::Choosable(ChoosableCustomLevelFeature::HuntersPrey))
    } else if has_prefix(s, "hunters-prey-"@) {
        Some(CustomLevelFeatureType::Ignored)
    } else if s == "superior-hunters-defense"@ {
        Some(CustomLevelFeatureType::Choosable(ChoosableCustomLevelFeature::SuperiorHuntersDefense))
    } else if has_prefix(s, "superior-hunters-defense-"@) {
        Some(CustomLevelFeatureType::Ignored)
    } else if is_ignored_family(s) {
        Some(CustomLevelFeatureType::Ignored)
    } else if s == "dragon-ancestor"@ {
        Some(CustomLevelFeatureType::Choosable(ChoosableCustomLevelFeature::DragonAncestor))
    } else if has_prefix(s, "dragon-ancestor-"@) {
        Some(CustomLevelFeatureType::Ignored)
    } else if s == "defensive-tactics"@ {
        Some(CustomLevelFeatureType::Choosable(ChoosableCustomLevelFeature::DefensiveTactics))
    } else if has_prefix(s, "defensive-tactics-"@) {
        Some(CustomLevelFeatureType::Ignored)
    } else if s == "multiattack"@ {
        Some(CustomLevelFeatureType::Choosable(ChoosableCustomLevelFeature::Multiattack))
    } else if has_prefix(s, "multiattack-"@) {
        Some(CustomLevelFeatureType::Ignored)
    } else if s == "ranger-fighting-style"@ {
        Some(CustomLevelFeatureType::Choosable(ChoosableCustomLevelFeature::RangerFightingStyle))
    } else if has_prefix(s, "favored-enemy-"@) {
        Some(CustomLevelFeatureType::Choosable(ChoosableCustomLevelFeature::RangerFavoredEnemyType))
    } else if has_prefix(s, "natural-explorer-"@) {
        Some(CustomLevelFeatureType::Choosable(ChoosableCustomLevelFeature::RangerTerrainType))
    } else if has_prefix(s, "pact-of-the-"@) {
        Some(CustomLevelFeatureType::Ignored)
    } else if has_infix(s, "ability-score-improvement"@) {
        Some(CustomLevelFeatureType::Choosable(ChoosableCustomLevelFeature::AbilityScoreImprovement))
    } else if is_fighting_style_choice(s) {
        Some(CustomLevelFeatureType::Ignored)
    } else {
        None
    }
}

impl CustomLevelFeatureType {
    /// Classifies a feature identifier; `None` when no rule knows it.
    pub fn identify(index: String) -> (r: Option<CustomLevelFeatureType>)
        ensures
            r == classify(index@),
    {
        let s = index.as_str();
        if is_subclass_choice_exec(s) {
            Some(CustomLevelFeatureType::Ignored)
        } else if str_eq(s, "pact-boon") {
            Some(CustomLevelFeatureType::Choosable(ChoosableCustomLevelFeature::WarlockPact))
        } else if str_eq(s, "additional-fighting-style") {
            Some(CustomLevelFeatureType::Choosable(ChoosableCustomLevelFeature::AdditionalFighterFightingStyle))
        } else if str_eq(s, "fighter-fighting-style") {
            Some(CustomLevelFeatureType::Choosable(ChoosableCustomLevelFeature::FighterFightingStyle))
        } else if str_eq(s, "bonus-proficiency") {
            Some(CustomLevelFeatureType::Passive)
        } else if is_ignored_name_exec(s) {
            Some(CustomLevelFeatureType::Ignored)
        } else if is_mystic_arcanum_exec(s) {
            Some(CustomLevelFeatureType::Choosable(ChoosableCustomLevelFeature::ChooseOne6thLevelSpellFromWarlockList))
        } else if str_eq(s, "paladin-fighting-style") {
            Some(CustomLevelFeatureType::Choosable(ChoosableCustomLevelFeature::PaladinFightingStyle))
        } else if str_eq(s, "primal-champion") {
            Some(CustomLevelFeatureType::Sheet(SheetLevelFeatureType::PrimalChampion))
        } else if str_eq(s, "diamond-soul") {
            Some(CustomLevelFeatureType::Passive)
        } else if is_passive_name_exec(s) {
            Some(CustomLevelFeatureType::Passive)
        } else if str_eq(s, "oath-spells") || str_eq(s, "natural-recovery") {
            Some(CustomLevelFeatureType::Ignored)
        } else if starts_with(s, "metamagic-") {
            if s.unicode_len() == 11 && (s.get_char(10) as u32) < 128 {
                Some(CustomLevelFeatureType::Choosable(ChoosableCustomLevelFeature::Metamagic))
            } else {
                Some(CustomLevelFeatureType::Ignored)
            }
        } else if str_eq(s, "hunters-prey") {
            Some(CustomLevelFeatureType::Choosable(ChoosableCustomLevelFeature::HuntersPrey))
        } else if starts_with(s, "hunters-prey-") {
            Some(CustomLevelFeatureType::Ignored)
        } else if str_eq(s, "superior-hunters-defense") {
            Some(CustomLevelFeatureType::Choosable(ChoosableCustomLevelFeature::SuperiorHuntersDefense))
        } else if starts_with(s, "superior-hunters-defense-") {
            Some(CustomLevelFeatureType::Ignored)
        } else if is_ignored_family_exec(s) {
            Some(CustomLevelFeatureType::Ignored)
        } else if str_eq(s, "dragon-ancestor") {
            Some(CustomLevelFeatureType::Choosable(ChoosableCustomLevelFeature::DragonAncestor))
        } else if starts_with(s, "dragon-ancestor-") {
            Some(CustomLevelFeatureType::Ignored)
        } else if str_eq(s, "defensive-tactics") {
            Some(CustomLevelFeatureType::Choosable(ChoosableCustomLevelFeature::DefensiveTactics))
        } else if starts_with(s, "defensive-tactics-") {
            Some(CustomLevelFeatureType::Ignored)
        } else if str_eq(s, "multiattack") {
            Some(CustomLevelFeatureType::Choosable(ChoosableCustomLevelFeature::Multiattack))
        } else if starts_with(s, "multiattack-") {
            Some(CustomLevelFeatureType::Ignored)
        } else if str_eq(s, "ranger-fighting-style") {
            Some(CustomLevelFeatureType::Choosable(ChoosableCustomLevelFeature::RangerFightingStyle))
        } else if starts_with(s, "favored-enemy-") {
            Some(CustomLevelFeatureType::Choosable(ChoosableCustomLevelFeature::RangerFavoredEnemyType))
        } else if starts_with(s, "natural-explorer-") {
            Some(CustomLevelFeatureType::Choosable(ChoosableCustomLevelFeature::RangerTerrainType))
        } else if starts_with(s, "pact-of-the-") {
            Some(CustomLevelFeatureType::Ignored)
        } else if contains(s, "ability-score-improvement") {
            Some(CustomLevelFeatureType::Choosable(ChoosableCustomLevelFeature::AbilityScoreImprovement))
        } else if is_fighting_style_choice_exec(s) {
            Some(CustomLevelFeatureType::Ignored)
        } else {
            None
        }
    }
}

/// Classification is a function of the identifier alone: the same identifier always gets the
/// same classification, and [`CustomLevelFeatureType::identify`] returns exactly it.
pub proof fn lemma_classification_is_deterministic(a: Seq<char>, b: Seq<char>)
    requires
        a == b,
    ensures
        classify(a) == classify(b),
{
}

/// Examples of the classification: a subclass choice is ignored, the pact boon asks for a
/// pact, the primal champion changes the sheet and the diamond soul is passive.
pub proof fn lemma_classification_examples()
    ensures
        classify("bard-college"@) == Some(CustomLevelFeatureType::Ignored),
        classify("pact-boon"@) == Some(
            CustomLevelFeatureType::Choosable(ChoosableCustomLevelFeature::WarlockPact),
        ),
        classify("primal-champion"@) == Some(
            CustomLevelFeatureType::Sheet(SheetLevelFeatureType::PrimalChampion),
        ),
        classify("diamond-soul"@) == Some(CustomLevelFeatureType::Passive),
{
    reveal_strlit("additional-fighting-style");
    reveal_strlit("additional-magical-secrets");
    reveal_strlit("bard-college");
    reveal_strlit("bonus-cantrip");
    reveal_strlit("bonus-proficiency");
    reveal_strlit("channel-divinity-1-rest");
    reveal_strlit("channel-divinity-2-rest");
    reveal_strlit("channel-divinity-3-rest");
    reveal_strlit("diamond-soul");
    reveal_strlit("divine-domain");
    reveal_strlit("druid-circle");
    reveal_strlit("fighter-fighting-style");
    reveal_strlit("magical-secrets-1");
    reveal_strlit("magical-secrets-2");
    reveal_strlit("magical-secrets-3");
    reveal_strlit("martial-archetype");
    reveal_strlit("monastic-tradition");
    reveal_strlit("mystic-arcanum-6th-level");
    reveal_strlit("mystic-arcanum-7th-level");
    reveal_strlit("mystic-arcanum-8th-level");
    reveal_strlit("mystic-arcanum-9th-level");
    reveal_strlit("otherworldly-patron");
    reveal_strlit("pact-boon");
    reveal_strlit("paladin-fighting-style");
    reveal_strlit("primal-champion");
    reveal_strlit("primal-path");
    reveal_strlit("ranger-archetype");
    reveal_strlit("roguish-archetype");
    reveal_strlit("sacred-oath");
    reveal_strlit("sorcerous-origin");
    assert("additional-fighting-style"@.len() == 25);
    assert("additional-magical-secrets"@.len() == 26);
    assert("bard-college"@.len() == 12);
    assert("bonus-cantrip"@.len() == 13);
    assert("bonus-proficiency"@.len() == 17);
    assert("channel-divinity-1-rest"@.len() == 23);
    assert("channel-divinity-2-rest"@.len() == 23);
    assert("channel-divinity-3-rest"@.len() == 23);
    assert("diamond-soul"@.len() == 12);
    assert("divine-domain"@.len() == 13);
    assert("druid-circle"@.len() == 12);
    assert("fighter-fighting-style"@.len() == 22);
    assert("magical-secrets-1"@.len() == 17);
    assert("magical-secrets-2"@.len() == 17);
    assert("magical-secrets-3"@.len() == 17);
    assert("martial-archetype"@.len() == 17);
    assert("monastic-tradition"@.len() == 18);
    assert("mystic-arcanum-6th-level"@.len() == 24);
    assert("mystic-arcanum-7th-level"@.len() == 24);
    assert("mystic-arcanum-8th-level"@.len() == 24);
    assert("mystic-arcanum-9th-level"@.len() == 24);
    assert("otherworldly-patron"@.len() == 19);
    assert("pact-boon"@.len() == 9);
    assert("paladin-fighting-style"@.len() == 22);
    assert("primal-champion"@.len() == 15);
    assert("primal-path"@.len() == 11);
    assert("ranger-archetype"@.len() == 16);
    assert("roguish-archetype"@.len() == 17);
    assert("sacred-oath"@.len() == 11);
    assert("sorcerous-origin"@.len() == 16);
    assert(!is_subclass_choice("pact-boon"@));
    assert(!is_subclass_choice("primal-champion"@));
    assert(!is_ignored_name("primal-champion"@));
    assert(!is_mystic_arcanum("primal-champion"@));
    assert("primal-champion"@ != "paladin-fighting-style"@);
    assert("diamond-soul"@[0] != "bard-college"@[0]);
    assert("diamond-soul"@[1] != "druid-circle"@[1]);
    assert(!is_subclass_choice("diamond-soul"@));
    assert(!is_ignored_name("diamond-soul"@));
    assert(!is_mystic_arcanum("diamond-soul"@));
    assert("diamond-soul"@ != "pact-boon"@);
    assert("diamond-soul"@ != "additional-fighting-style"@);
    assert("diamond-soul"@ != "fighter-fighting-style"@);
    assert("diamond-soul"@ != "bonus-proficiency"@);
    assert("diamond-soul"@ != "paladin-fighting-style"@);
    assert("diamond-soul"@ != "primal-champion"@);
}

/// Every rule names an identifier of at least seven characters, but for `ki`: an identifier of
/// three to six characters is one that no rule knows.
pub proof fn lemma_short_identifiers_unknown(s: Seq<char>)
    requires
        3 <= s.len() <= 6,
    ensures
        classify(s) is None,
{
    reveal_strlit("ability-score-improvement");
    assert("ability-score-improvement"@.len() == 25);
    reveal_strlit("additional-fighting-style");
    assert("additional-fighting-style"@.len() == 25);
    reveal_strlit("additional-magical-secrets");
    assert("additional-magical-secrets"@.len() == 26);
    reveal_strlit("arcane-recovery");
    assert("arcane-recovery"@.len() == 15);
    reveal_strlit("arcane-tradition");
    assert("arcane-tradition"@.len() == 16);
    reveal_strlit("archdruid");
    assert("archdruid"@.len() == 9);
    reveal_strlit("aura-improvements");
    assert("aura-improvements"@.len() == 17);
    reveal_strlit("aura-of-courage");
    assert("aura-of-courage"@.len() == 15);
    reveal_strlit("aura-of-devotion");
    assert("aura-of-devotion"@.len() == 16);
    reveal_strlit("aura-of-protection");
    assert("aura-of-protection"@.len() == 18);
    reveal_strlit("barbarian-unarmored-defense");
    assert("barbarian-unarmored-defense"@.len() == 27);
    reveal_strlit("bard-college");
    assert("bard-college"@.len() == 12);
    reveal_strlit("bard-expertise-");
    assert("bard-expertise-"@.len() == 15);
    reveal_strlit("beast-spells");
    assert("beast-spells"@.len() == 12);
    reveal_strlit("blessed-healer");
    assert("blessed-healer"@.len() == 14);
    reveal_strlit("blindsense");
    assert("blindsense"@.len() == 10);
    reveal_strlit("bonus-cantrip");
    assert("bonus-cantrip"@.len() == 13);
    reveal_strlit("bonus-proficiency");
    assert("bonus-proficiency"@.len() == 17);
    reveal_strlit("brutal-critical-1-dice");
    assert("brutal-critical-1-dice"@.len() == 22);
    reveal_strlit("brutal-critical-2-dice");
    assert("brutal-critical-2-dice"@.len() == 22);
    reveal_strlit("brutal-critical-3-dice");
    assert("brutal-critical-3-dice"@.len() == 22);
    reveal_strlit("channel-divinity-1-rest");
    assert("channel-divinity-1-rest"@.len() == 23);
    reveal_strlit("channel-divinity-2-rest");
    assert("channel-divinity-2-rest"@.len() == 23);
    reveal_strlit("channel-divinity-3-rest");
    assert("channel-divinity-3-rest"@.len() == 23);
    reveal_strlit("circle-of-the-land");
    assert("circle-of-the-land"@.len() == 18);
    reveal_strlit("circle-spells-");
    assert("circle-spells-"@.len() == 14);
    reveal_strlit("danger-sense");
    assert("danger-sense"@.len() == 12);
    reveal_strlit("dark-ones-blessing");
    assert("dark-ones-blessing"@.len() == 18);
    reveal_strlit("dark-ones-own-luck");
    assert("dark-ones-own-luck"@.len() == 18);
    reveal_strlit("defensive-tactics");
    assert("defensive-tactics"@.len() == 17);
    reveal_strlit("defensive-tactics-");
    assert("defensive-tactics-"@.len() == 18);
    reveal_strlit("destroy-undead-cr-1-2-or-below");
    assert("destroy-undead-cr-1-2-or-below"@.len() == 30);
    reveal_strlit("destroy-undead-cr-1-or-below");
    assert("destroy-undead-cr-1-or-below"@.len() == 28);
    reveal_strlit("destroy-undead-cr-2-or-below");
    assert("destroy-undead-cr-2-or-below"@.len() == 28);
    reveal_strlit("destroy-undead-cr-3-or-below");
    assert("destroy-undead-cr-3-or-below"@.len() == 28);
    reveal_strlit("destroy-undead-cr-4-or-below");
    assert("destroy-undead-cr-4-or-below"@.len() == 28);
    reveal_strlit("diamond-soul");
    assert("diamond-soul"@.len() == 12);
    reveal_strlit("disciple-of-life");
    assert("disciple-of-life"@.len() == 16);
    reveal_strlit("divine-domain");
    assert("divine-domain"@.len() == 13);
    reveal_strlit("divine-health");
    assert("divine-health"@.len() == 13);
    reveal_strlit("divine-intervention-improvement");
    assert("divine-intervention-improvement"@.len() == 31);
    reveal_strlit("domain-spells-");
    assert("domain-spells-"@.len() == 14);
    reveal_strlit("draconic-resilience");
    assert("draconic-resilience"@.len() == 19);
    reveal_strlit("dragon-ancestor");
    assert("dragon-ancestor"@.len() == 15);
    reveal_strlit("dragon-ancestor-");
    assert("dragon-ancestor-"@.len() == 16);
    reveal_strlit("druid-circle");
    assert("druid-circle"@.len() == 12);
    reveal_strlit("druid-lands-stride");
    assert("druid-lands-stride"@.len() == 18);
    reveal_strlit("druid-timeless-body");
    assert("druid-timeless-body"@.len() == 19);
    reveal_strlit("druidic");
    assert("druidic"@.len() == 7);
    reveal_strlit("eldritch-invocation");
    assert("eldritch-invocation"@.len() == 19);
    reveal_strlit("elusive");
    assert("elusive"@.len() == 7);
    reveal_strlit("empowered-evocation");
    assert("empowered-evocation"@.len() == 19);
    reveal_strlit("evocation-savant");
    assert("evocation-savant"@.len() == 16);
    reveal_strlit("fast-movement");
    assert("fast-movement"@.len() == 13);
    reveal_strlit("favored-enemy-");
    assert("favored-enemy-"@.len() == 14);
    reveal_strlit("feral-instinct");
    assert("feral-instinct"@.len() == 14);
    reveal_strlit("feral-senses");
    assert("feral-senses"@.len() == 12);
    reveal_strlit("fighter-fighting-style");
    assert("fighter-fighting-style"@.len() == 22);
    reveal_strlit("fighter-fighting-style-");
    assert("fighter-fighting-style-"@.len() == 23);
    reveal_strlit("fighting-style-");
    assert("fighting-style-"@.len() == 15);
    reveal_strlit("flexible-casting-");
    assert("flexible-casting-"@.len() == 17);
    reveal_strlit("foe-slayer");
    assert("foe-slayer"@.len() == 10);
    reveal_strlit("font-of-inspiration");
    assert("font-of-inspiration"@.len() == 19);
    reveal_strlit("font-of-magic");
    assert("font-of-magic"@.len() == 13);
    reveal_strlit("hunters-prey");
    assert("hunters-prey"@.len() == 12);
    reveal_strlit("hunters-prey-");
    assert("hunters-prey-"@.len() == 13);
    reveal_strlit("hurl-through-hell");
    assert("hurl-through-hell"@.len() == 17);
    reveal_strlit("improved-critical");
    assert("improved-critical"@.len() == 17);
    reveal_strlit("improved-divine-smite");
    assert("improved-divine-smite"@.len() == 21);
    reveal_strlit("indomitable-1-use");
    assert("indomitable-1-use"@.len() == 17);
    reveal_strlit("indomitable-2-uses");
    assert("indomitable-2-uses"@.len() == 18);
    reveal_strlit("indomitable-3-uses");
    assert("indomitable-3-uses"@.len() == 18);
    reveal_strlit("indomitable-might");
    assert("indomitable-might"@.len() == 17);
    reveal_strlit("jack-of-all-trades");
    assert("jack-of-all-trades"@.len() == 18);
    reveal_strlit("ki");
    assert("ki"@.len() == 2);
    reveal_strlit("ki-empowered-strikes");
    assert("ki-empowered-strikes"@.len() == 20);
    reveal_strlit("magical-secrets-1");
    assert("magical-secrets-1"@.len() == 17);
    reveal_strlit("magical-secrets-2");
    assert("magical-secrets-2"@.len() == 17);
    reveal_strlit("magical-secrets-3");
    assert("magical-secrets-3"@.len() == 17);
    reveal_strlit("martial-archetype");
    assert("martial-archetype"@.len() == 17);
    reveal_strlit("martial-arts");
    assert("martial-arts"@.len() == 12);
    reveal_strlit("metamagic-");
    assert("metamagic-"@.len() == 10);
    reveal_strlit("mindless-rage");
    assert("mindless-rage"@.len() == 13);
    reveal_strlit("monastic-tradition");
    assert("monastic-tradition"@.len() == 18);
    reveal_strlit("monk-evasion");
    assert("monk-evasion"@.len() == 12);
    reveal_strlit("monk-timeless-body");
    assert("monk-timeless-body"@.len() == 18);
    reveal_strlit("monk-unarmored-defense");
    assert("monk-unarmored-defense"@.len() == 22);
    reveal_strlit("multiattack");
    assert("multiattack"@.len() == 11);
    reveal_strlit("multiattack-");
    assert("multiattack-"@.len() == 12);
    reveal_strlit("mystic-arcanum-6th-level");
    assert("mystic-arcanum-6th-level"@.len() == 24);
    reveal_strlit("mystic-arcanum-7th-level");
    assert("mystic-arcanum-7th-level"@.len() == 24);
    reveal_strlit("mystic-arcanum-8th-level");
    assert("mystic-arcanum-8th-level"@.len() == 24);
    reveal_strlit("mystic-arcanum-9th-level");
    assert("mystic-arcanum-9th-level"@.len() == 24);
    reveal_strlit("natural-explorer-");
    assert("natural-explorer-"@.len() == 17);
    reveal_strlit("natural-recovery");
    assert("natural-recovery"@.len() == 16);
    reveal_strlit("natures-sanctuary");
    assert("natures-sanctuary"@.len() == 17);
    reveal_strlit("natures-ward");
    assert("natures-ward"@.len() == 12);
    reveal_strlit("oath-spells");
    assert("oath-spells"@.len() == 11);
    reveal_strlit("otherworldly-patron");
    assert("otherworldly-patron"@.len() == 19);
    reveal_strlit("overchannel");
    assert("overchannel"@.len() == 11);
    reveal_strlit("pact-boon");
    assert("pact-boon"@.len() == 9);
    reveal_strlit("pact-of-the-");
    assert("pact-of-the-"@.len() == 12);
    reveal_strlit("paladin-fighting-style");
    assert("paladin-fighting-style"@.len() == 22);
    reveal_strlit("perfect-self");
    assert("perfect-self"@.len() == 12);
    reveal_strlit("persistent-rage");
    assert("persistent-rage"@.len() == 15);
    reveal_strlit("potent-cantrip");
    assert("potent-cantrip"@.len() == 14);
    reveal_strlit("primal-champion");
    assert("primal-champion"@.len() == 15);
    reveal_strlit("primal-path");
    assert("primal-path"@.len() == 11);
    reveal_strlit("primeval-awareness");
    assert("primeval-awareness"@.len() == 18);
    reveal_strlit("purity-of-body");
    assert("purity-of-body"@.len() == 14);
    reveal_strlit("purity-of-spirit");
    assert("purity-of-spirit"@.len() == 16);
    reveal_strlit("ranger-archetype");
    assert("ranger-archetype"@.len() == 16);
    reveal_strlit("ranger-fighting-style");
    assert("ranger-fighting-style"@.len() == 21);
    reveal_strlit("ranger-fighting-style-");
    assert("ranger-fighting-style-"@.len() == 22);
    reveal_strlit("ranger-lands-stride");
    assert("ranger-lands-stride"@.len() == 19);
    reveal_strlit("relentless-rage");
    assert("relentless-rage"@.len() == 15);
    reveal_strlit("reliable-talent");
    assert("reliable-talent"@.len() == 15);
    reveal_strlit("remarkable-athlete");
    assert("remarkable-athlete"@.len() == 18);
    reveal_strlit("rogue-evasion");
    assert("rogue-evasion"@.len() == 13);
    reveal_strlit("rogue-expertise-");
    assert("rogue-expertise-"@.len() == 16);
    reveal_strlit("roguish-archetype");
    assert("roguish-archetype"@.len() == 17);
    reveal_strlit("sacred-oath");
    assert("sacred-oath"@.len() == 11);
    reveal_strlit("sculpt-spells");
    assert("sculpt-spells"@.len() == 13);
    reveal_strlit("second-story-work");
    assert("second-story-work"@.len() == 17);
    reveal_strlit("slippery-mind");
    assert("slippery-mind"@.len() == 13);
    reveal_strlit("sorcerous-origin");
    assert("sorcerous-origin"@.len() == 16);
    reveal_strlit("spellcasting-");
    assert("spellcasting-"@.len() == 13);
    reveal_strlit("superior-critical");
    assert("superior-critical"@.len() == 17);
    reveal_strlit("superior-hunters-defense");
    assert("superior-hunters-defense"@.len() == 24);
    reveal_strlit("superior-hunters-defense-");
    assert("superior-hunters-defense-"@.len() == 25);
    reveal_strlit("superior-inspiration");
    assert("superior-inspiration"@.len() == 20);
    reveal_strlit("supreme-healing");
    assert("supreme-healing"@.len() == 15);
    reveal_strlit("supreme-sneak");
    assert("supreme-sneak"@.len() == 13);
    reveal_strlit("survivor");
    assert("survivor"@.len() == 8);
    reveal_strlit("thiefs-reflexes");
    assert("thiefs-reflexes"@.len() == 15);
    reveal_strlit("thieves-cant");
    assert("thieves-cant"@.len() == 12);
    reveal_strlit("tongue-of-the-sun-and-moon");
    assert("tongue-of-the-sun-and-moon"@.len() == 26);
    reveal_strlit("tranquility");
    assert("tranquility"@.len() == 11);
    reveal_strlit("unarmored-movement-1");
    assert("unarmored-movement-1"@.len() == 20);
    reveal_strlit("unarmored-movement-2");
    assert("unarmored-movement-2"@.len() == 20);
    reveal_strlit("use-magic-device");
    assert("use-magic-device"@.len() == 16);
}

} // verus!
