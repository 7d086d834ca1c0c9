use vstd::prelude::*;

use crate::abilities::Abilities;
use crate::text::str_eq;

verus! {

/// How a class comes to its spells for the day. The variant is fixed when the class is made;
/// only its payload changes.
#[derive(Debug, Clone)]
pub enum ClassSpellCasting {
    /// Knows spells and prepares some of them each day.
    KnowledgePrepared {
        /// Spell identifiers, grouped.
        spells_index: Vec<Vec<String>>,
        /// Spell identifiers prepared for the day, grouped.
        spells_prepared_index: Vec<Vec<String>>,
        /// Whether the spells for the day are still to be prepared.
        pending_preparation: bool,
    },
    /// Has the whole list available and prepares some of it each day.
    AlreadyKnowPrepared {
        /// Spell identifiers prepared for the day, grouped.
        spells_prepared_index: Vec<Vec<String>>,
        /// Whether the spells for the day are still to be prepared.
        pending_preparation: bool,
    },
    /// Knows spells and casts them from slots that refill each day.
    KnowledgeAlreadyPrepared {
        /// Spell identifiers, grouped.
        spells_index: Vec<Vec<String>>,
        usable_slots: UsableSlots,
    },
}

/// Spells that can be cast per spell level, cantrips first.
#[derive(Debug, Clone, Copy, PartialEq, Eq, Structural)]
pub struct UsableSlots {
    pub cantrip_slots: u8,
    pub level_1: u8,
    pub level_2: u8,
    pub level_3: u8,
    pub level_4: u8,
    pub level_5: u8,
    pub level_6: u8,
    pub level_7: u8,
    pub level_8: u8,
    pub level_9: u8,
}

impl Default for UsableSlots {
    fn default() -> (r: Self)
        ensures
            r == UsableSlots::none(),
    {
        UsableSlots {
            cantrip_slots: 0,
            level_1: 0,
            level_2: 0,
            level_3: 0,
            level_4: 0,
            level_5: 0,
            level_6: 0,
            level_7: 0,
            level_8: 0,
            level_9: 0,
        }
    }
}

impl UsableSlots {
    /// No slot at any level.
    pub open spec fn none() -> UsableSlots {
        UsableSlots {
            cantrip_slots: 0,
            level_1: 0,
            level_2: 0,
            level_3: 0,
            level_4: 0,
            level_5: 0,
            level_6: 0,
            level_7: 0,
            level_8: 0,
            level_9: 0,
        }
    }
}

/// The progression state of one class of a character.
#[derive(Debug, Clone)]
pub struct ClassProperties {
    /// The level of the class, from 1 to 20.
    pub level: u8,
    /// Subclass identifier.
    pub subclass: Option<String>,
    pub spell_casting: Option<ClassSpellCasting>,
    pub fighting_style: Option<String>,
    pub hunters_prey: Option<String>,
    pub defensive_tactics: Option<String>,
    pub additional_fighting_style: Option<String>,
    pub multiattack: Option<String>,
    pub superior_hunters_defense: Option<String>,
    pub natural_explorer_terrain_type: Option<Vec<String>>,
    pub ranger_favored_enemy_type: Option<Vec<String>>,
    pub sorcerer_metamagic: Option<Vec<String>>,
    pub warlock_eldritch_invocation: Option<Vec<String>>,
    pub warlock_pact: Option<String>,
    pub sorcerer_dragon_ancestor: Option<String>,
    /// Ability points that the features of this class have granted.
    pub abilities_modifiers: Abilities,
}

/// One class of a character: its lowercase kebab-case identifier, then its progression state.
/// Two classes are the same class exactly when their identifiers are equal; the identifier is
/// set when the class is made and no method of the library changes it.
#[derive(Debug)]
pub struct Class(pub String, pub ClassProperties);

impl PartialEq for Class {
    fn eq(&self, other: &Class) -> (r: bool) {
        str_eq(self.0.as_str(), other.0.as_str())
    }
}

impl vstd::std_specs::cmp::PartialEqSpecImpl for Class {
    open spec fn obeys_eq_spec() -> bool {
        true
    }

    open spec fn eq_spec(&self, other: &Class) -> bool {
        self.index_spec() == other.index_spec()
    }
}

impl Eq for Class {}

impl Class {
    /// The identifier of the class.
    pub open spec fn index_spec(&self) -> Seq<char> {
        self.0@
    }

    /// A class with the given identifier and progression state.
    pub fn new(index: String, properties: ClassProperties) -> (r: Class)
        ensures
            r.index_spec() == index@,
            r.1 == properties,
    {
        Class(index, properties)
    }

    pub fn index(&self) -> (r: &str)
        ensures
            r@ == self.index_spec(),
    {
        self.0.as_str()
    }

    pub fn hit_dice(&self) -> (r: u8)
        ensures
            r == hit_dice_of(self.index_spec()),
    {
        let i = self.index();
        if str_eq(i, "barbarian") {
            12
        } else if str_eq(i, "fighter") || str_eq(i, "paladin") || str_eq(i, "ranger") {
            10
        } else if str_eq(i, "bard") || str_eq(i, "cleric") || str_eq(i, "druid") || str_eq(
            i,
            "monk",
        ) || str_eq(i, "rogue") || str_eq(i, "warlock") {
            8
        } else {
            6
        }
    }
}

/// The hit die of a class: its number of faces. An unknown class has the smallest die.
pub open spec fn hit_dice_of(index: Seq<char>) -> u8 {
    if index == "barbarian"@ {
        12
    } else if index == "fighter"@ || index == "paladin"@ || index == "ranger"@ {
        10
    } else if index == "bard"@ || index == "cleric"@ || index == "druid"@ || index == "monk"@
        || index == "rogue"@ || index == "warlock"@ {
        8
    } else {
        6
    }
}

/// Whether `sc` is the spellcasting that a new class with identifier `index` starts with: a
/// wizard knows no spell yet, and it and the other preparing casters start with nothing
/// prepared and a preparation pending; casters from known spells start with no spell and no
/// slot; other classes cast nothing.
pub open spec fn is_initial_spell_casting(index: Seq<char>, sc: Option<ClassSpellCasting>) -> bool {
    if index == "wizard"@ {
        sc matches Some(
            ClassSpellCasting::KnowledgePrepared {
                spells_index,
                spells_prepared_index,
                pending_preparation,
            },
        ) && spells_index@.len() == 0 && spells_prepared_index@.len() == 0 && pending_preparation
    } else if index == "cleric"@ || index == "paladin"@ || index == "druid"@ {
        sc matches Some(
            ClassSpellCasting::AlreadyKnowPrepared { spells_prepared_index, pending_preparation },
        ) && spells_prepared_index@.len() == 0 && pending_preparation
    } else if index == "ranger"@ || index == "bard"@ || index == "warlock"@ || index
        == "sorcerer"@ {
        sc matches Some(ClassSpellCasting::KnowledgeAlreadyPrepared { spells_index, usable_slots })
            && spells_index@.len() == 0 && usable_slots == UsableSlots::none()
    } else {
        sc is None
    }
}

impl ClassProperties {
    /// Whether this is the state of a class with identifier `index` that was just made: at
    /// level 1, with its initial spellcasting, nothing chosen and no ability point granted.
    pub open spec fn is_fresh(&self, index: Seq<char>) -> bool {
        &&& self.level == 1
        &&& self.subclass is None
        &&& is_initial_spell_casting(index, self.spell_casting)
        &&& self.fighting_style is None
        &&& self.hunters_prey is None
        &&& self.defensive_tactics is None
        &&& self.additional_fighting_style is None
        &&& self.multiattack is None
        &&& self.superior_hunters_defense is None
        &&& self.natural_explorer_terrain_type is None
        &&& self.ranger_favored_enemy_type is None
        &&& self.sorcerer_metamagic is None
        &&& self.warlock_eldritch_invocation is None
        &&& self.warlock_pact is None
        &&& self.sorcerer_dragon_ancestor is None
        &&& self.abilities_modifiers == Abilities::zero()
    }

    /// The state of a class with identifier `index` that was just made.
    pub fn fresh(index: &str) -> (r: ClassProperties)
        ensures
            r.is_fresh(index@),
    {
        let spell_casting = if str_eq(index, "wizard") {
            Some(
                ClassSpellCasting::KnowledgePrepared {
                    spells_index: Vec::new(),
                    spells_prepared_index: Vec::new(),
                    pending_preparation: true,
                },
            )
        } else if str_eq(index, "cleric") || str_eq(index, "paladin") || str_eq(index, "druid") {
            Some(
                ClassSpellCasting::AlreadyKnowPrepared {
                    spells_prepared_index: Vec::new(),
                    pending_preparation: true,
                },
            )
        } else if str_eq(index, "ranger") || str_eq(index, "bard") || str_eq(index, "warlock")
            || str_eq(index, "sorcerer") {
            Some(
                ClassSpellCasting::KnowledgeAlreadyPrepared {
                    spells_index: Vec::new(),
                    usable_slots: UsableSlots::default(),
                },
            )
        } else {
            None
        };
        ClassProperties {
            level: 1,
            subclass: None,
            spell_casting,
            fighting_style: None,
            hunters_prey: None,
            defensive_tactics: None,
            additional_fighting_style: None,
            multiattack: None,
            superior_hunters_defense: None,
            natural_explorer_terrain_type: None,
            ranger_favored_enemy_type: None,
            sorcerer_metamagic: None,
            warlock_eldritch_invocation: None,
            warlock_pact: None,
            sorcerer_dragon_ancestor: None,
            abilities_modifiers: Abilities::default(),
        }
    }
}

/// The classes of a character, in the order they were taken. No two share an identifier.
#[derive(Debug)]
pub struct Classes(pub Vec<Class>);

impl Classes {
    /// No two classes share an identifier.
    pub open spec fn wf(&self) -> bool {
        forall|i: int, j: int|
            0 <= i < j < self.0@.len() ==> #[trigger] self.0@[i].index_spec()
                != #[trigger] self.0@[j].index_spec()
    }

    /// The classes of a new character: the main class alone, just made.
    pub fn new(class_index: String) -> (r: Classes)
        ensures
            r.wf(),
            r.0@.len() == 1,
            r.0@[0].index_spec() == class_index@,
            r.0@[0].1.is_fresh(class_index@),
    {
        let properties = ClassProperties::fresh(class_index.as_str());
        let mut classes: Vec<Class> = Vec::new();
        classes.push(Class::new(class_index, properties));
        Classes(classes)
    }
}

} // verus!
