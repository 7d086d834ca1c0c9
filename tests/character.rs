use dnd_character::abilities::AbilityScore;
use dnd_character::{check_ability_indexes, Character, InventoryError, UnexpectedAbility};

fn character(class: &str) -> Character {
    Character::new(
        class.to_string(),
        "a".to_string(),
        16,
        "human".to_string(),
        "human".to_string(),
        "chaotic-neutral".to_string(),
        "bard".to_string(),
        "".to_string(),
        "".to_string(),
    )
}

#[test]
fn remove_missing_item_fails_and_changes_nothing() {
    let mut c = character("fighter");
    c.add_item("rope", 1);
    let before = c.inventory.clone();
    assert_eq!(c.remove_item("torch", None), Err(InventoryError::ItemNotFound));
    assert_eq!(c.inventory, before);
}

#[test]
fn add_present_item_increments_without_duplicate() {
    let mut c = character("fighter");
    c.add_item("torch", 2);
    c.add_item("rope", 1);
    c.add_item("torch", 3);
    assert_eq!(
        c.inventory,
        vec![("torch".to_string(), 5), ("rope".to_string(), 1)]
    );
}

#[test]
fn remove_item_takes_some_or_all() {
    let mut c = character("fighter");
    c.add_item("arrow", 20);
    assert_eq!(c.remove_item("arrow", Some(5)), Ok(()));
    assert_eq!(c.inventory, vec![("arrow".to_string(), 15)]);
    assert_eq!(c.remove_item("arrow", Some(16)), Err(InventoryError::NotEnough));
    assert_eq!(c.inventory, vec![("arrow".to_string(), 15)]);
    assert_eq!(c.remove_item("arrow", Some(15)), Ok(()));
    assert!(c.inventory.is_empty());
    c.add_item("arrow", 3);
    assert_eq!(c.remove_item("arrow", None), Ok(()));
    assert!(c.inventory.is_empty());
}

#[test]
fn alter_item_quantity_by_sign() {
    let mut c = character("fighter");
    assert_eq!(c.alter_item_quantity("potion", 0), Err(InventoryError::ZeroQuantity));
    assert!(c.inventory.is_empty());
    assert_eq!(c.alter_item_quantity("potion", 4), Ok(()));
    assert_eq!(c.alter_item_quantity("potion", -1), Ok(()));
    assert_eq!(c.inventory, vec![("potion".to_string(), 3)]);
    assert_eq!(c.alter_item_quantity("potion", -10), Err(InventoryError::NotEnough));
    assert_eq!(c.inventory, vec![("potion".to_string(), 3)]);
    assert_eq!(c.alter_item_quantity("potion", -3), Ok(()));
    assert!(c.inventory.is_empty());
    assert_eq!(c.alter_item_quantity("potion", -1), Err(InventoryError::ItemNotFound));
}

#[test]
fn max_hp_counts_constitution_per_level() {
    let mut c = character("barbarian");
    c.abilities_score.constitution = AbilityScore::new(14, false);
    c.hit_dice_result = 12;
    assert_eq!(c.max_hp(), 14);
    c.add_experience(300);
    c.hit_dice_result = 19;
    assert_eq!(c.max_hp(), 23);
    c.classes.0[0].1.abilities_modifiers.constitution = AbilityScore::new(4, false);
    assert_eq!(c.max_hp(), 27);
}

#[test]
fn max_hp_is_never_negative() {
    let mut c = character("wizard");
    c.abilities_score.constitution = AbilityScore::new(1, false);
    c.hit_dice_result = 2;
    assert_eq!(c.max_hp(), 0);
}

#[test]
fn armor_depends_on_the_first_class() {
    let mut c = character("fighter");
    c.abilities_score.dexterity = AbilityScore::new(14, false);
    c.abilities_score.wisdom = AbilityScore::new(16, false);
    c.abilities_score.constitution = AbilityScore::new(12, false);
    assert_eq!(c.class_armor(), 12);
    c.classes.0[0].1.fighting_style = Some("fighter-fighting-style-defense".to_string());
    assert_eq!(c.class_armor(), 13);

    let mut monk = character("monk");
    monk.abilities_score = c.abilities_score;
    assert_eq!(monk.class_armor(), 15);

    let mut sorcerer = character("sorcerer");
    sorcerer.abilities_score = c.abilities_score;
    assert_eq!(sorcerer.class_armor(), 15);

    let mut barbarian = character("barbarian");
    barbarian.abilities_score = c.abilities_score;
    assert_eq!(barbarian.class_armor(), 13);
    barbarian.classes.0[0].1.additional_fighting_style = Some("fighting-style-defense".to_string());
    assert_eq!(barbarian.class_armor(), 14);
}

#[test]
fn new_day_restores_hit_points() {
    let mut c = character("cleric");
    c.abilities_score.constitution = AbilityScore::new(12, false);
    c.hit_dice_result = 8;
    c.hp = 1;
    c.new_day(vec![None]);
    assert_eq!(c.hp, 9);
}

#[test]
fn ability_indexes_must_cover_the_six_abilities() {
    let all: Vec<String> = ["cha", "strength", "dexterity", "constitution", "intelligence", "wisdom", "charisma"]
        .iter()
        .map(|s| s.to_string())
        .collect();
    assert_eq!(check_ability_indexes(&all), Ok(()));
    let missing: Vec<String> = ["strength", "dexterity", "constitution", "intelligence", "wisdom"]
        .iter()
        .map(|s| s.to_string())
        .collect();
    assert_eq!(check_ability_indexes(&missing), Err(UnexpectedAbility));
    assert_eq!(check_ability_indexes(&Vec::new()), Err(UnexpectedAbility));
}
