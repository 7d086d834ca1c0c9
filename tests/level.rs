use dnd_character::Character;

fn character(class: &str) -> Character {
    Character::new(
        class.to_string(),
        "Test Character".to_string(),
        16,
        "human".to_string(),
        "human".to_string(),
        "chaotic-neutral".to_string(),
        "bard".to_string(),
        "".to_string(),
        "".to_string(),
    )
}

fn at_experience(xp: u32) -> Character {
    let mut c = character("barbarian");
    c.experience_points = xp;
    c
}

#[test]
fn level_counts_reached_thresholds() {
    assert_eq!(at_experience(0).level(), 1);
    assert_eq!(at_experience(299).level(), 1);
    assert_eq!(at_experience(300).level(), 2);
    assert_eq!(at_experience(899).level(), 2);
    assert_eq!(at_experience(900).level(), 3);
    assert_eq!(at_experience(354_999).level(), 19);
    assert_eq!(at_experience(355_000).level(), 20);
    assert_eq!(at_experience(u32::MAX).level(), 20);
}

#[test]
fn new_character_starts_at_level_one() {
    let c = character("barbarian");
    assert_eq!(c.experience_points(), 0);
    assert_eq!(c.level(), 1);
    assert_eq!(c.money, 0);
    assert_eq!(c.hp, 0);
    assert!(c.inventory.is_empty());
    assert_eq!(c.classes.0.len(), 1);
    assert_eq!(c.classes.0[0].index(), "barbarian");
    assert_eq!(c.classes.0[0].1.level, 1);
}

#[test]
fn add_experience_stops_at_the_next_threshold() {
    let mut c = character("barbarian");
    assert_eq!(c.add_experience(1000), 1);
    assert_eq!(c.experience_points(), 300);
    assert_eq!(c.level(), 2);
}

#[test]
fn add_experience_below_threshold_gains_nothing() {
    let mut c = character("barbarian");
    assert_eq!(c.add_experience(299), 0);
    assert_eq!(c.experience_points(), 299);
    assert_eq!(c.add_experience(5), 1);
    assert_eq!(c.experience_points(), 300);
}

#[test]
fn add_experience_at_the_last_level_adds_everything() {
    let mut c = at_experience(355_000);
    assert_eq!(c.add_experience(1_000_000), 0);
    assert_eq!(c.experience_points(), 1_355_000);
    assert_eq!(c.level(), 20);
}

#[test]
fn repeated_calls_reach_level_twenty() {
    let mut c = character("fighter");
    let mut gained: u32 = 0;
    for _ in 0..19 {
        gained += c.add_experience(1_000_000) as u32;
    }
    assert_eq!(gained, 19);
    assert_eq!(c.level(), 20);
    assert_eq!(c.experience_points(), 355_000);
}
