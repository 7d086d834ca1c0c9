use dnd_character::abilities::{Abilities, AbilityScore};

#[test]
fn modifier_is_half_the_distance_from_ten_rounded_down() {
    assert_eq!(AbilityScore::new(10, false).modifier(0), 0);
    assert_eq!(AbilityScore::new(8, false).modifier(0), -1);
    assert_eq!(AbilityScore::new(20, false).modifier(0), 5);
    assert_eq!(AbilityScore::new(9, false).modifier(0), -1);
    assert_eq!(AbilityScore::new(11, false).modifier(0), 0);
    assert_eq!(AbilityScore::new(0, false).modifier(0), -5);
    assert_eq!(AbilityScore::new(1, false).modifier(0), -5);
    assert_eq!(AbilityScore::new(255, false).modifier(0), 122);
}

#[test]
fn modifier_adds_the_bonus_only_when_proficient() {
    assert_eq!(AbilityScore::new(14, true).modifier(2), 4);
    assert_eq!(AbilityScore::new(14, false).modifier(2), 2);
    assert_eq!(AbilityScore::new(8, true).modifier(3), 2);
}

#[test]
fn scores_add_and_join_proficiency() {
    let a = AbilityScore::new(10, false);
    let b = AbilityScore::new(3, true);
    let c = a.add(b);
    assert_eq!(c.score, 13);
    assert!(c.proficiency);
    let mut d = AbilityScore::new(1, false);
    d.add_assign(AbilityScore::new(2, false));
    assert_eq!(d, AbilityScore::new(3, false));
}

#[test]
fn zero_score_is_the_identity() {
    let a = AbilityScore::new(15, true);
    assert_eq!(a.add(AbilityScore::default()), a);
    assert_eq!(AbilityScore::default(), AbilityScore::new(0, false));
}

#[test]
fn scores_sum_over_a_list() {
    let items = vec![
        AbilityScore::new(10, false),
        AbilityScore::new(4, false),
        AbilityScore::new(1, true),
    ];
    let total = AbilityScore::sum(&items);
    assert_eq!(total.score, 15);
    assert!(total.proficiency);
    assert_eq!(AbilityScore::sum(&Vec::new()), AbilityScore::default());
}

#[test]
fn abilities_add_field_by_field() {
    let mut a = Abilities::default();
    a.strength = AbilityScore::new(10, false);
    a.wisdom = AbilityScore::new(12, true);
    let mut b = Abilities::default();
    b.strength = AbilityScore::new(4, false);
    b.charisma = AbilityScore::new(2, false);
    let c = a.add(b);
    assert_eq!(c.strength, AbilityScore::new(14, false));
    assert_eq!(c.wisdom, AbilityScore::new(12, true));
    assert_eq!(c.charisma, AbilityScore::new(2, false));
    assert_eq!(c.dexterity, AbilityScore::new(0, false));
    let mut d = a;
    d.add_assign(b);
    assert_eq!(d, c);
    assert_eq!(Abilities::sum(&vec![a, b]), c);
}
