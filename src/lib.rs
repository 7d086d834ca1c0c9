pub mod abilities;
pub mod api;
pub mod classes;
pub mod text;

use vstd::prelude::*;

use crate::abilities::{score_modifier, Abilities, AbilityScore};
use crate::classes::{Class, Classes};
use crate::api::graduated::names_contain;
use crate::api::shared::strings_view;
use crate::text::{contains, has_infix, str_eq};

verus! {

/// An ability of the character sheet that is missing from the reference service's list.
#[derive(Debug, Clone, Copy, PartialEq, Eq, Structural)]
pub struct UnexpectedAbility;

/// The identifiers of the six abilities of a character sheet, in order.
pub open spec fn ability_names() -> Seq<Seq<char>> {
    seq![
        "strength"@,
        "dexterity"@,
        "constitution"@,
        "intelligence"@,
        "wisdom"@,
        "charisma"@,
    ]
}

/// Checks the reference service's list of ability identifiers against the six abilities of a
/// character sheet: each of them has to be in it.
pub fn check_ability_indexes(known: &Vec<String>) -> (r: Result<(), UnexpectedAbility>)
    ensures
        r is Ok <==> forall|i: int|
            0 <= i < 6 ==> strings_view(known@).contains(#[trigger] ability_names()[i]),
{
    let names: [&str; 6] = ["strength", "dexterity", "constitution", "intelligence", "wisdom", "charisma"];
    let mut i: usize = 0;
    while i < 6
        invariant
            i <= 6,
            forall|k: int| 0 <= k < 6 ==> #[trigger] names@[k]@ == ability_names()[k],
            forall|k: int| 0 <= k < i ==> strings_view(known@).contains(#[trigger] ability_names()[k]),
        decreases 6 - i,
    {
        if !names_contain(known, names[i]) {
            return Err(UnexpectedAbility);
        }
        i = i + 1;
    }
    Ok(())
}

/// Why an inventory change was refused; the inventory is then left as it was.
#[derive(Debug, Clone, Copy, PartialEq, Eq, Structural)]
pub enum InventoryError {
    /// The item is not in the inventory.
    ItemNotFound,
    /// A quantity cannot be changed by zero.
    ZeroQuantity,
    /// More of the item was to be taken out than the inventory holds.
    NotEnough,
}

/// The experience needed for level `i + 2`, for `i` from 0 to 18.
pub open spec fn threshold(i: int) -> int {
    if i == 0 {
        300
    } else if i == 1 {
        900
    } else if i == 2 {
        2_700
    } else if i == 3 {
        6_500
    } else if i == 4 {
        14_000
    } else if i == 5 {
        23_000
    } else if i == 6 {
        34_000
    } else if i == 7 {
        48_000
    } else if i == 8 {
        64_000
    } else if i == 9 {
        85_000
    } else if i == 10 {
        100_000
    } else if i == 11 {
        120_000
    } else if i == 12 {
        140_000
    } else if i == 13 {
        165_000
    } else if i == 14 {
        195_000
    } else if i == 15 {
        225_000
    } else if i == 16 {
        265_000
    } else if i == 17 {
        305_000
    } else {
        355_000
    }
}

/// How many of the first `n` thresholds `xp` has reached.
pub open spec fn thresholds_reached(xp: int, n: int) -> nat
    decreases n,
{
    if n <= 0 {
        0
    } else {
        thresholds_reached(xp, n - 1) + if threshold(n - 1) <= xp {
            1nat
        } else {
            0nat
        }
    }
}

/// The level that `xp` experience points give: one more than the number of the nineteen
/// thresholds that it reaches.
pub open spec fn level_of(xp: int) -> nat {
    1 + thresholds_reached(xp, 19)
}

/// The experience that [`Character::add_experience`] banks from `xp` at `current` points: no
/// more than what the next threshold needs, and all of it at the last level.
pub open spec fn banked_experience(current: int, xp: int) -> int {
    let level = level_of(current);
    if level < 20 {
        let room = threshold(level - 1) - current;
        if room < xp {
            room
        } else {
            xp
        }
    } else {
        xp
    }
}

/// Thresholds below the level are reached, the next one is not.
proof fn lemma_level_thresholds(xp: int)
    requires
        xp >= 0,
    ensures
        1 <= level_of(xp) <= 20,
        level_of(xp) >= 2 ==> threshold(level_of(xp) - 2) <= xp,
        level_of(xp) < 20 ==> xp < threshold(level_of(xp) - 1),
{
    reveal_with_fuel(thresholds_reached, 20);
}

/// The entry for `item` in an inventory, if any.
pub open spec fn item_at(inv: Seq<(String, u16)>, i: int, item: Seq<char>) -> bool {
    0 <= i < inv.len() && inv[i].0@ == item
}

/// The inventory holds `item`.
pub open spec fn has_item(inv: Seq<(String, u16)>, item: Seq<char>) -> bool {
    exists|i: int| item_at(inv, i, item)
}

/// The position of `item` in an inventory that holds it.
pub open spec fn item_index(inv: Seq<(String, u16)>, item: Seq<char>) -> int {
    choose|i: int| item_at(inv, i, item)
}

/// No item has two entries.
pub open spec fn inventory_wf(inv: Seq<(String, u16)>) -> bool {
    forall|i: int, j: int| 0 <= i < j < inv.len() ==> #[trigger] inv[i].0@ != #[trigger] inv[j].0@
}

/// `after` is `before` with `amount` more of `item`: its quantity grows if it is there, and a
/// new entry comes last otherwise.
pub open spec fn item_added(
    before: Seq<(String, u16)>,
    after: Seq<(String, u16)>,
    item: Seq<char>,
    amount: u16,
) -> bool {
    if has_item(before, item) {
        let i = item_index(before, item);
        after.len() == before.len() && after[i].0 == before[i].0 && after[i].1 == before[i].1
            + amount && forall|j: int| 0 <= j < before.len() && j != i ==> after[j] == before[j]
    } else {
        after.len() == before.len() + 1 && after.drop_last() == before && after.last().0@ == item
            && after.last().1 == amount
    }
}

/// Taking `amount` of `item` out of `inv` asks for more than it holds.
pub open spec fn removal_exceeds(inv: Seq<(String, u16)>, item: Seq<char>, amount: Option<u16>) -> bool {
    amount matches Some(a) && a > inv[item_index(inv, item)].1
}

/// `after` is `before` with `amount` of `item` taken out, where `before` holds at least that
/// much of `item`; the entry goes when nothing is left, and when no amount is given.
pub open spec fn item_removed(
    before: Seq<(String, u16)>,
    after: Seq<(String, u16)>,
    item: Seq<char>,
    amount: Option<u16>,
) -> bool {
    let i = item_index(before, item);
    let q = before[i].1;
    let take = match amount {
        Some(a) => a,
        None => q,
    };
    if take == q {
        after == before.remove(i)
    } else {
        after.len() == before.len() && after[i].0 == before[i].0 && after[i].1 == q - take
            && forall|j: int| 0 <= j < before.len() && j != i ==> after[j] == before[j]
    }
}

/// The position of `item` in `inv`, if it is there.
fn find_item(inv: &Vec<(String, u16)>, item: &str) -> (r: Option<usize>)
    requires
        inventory_wf(inv@),
    ensures
        match r {
            Some(i) => item_at(inv@, i as int, item@) && i as int == item_index(inv@, item@),
            None => !has_item(inv@, item@),
        },
{
    let mut i: usize = 0;
    while i < inv.len()
        invariant
            i <= inv@.len(),
            inventory_wf(inv@),
            forall|k: int| 0 <= k < i ==> !item_at(inv@, k, item@),
        decreases inv.len() - i,
    {
        if str_eq(inv[i].0.as_str(), item) {
            proof {
                assert(item_at(inv@, i as int, item@));
                let k = item_index(inv@, item@);
                assert(item_at(inv@, k, item@));
                assert(k == i) by {
                    if k < i {
                        assert(inv@[k].0@ != inv@[i as int].0@);
                    } else if k > i {
                        assert(inv@[i as int].0@ != inv@[k].0@);
                    }
                }
            }
            return Some(i);
        }
        i = i + 1;
    }
    None
}

/// The experience needed for level `i + 2`.
fn level_threshold(i: usize) -> (r: u32)
    requires
        i < 19,
    ensures
        r == threshold(i as int),
{
    if i == 0 {
        300
    } else if i == 1 {
        900
    } else if i == 2 {
        2_700
    } else if i == 3 {
        6_500
    } else if i == 4 {
        14_000
    } else if i == 5 {
        23_000
    } else if i == 6 {
        34_000
    } else if i == 7 {
        48_000
    } else if i == 8 {
        64_000
    } else if i == 9 {
        85_000
    } else if i == 10 {
        100_000
    } else if i == 11 {
        120_000
    } else if i == 12 {
        140_000
    } else if i == 13 {
        165_000
    } else if i == 14 {
        195_000
    } else if i == 15 {
        225_000
    } else if i == 16 {
        265_000
    } else if i == 17 {
        305_000
    } else {
        355_000
    }
}

/// A character sheet.
#[derive(Debug)]
pub struct Character {
    /// The classes of the character.
    pub classes: Classes,
    pub name: String,
    pub age: u16,
    /// Race identifier.
    pub race_index: String,
    /// Subrace identifier.
    pub subrace_index: String,
    /// Alignment identifier.
    pub alignment_index: String,
    /// Physical description.
    pub description: String,
    /// Background identifier.
    pub background_index: String,
    pub background_description: String,
    /// Experience gathered so far; it only grows, through [`Character::add_experience`].
    pub experience_points: u32,
    pub money: u32,
    /// The base ability scores; each class adds its own modifiers on top of them.
    pub abilities_score: Abilities,
    pub hp: u16,
    /// The running total of the hit dice rolled at each level.
    pub hit_dice_result: u16,
    /// Item identifiers with their quantities, one entry per item.
    pub inventory: Vec<(String, u16)>,
    /// Free notes.
    pub other: Vec<String>,
}

impl Character {
    /// The classes have distinct identifiers and the inventory one entry per item.
    pub open spec fn wf(&self) -> bool {
        self.classes.wf() && inventory_wf(self.inventory@)
    }

    /// The base scores followed by the modifiers of each class, in order.
    pub open spec fn ability_layers(&self) -> Seq<Abilities> {
        seq![self.abilities_score] + self.classes.0@.map_values(
            |c: Class| c.1.abilities_modifiers,
        )
    }

    /// The scores of the character: the base scores with every class's modifiers added.
    pub open spec fn total_abilities_spec(&self) -> Abilities {
        Abilities::total(self.ability_layers())
    }

    /// Every total score fits in a `u8`.
    pub open spec fn totals_fit(&self) -> bool {
        Abilities::can_total(self.ability_layers())
    }

    /// The level of the character.
    pub open spec fn level_spec(&self) -> nat {
        level_of(self.experience_points as int)
    }

    /// Maximum hit points: the hit dice total plus the constitution modifier once per level,
    /// kept between 0 and `u16::MAX`.
    pub open spec fn max_hp_spec(&self) -> int {
        let v = score_modifier(self.total_abilities_spec().constitution.score as int)
            * self.level_spec() + self.hit_dice_result;
        if v < 0 {
            0
        } else if v > u16::MAX {
            u16::MAX as int
        } else {
            v
        }
    }

    /// Armor class from the first class: 10 plus the dexterity modifier, with the wisdom
    /// modifier added for a monk, the constitution modifier for a barbarian, and 13 as the base
    /// for a sorcerer; one more with a defense fighting style.
    pub open spec fn class_armor_spec(&self) -> int {
        let first = self.classes.0@[0];
        let t = self.total_abilities_spec();
        let dex = score_modifier(t.dexterity.score as int);
        let base = if first.index_spec() == "monk"@ {
            10 + dex + score_modifier(t.wisdom.score as int)
        } else if first.index_spec() == "sorcerer"@ {
            13 + dex
        } else if first.index_spec() == "barbarian"@ {
            10 + dex + score_modifier(t.constitution.score as int)
        } else {
            10 + dex
        };
        base + if has_defense_style(first.1.fighting_style) || has_defense_style(
            first.1.additional_fighting_style,
        ) {
            1int
        } else {
            0int
        }
    }

    /// A new character of level 1 with the main class alone, no experience, money, hit points
    /// or items, and zero ability scores.
    pub fn new(
        main_class: String,
        name: String,
        age: u16,
        race_index: String,
        subrace_index: String,
        alignment_index: String,
        description: String,
        background_index: String,
        background_description: String,
    ) -> (r: Character)
        ensures
            r.wf(),
            r.classes.0@.len() == 1,
            r.classes.0@[0].index_spec() == main_class@,
            r.classes.0@[0].1.is_fresh(main_class@),
            r.name == name,
            r.age == age,
            r.race_index == race_index,
            r.subrace_index == subrace_index,
            r.alignment_index == alignment_index,
            r.description == description,
            r.background_index == background_index,
            r.background_description == background_description,
            r.experience_points == 0,
            r.money == 0,
            r.abilities_score == Abilities::zero(),
            r.hp == 0,
            r.hit_dice_result == 0,
            r.inventory@.len() == 0,
            r.other@.len() == 0,
    {
        Character {
            classes: Classes::new(main_class),
            name,
            age,
            race_index,
            subrace_index,
            alignment_index,
            description,
            background_index,
            background_description,
            experience_points: 0,
            money: 0,
            abilities_score: Abilities::default(),
            hp: 0,
            hit_dice_result: 0,
            inventory: Vec::new(),
            other: Vec::new(),
        }
    }

    /// The current level of the character.
    pub fn level(&self) -> (r: u8)
        ensures
            r == self.level_spec(),
            1 <= r <= 20,
    {
        let mut count: u8 = 0;
        let mut i: usize = 0;
        while i < 19
            invariant
                i <= 19,
                count == thresholds_reached(self.experience_points as int, i as int),
                count <= i,
            decreases 19 - i,
        {
            if level_threshold(i) <= self.experience_points {
                count = count + 1;
            }
            i = i + 1;
        }
        count + 1
    }

    /// The experience points of the character.
    pub fn experience_points(&self) -> (r: u32)
        ensures
            r == self.experience_points,
    {
        self.experience_points
    }

    /// Adds experience, but never past the next level's threshold in one call, and returns
    /// the number of levels gained. Class levels are not changed: raise them with
    /// [`Class::set_level`], which leaves room for several classes.
    pub fn add_experience(&mut self, experience: u32) -> (r: u8)
        requires
            old(self).level_spec() == 20 ==> old(self).experience_points + experience
                <= u32::MAX,
        ensures
            final(self).experience_points == old(self).experience_points + banked_experience(
                old(self).experience_points as int,
                experience as int,
            ),
            old(self).level_spec() < 20 ==> final(self).experience_points <= threshold(
                old(self).level_spec() - 1,
            ),
            r == final(self).level_spec() - old(self).level_spec(),
            r <= 1,
            *final(self) == (Character {
                experience_points: final(self).experience_points,
                ..*old(self)
            }),
    {
        let previous = self.level();
        proof {
            lemma_level_thresholds(self.experience_points as int);
        }
        let to_add = if previous < 20 {
            let room = level_threshold((previous - 1) as usize) - self.experience_points;
            if room < experience {
                room
            } else {
                experience
            }
        } else {
            experience
        };
        self.experience_points = self.experience_points + to_add;
        let current = self.level();
        proof {
            lemma_level_thresholds(self.experience_points as int);
            reveal_with_fuel(thresholds_reached, 20);
        }
        current - previous
    }

    /// The scores of the character: the base scores with every class's modifiers added.
    pub fn total_abilities(&self) -> (r: Abilities)
        requires
            self.totals_fit(),
        ensures
            r == self.total_abilities_spec(),
    {
        let mut layers: Vec<Abilities> = Vec::new();
        layers.push(self.abilities_score);
        let mut i: usize = 0;
        while i < self.classes.0.len()
            invariant
                i <= self.classes.0@.len(),
                layers@ =~= self.ability_layers().subrange(0, i as int + 1),
            decreases self.classes.0.len() - i,
        {
            layers.push(self.classes.0[i].1.abilities_modifiers);
            i = i + 1;
        }
        assert(layers@ =~= self.ability_layers());
        Abilities::sum(&layers)
    }

    /// Whether every total score fits in a `u8`, as [`Character::max_hp`] and
    /// [`Character::class_armor`] need.
    pub fn abilities_fit(&self) -> (r: bool)
        ensures
            r == self.totals_fit(),
    {
        let ghost layers = self.ability_layers();
        let mut total = self.abilities_score;
        proof {
            assert(layers[0] == self.abilities_score);
            assert(layers.subrange(0, 1).last() == layers[0]);
            assert(Abilities::can_total(Seq::<Abilities>::empty()));
            assert(Abilities::total(Seq::<Abilities>::empty()) == Abilities::zero());
            assert(layers.subrange(0, 1).drop_last() =~= Seq::<Abilities>::empty());
            assert(Abilities::total(Seq::<Abilities>::empty()).plus(self.abilities_score)
                =~= self.abilities_score);
            assert(Abilities::can_total(layers.subrange(0, 1)));
            assert(Abilities::total(layers.subrange(0, 1)) == self.abilities_score);
        }
        let mut i: usize = 0;
        while i < self.classes.0.len()
            invariant
                i <= self.classes.0@.len(),
                layers == self.ability_layers(),
                layers.len() == self.classes.0@.len() + 1,
                Abilities::can_total(layers.subrange(0, i as int + 1)),
                total == Abilities::total(layers.subrange(0, i as int + 1)),
            decreases self.classes.0.len() - i,
        {
            let m = self.classes.0[i].1.abilities_modifiers;
            proof {
                assert(layers.subrange(0, i as int + 2).drop_last() =~= layers.subrange(0, i as int + 1));
                assert(layers[i as int + 1] == m);
            }
            if !fits_sum(&total, &m) {
                proof {
                    assert(!Abilities::can_total(layers.subrange(0, i as int + 2)));
                    lemma_cannot_total_longer(layers, i as int + 2);
                    assert(layers.subrange(0, layers.len() as int) =~= layers);
                }
                return false;
            }
            total = total.add(m);
            i = i + 1;
        }
        assert(layers.subrange(0, i as int + 1) =~= layers);
        true
    }

    /// Maximum hit points; see [`Character::max_hp_spec`].
    pub fn max_hp(&self) -> (r: u16)
        requires
            self.totals_fit(),
        ensures
            r == self.max_hp_spec(),
    {
        let total = self.total_abilities();
        let modifier = total.constitution.modifier(0) as i32;
        let level = self.level() as i32;
        assert(-5 <= modifier <= 122);
        assert(-100 <= modifier * level <= 2440) by (nonlinear_arith)
            requires
                -5 <= modifier <= 122,
                1 <= level <= 20,
        ;
        let v = modifier * level + self.hit_dice_result as i32;
        if v < 0 {
            0
        } else if v > u16::MAX as i32 {
            u16::MAX
        } else {
            v as u16
        }
    }

    /// Armor class; see [`Character::class_armor_spec`].
    pub fn class_armor(&self) -> (r: i8)
        requires
            self.classes.0@.len() > 0,
            self.totals_fit(),
            i8::MIN <= self.class_armor_spec() <= i8::MAX,
        ensures
            r == self.class_armor_spec(),
    {
        let first = &self.classes.0[0];
        let total = self.total_abilities();
        let dex = total.dexterity.modifier(0) as i16;
        let index = first.index();
        let mut base: i16 = if str_eq(index, "monk") {
            10 + dex + total.wisdom.modifier(0) as i16
        } else if str_eq(index, "sorcerer") {
            13 + dex
        } else if str_eq(index, "barbarian") {
            10 + dex + total.constitution.modifier(0) as i16
        } else {
            10 + dex
        };
        if has_defense(&first.1.fighting_style) || has_defense(&first.1.additional_fighting_style) {
            base = base + 1;
        }
        base as i8
    }

    /// Takes `amount` of `item` out of the inventory, or all of it when no amount is given;
    /// the entry goes when nothing is left. Taking out an item that is not there, or more of
    /// it than is there, is refused and changes nothing.
    pub fn remove_item(&mut self, item: &str, amount: Option<u16>) -> (r: Result<(), InventoryError>)
        requires
            old(self).wf(),
        ensures
            final(self).wf(),
            *final(self) == (Character { inventory: final(self).inventory, ..*old(self) }),
            has_item(old(self).inventory@, item@) && !removal_exceeds(
                old(self).inventory@,
                item@,
                amount,
            ) ==> r is Ok && item_removed(old(self).inventory@, final(self).inventory@, item@, amount),
            has_item(old(self).inventory@, item@) && removal_exceeds(
                old(self).inventory@,
                item@,
                amount,
            ) ==> r == Err::<(), InventoryError>(InventoryError::NotEnough) && final(self).inventory
                == old(self).inventory,
            !has_item(old(self).inventory@, item@) ==> r == Err::<(), InventoryError>(
                InventoryError::ItemNotFound,
            ) && final(self).inventory == old(self).inventory,
    {
        match find_item(&self.inventory, item) {
            None => Err(InventoryError::ItemNotFound),
            Some(i) => {
                let quantity = self.inventory[i].1;
                let take = match amount {
                    Some(a) => a,
                    None => quantity,
                };
                if take > quantity {
                    return Err(InventoryError::NotEnough);
                }
                if quantity == take {
                    let ghost before = self.inventory@;
                    let _ = self.inventory.remove(i);
                    proof {
                        assert forall|a: int, b: int|
                            0 <= a < b < self.inventory@.len() implies #[trigger] self.inventory@[a].0@
                            != #[trigger] self.inventory@[b].0@ by {
                            let a0 = if a < i { a } else { a + 1 };
                            let b0 = if b < i { b } else { b + 1 };
                            assert(before[a0].0@ != before[b0].0@);
                        }
                    }
                } else {
                    let name = self.inventory[i].0.clone();
                    self.inventory.set(i, (name, quantity - take));
                    proof {
                        assert forall|a: int, b: int|
                            0 <= a < b < self.inventory@.len() implies #[trigger] self.inventory@[a].0@
                            != #[trigger] self.inventory@[b].0@ by {
                            assert(old(self).inventory@[a].0@ != old(self).inventory@[b].0@);
                        }
                    }
                }
                Ok(())
            },
        }
    }

    /// Adds `amount` of `item`: to its entry if it has one, as a new last entry otherwise.
    pub fn add_item(&mut self, item: &str, amount: u16)
        requires
            old(self).wf(),
            has_item(old(self).inventory@, item@) ==> old(self).inventory@[item_index(
                old(self).inventory@,
                item@,
            )].1 + amount <= u16::MAX,
        ensures
            final(self).wf(),
            *final(self) == (Character { inventory: final(self).inventory, ..*old(self) }),
            item_added(old(self).inventory@, final(self).inventory@, item@, amount),
    {
        match find_item(&self.inventory, item) {
            Some(i) => {
                let name = self.inventory[i].0.clone();
                let quantity = self.inventory[i].1;
                self.inventory.set(i, (name, quantity + amount));
                proof {
                    assert forall|a: int, b: int|
                        0 <= a < b < self.inventory@.len() implies #[trigger] self.inventory@[a].0@
                        != #[trigger] self.inventory@[b].0@ by {
                        assert(old(self).inventory@[a].0@ != old(self).inventory@[b].0@);
                    }
                }
            },
            None => {
                self.inventory.push((String::from_str(item), amount));
                proof {
                    assert(self.inventory@.drop_last() =~= old(self).inventory@);
                    assert forall|a: int, b: int|
                        0 <= a < b < self.inventory@.len() implies #[trigger] self.inventory@[a].0@
                        != #[trigger] self.inventory@[b].0@ by {
                        if b == self.inventory@.len() - 1 {
                            assert(!item_at(old(self).inventory@, a, item@));
                        } else {
                            assert(old(self).inventory@[a].0@ != old(self).inventory@[b].0@);
                        }
                    }
                }
            },
        }
    }

    /// Changes the quantity of `item` by `amount`: a positive amount adds, a negative one
    /// removes, and zero is refused.
    pub fn alter_item_quantity(&mut self, item: &str, amount: i32) -> (r: Result<(), InventoryError>)
        requires
            old(self).wf(),
            -(u16::MAX as int) <= amount <= u16::MAX,
            amount > 0 && has_item(old(self).inventory@, item@) ==> old(self).inventory@[item_index(
                old(self).inventory@,
                item@,
            )].1 + amount <= u16::MAX,
        ensures
            final(self).wf(),
            *final(self) == (Character { inventory: final(self).inventory, ..*old(self) }),
            amount == 0 ==> r == Err::<(), InventoryError>(InventoryError::ZeroQuantity)
                && final(self).inventory == old(self).inventory,
            amount > 0 ==> r is Ok && item_added(
                old(self).inventory@,
                final(self).inventory@,
                item@,
                amount as u16,
            ),
            amount < 0 && has_item(old(self).inventory@, item@) && !removal_exceeds(
                old(self).inventory@,
                item@,
                Some((-amount) as u16),
            ) ==> r is Ok && item_removed(
                old(self).inventory@,
                final(self).inventory@,
                item@,
                Some((-amount) as u16),
            ),
            amount < 0 && has_item(old(self).inventory@, item@) && removal_exceeds(
                old(self).inventory@,
                item@,
                Some((-amount) as u16),
            ) ==> r == Err::<(), InventoryError>(InventoryError::NotEnough) && final(self).inventory
                == old(self).inventory,
            amount < 0 && !has_item(old(self).inventory@, item@) ==> r == Err::<(), InventoryError>(
                InventoryError::ItemNotFound,
            ) && final(self).inventory == old(self).inventory,
    {
        if amount > 0 {
            self.add_item(item, amount as u16);
            Ok(())
        } else if amount < 0 {
            self.remove_item(item, Some((-amount) as u16))
        } else {
            Err(InventoryError::ZeroQuantity)
        }
    }
}

/// Whether adding `b` to `a` keeps every score within a `u8`.
fn fits_sum(a: &Abilities, b: &Abilities) -> (r: bool)
    ensures
        r == a.can_add(*b),
{
    fits(a.strength, b.strength) && fits(a.dexterity, b.dexterity) && fits(
        a.constitution,
        b.constitution,
    ) && fits(a.intelligence, b.intelligence) && fits(a.wisdom, b.wisdom) && fits(
        a.charisma,
        b.charisma,
    )
}

fn fits(a: AbilityScore, b: AbilityScore) -> (r: bool)
    ensures
        r == (a.score + b.score <= u8::MAX),
{
    a.score as u16 + b.score as u16 <= u8::MAX as u16
}

/// A fold that leaves the bounds on a prefix leaves them on every longer prefix.
proof fn lemma_cannot_total_longer(layers: Seq<Abilities>, n: int)
    requires
        0 <= n <= layers.len(),
        !Abilities::can_total(layers.subrange(0, n)),
    ensures
        !Abilities::can_total(layers.subrange(0, layers.len() as int)),
    decreases layers.len() - n,
{
    if n < layers.len() {
        assert(layers.subrange(0, n + 1).drop_last() =~= layers.subrange(0, n));
        lemma_cannot_total_longer(layers, n + 1);
    }
}

/// The fighting style slot holds a defense style.
pub open spec fn has_defense_style(slot: Option<String>) -> bool {
    slot matches Some(s) && has_infix(s@, "defense"@)
}

/// Whether the fighting style slot holds a defense style.
fn has_defense(slot: &Option<String>) -> (r: bool)
    ensures
        r == has_defense_style(*slot),
{
    match slot {
        Some(s) => contains(s.as_str(), "defense"),
        None => false,
    }
}

} // verus!
