use vstd::prelude::*;

verus! {

/// The modifier that an ability score gives, before any proficiency bonus:
/// `floor((score - 10) / 2)`.
pub open spec fn score_modifier(score: int) -> int {
    (score - 10) / 2
}

/// One of the six core statistics, with the flag that says whether the
/// character is proficient in it.
#[derive(Debug, Clone, Copy, PartialEq, Eq, Structural)]
pub struct AbilityScore {
    pub score: u8,
    pub proficiency: bool,
}

impl Default for AbilityScore {
    fn default() -> (r: Self)
        ensures
            r.score == 0,
            !r.proficiency,
    {
        AbilityScore { score: 0, proficiency: false }
    }
}

impl AbilityScore {
    /// The modifier with `bonus` added when the score is proficient.
    pub open spec fn modifier_spec(&self, bonus: int) -> int {
        score_modifier(self.score as int) + if self.proficiency {
            bonus
        } else {
            0
        }
    }

    pub fn new(score: u8, proficiency: bool) -> (r: Self)
        ensures
            r.score == score,
            r.proficiency == proficiency,
    {
        AbilityScore { score, proficiency }
    }

    /// Returns the modifier of the ability score.
    /// Pass the proficiency bonus to have it counted for a proficient score, 0 otherwise.
    pub fn modifier(&self, proficiency_bonus: u8) -> (r: i8)
        requires
            self.modifier_spec(proficiency_bonus as int) <= i8::MAX,
        ensures
            r as int == self.modifier_spec(proficiency_bonus as int),
    {
        let half: i8 = (self.score / 2) as i8;
        let base: i8 = half - 5;
        assert(base as int == score_modifier(self.score as int));
        if self.proficiency {
            (base as i16 + proficiency_bonus as i16) as i8
        } else {
            base
        }
    }

    /// Sums the scores and joins the proficiency flags.
    pub fn add(self, other: Self) -> (r: Self)
        requires
            self.score + other.score <= u8::MAX,
        ensures
            r.score == self.score + other.score,
            r.proficiency == (self.proficiency || other.proficiency),
    {
        AbilityScore {
            score: self.score + other.score,
            proficiency: self.proficiency || other.proficiency,
        }
    }

    /// In place form of [`AbilityScore::add`].
    pub fn add_assign(&mut self, other: Self)
        requires
            old(self).score + other.score <= u8::MAX,
        ensures
            final(self).score == old(self).score + other.score,
            final(self).proficiency == (old(self).proficiency || other.proficiency),
    {
        self.score = self.score + other.score;
        self.proficiency = self.proficiency || other.proficiency;
    }

    /// The total of the scores in `items`.
    pub open spec fn total_score(items: Seq<AbilityScore>) -> int
        decreases items.len(),
    {
        if items.len() == 0 {
            0
        } else {
            Self::total_score(items.drop_last()) + items.last().score
        }
    }

    /// Whether some score in `items` is proficient.
    pub open spec fn any_proficient(items: Seq<AbilityScore>) -> bool {
        exists|i: int| 0 <= i < items.len() && #[trigger] items[i].proficiency
    }

    /// Folds `items` with [`AbilityScore::add`], starting from the zero score.
    pub fn sum(items: &Vec<AbilityScore>) -> (r: Self)
        requires
            Self::total_score(items@) <= u8::MAX,
        ensures
            r.score == Self::total_score(items@),
            r.proficiency == Self::any_proficient(items@),
    {
        let mut total = AbilityScore::default();
        let mut i: usize = 0;
        while i < items.len()
            invariant
                i <= items@.len(),
                Self::total_score(items@) <= u8::MAX,
                total.score == Self::total_score(items@.subrange(0, i as int)),
                total.proficiency == Self::any_proficient(items@.subrange(0, i as int)),
            decreases items.len() - i,
        {
            proof {
                Self::lemma_total_prefix_monotone(items@, i as int + 1, items@.len() as int);
                assert(items@.subrange(0, i as int + 1).drop_last() =~= items@.subrange(0, i as int));
                assert(items@ =~= items@.subrange(0, items@.len() as int));
            }
            total.add_assign(items[i]);
            proof {
                let s = items@.subrange(0, i as int + 1);
                if total.proficiency {
                    if !items@[i as int].proficiency {
                        let k = choose|k: int| 0 <= k < i && #[trigger] items@.subrange(0, i as int)[k].proficiency;
                        assert(s[k].proficiency);
                    } else {
                        assert(s[i as int].proficiency);
                    }
                } else {
                    assert forall|k: int| 0 <= k < s.len() implies !#[trigger] s[k].proficiency by {
                        if k < i {
                            assert(s[k] == items@.subrange(0, i as int)[k]);
                        }
                    }
                }
            }
            i = i + 1;
        }
        assert(items@ =~= items@.subrange(0, i as int));
        total
    }

    /// The total over a prefix never exceeds the total over a longer prefix.
    proof fn lemma_total_prefix_monotone(items: Seq<AbilityScore>, a: int, b: int)
        requires
            0 <= a <= b <= items.len(),
        ensures
            Self::total_score(items.subrange(0, a)) <= Self::total_score(items.subrange(0, b)),
        decreases b - a,
    {
        if a < b {
            Self::lemma_total_prefix_monotone(items, a, b - 1);
            assert(items.subrange(0, b).drop_last() =~= items.subrange(0, b - 1));
        }
    }
}

/// The six core statistics of a character.
#[derive(Debug, Clone, Copy, PartialEq, Eq, Structural)]
pub struct Abilities {
    pub strength: AbilityScore,
    pub dexterity: AbilityScore,
    pub constitution: AbilityScore,
    pub intelligence: AbilityScore,
    pub wisdom: AbilityScore,
    pub charisma: AbilityScore,
}

impl Default for Abilities {
    fn default() -> (r: Self)
        ensures
            r == Abilities::zero(),
    {
        Abilities {
            strength: AbilityScore::default(),
            dexterity: AbilityScore::default(),
            constitution: AbilityScore::default(),
            intelligence: AbilityScore::default(),
            wisdom: AbilityScore::default(),
            charisma: AbilityScore::default(),
        }
    }
}

impl Abilities {
    /// Six zero scores, none proficient.
    pub open spec fn zero() -> Abilities {
        let z = AbilityScore { score: 0, proficiency: false };
        Abilities {
            strength: z,
            dexterity: z,
            constitution: z,
            intelligence: z,
            wisdom: z,
            charisma: z,
        }
    }

    /// Whether adding `other` field by field keeps every score within a `u8`.
    pub open spec fn can_add(self, other: Abilities) -> bool {
        &&& self.strength.score + other.strength.score <= u8::MAX
        &&& self.dexterity.score + other.dexterity.score <= u8::MAX
        &&& self.constitution.score + other.constitution.score <= u8::MAX
        &&& self.intelligence.score + other.intelligence.score <= u8::MAX
        &&& self.wisdom.score + other.wisdom.score <= u8::MAX
        &&& self.charisma.score + other.charisma.score <= u8::MAX
    }

    /// Field by field sum of two sets of abilities.
    pub open spec fn plus(self, other: Abilities) -> Abilities {
        Abilities {
            strength: score_plus(self.strength, other.strength),
            dexterity: score_plus(self.dexterity, other.dexterity),
            constitution: score_plus(self.constitution, other.constitution),
            intelligence: score_plus(self.intelligence, other.intelligence),
            wisdom: score_plus(self.wisdom, other.wisdom),
            charisma: score_plus(self.charisma, other.charisma),
        }
    }

    /// Adds the scores field by field and joins the proficiency flags.
    pub fn add(self, other: Self) -> (r: Self)
        requires
            self.can_add(other),
        ensures
            r == self.plus(other),
    {
        Abilities {
            strength: self.strength.add(other.strength),
            dexterity: self.dexterity.add(other.dexterity),
            constitution: self.constitution.add(other.constitution),
            intelligence: self.intelligence.add(other.intelligence),
            wisdom: self.wisdom.add(other.wisdom),
            charisma: self.charisma.add(other.charisma),
        }
    }

    /// In place form of [`Abilities::add`].
    pub fn add_assign(&mut self, other: Self)
        requires
            old(self).can_add(other),
        ensures
            *final(self) == old(self).plus(other),
    {
        *self = self.add(other);
    }

    /// The fold of `items` with [`Abilities::plus`], from [`Abilities::zero`].
    pub open spec fn total(items: Seq<Abilities>) -> Abilities
        decreases items.len(),
    {
        if items.len() == 0 {
            Abilities::zero()
        } else {
            Abilities::total(items.drop_last()).plus(items.last())
        }
    }

    /// Whether the fold of `items` keeps every score within a `u8` at each step.
    pub open spec fn can_total(items: Seq<Abilities>) -> bool
        decreases items.len(),
    {
        if items.len() == 0 {
            true
        } else {
            Abilities::can_total(items.drop_last()) && Abilities::total(items.drop_last()).can_add(
                items.last(),
            )
        }
    }

    /// Folds `items` with [`Abilities::add`], starting from six zero scores.
    pub fn sum(items: &Vec<Abilities>) -> (r: Self)
        requires
            Abilities::can_total(items@),
        ensures
            r == Abilities::total(items@),
    {
        let mut total = Abilities::default();
        let mut i: usize = 0;
        while i < items.len()
            invariant
                i <= items@.len(),
                Abilities::can_total(items@),
                total == Abilities::total(items@.subrange(0, i as int)),
            decreases items.len() - i,
        {
            proof {
                Abilities::lemma_can_total_prefix(items@, i as int + 1);
                assert(items@.subrange(0, i as int + 1).drop_last() =~= items@.subrange(0, i as int));
            }
            total.add_assign(items[i]);
            i = i + 1;
        }
        assert(items@ =~= items@.subrange(0, i as int));
        total
    }

    /// A fold that stays within bounds does so over each of its prefixes.
    pub proof fn lemma_can_total_prefix(items: Seq<Abilities>, n: int)
        requires
            Abilities::can_total(items),
            0 <= n <= items.len(),
        ensures
            Abilities::can_total(items.subrange(0, n)),
        decreases items.len() - n,
    {
        if n < items.len() {
            Abilities::lemma_can_total_prefix(items.drop_last(), n);
            assert(items.drop_last().subrange(0, n) =~= items.subrange(0, n));
        } else {
            assert(items.subrange(0, n) =~= items);
        }
    }
}

/// Sum of two scores as [`AbilityScore::add`] computes it, without the bound.
pub open spec fn score_plus(a: AbilityScore, b: AbilityScore) -> AbilityScore {
    AbilityScore { score: (a.score + b.score) as u8, proficiency: a.proficiency || b.proficiency }
}

} // verus!
