use vstd::prelude::*;

use crate::api::classes::{
    answered_features, answered_slots, day_reset, levels_listing, spellcasting_slots,
    LevelFeaturesQuery, LevelSpellcasting, SpellcastingQuery,
};
use crate::classes::{Class, Classes};
use crate::Character;

verus! {

/// Why a call to the reference service gave no usable answer.
#[derive(Debug, Clone)]
pub enum ApiError {
    /// The service could not be reached; the text says why.
    Transport(String),
    /// The service answered without a field that was expected.
    Schema,
}

/// What a character sheet can be refused for.
#[derive(Debug, Clone, Copy, PartialEq, Eq, Structural)]
pub enum CheckError {
    InvalidRace,
    InvalidClass,
    InvalidBackground,
    InvalidAlignment,
    InvalidAbilities,
}

/// The views of a sequence of strings.
pub open spec fn strings_view(v: Seq<String>) -> Seq<Seq<char>> {
    v.map_values(|s: String| s@)
}

/// The listings of the first `n` classes, one after the other, from the answers in `rs`
/// (one per class, in order); the first error stops it.
pub open spec fn classes_listing(
    cs: Seq<Class>,
    rs: Seq<Result<Option<LevelFeaturesQuery>, ApiError>>,
    passive: bool,
    n: int,
) -> Result<Seq<Seq<char>>, ApiError>
    decreases n,
{
    if n <= 0 {
        Ok(seq![])
    } else {
        match classes_listing(cs, rs, passive, n - 1) {
            Err(e) => Err(e),
            Ok(acc) => match answered_features(rs[n - 1]) {
                Err(e) => Err(e),
                Ok(names) => Ok(acc + levels_listing(names, passive, cs[n - 1].1)),
            },
        }
    }
}

/// The spell slot counts of the first `n` classes that have some, each with the class
/// identifier, from the answers in `rs` (one per class, in order); the first error stops it.
pub open spec fn classes_slots(
    cs: Seq<Class>,
    rs: Seq<Result<Option<SpellcastingQuery>, ApiError>>,
    n: int,
) -> Result<Seq<(Seq<char>, LevelSpellcasting)>, ApiError>
    decreases n,
{
    if n <= 0 {
        Ok(seq![])
    } else {
        match classes_slots(cs, rs, n - 1) {
            Err(e) => Err(e),
            Ok(acc) => match answered_slots(rs[n - 1]) {
                Err(e) => Err(e),
                Ok(None) => Ok(acc),
                Ok(Some(l)) => Ok(acc.push((cs[n - 1].index_spec(), l))),
            },
        }
    }
}

/// Once a listing has failed, longer ones fail with the same error.
proof fn lemma_listing_error_stays(
    cs: Seq<Class>,
    rs: Seq<Result<Option<LevelFeaturesQuery>, ApiError>>,
    passive: bool,
    a: int,
    b: int,
)
    requires
        0 <= a <= b,
        classes_listing(cs, rs, passive, a) is Err,
    ensures
        classes_listing(cs, rs, passive, b) == classes_listing(cs, rs, passive, a),
    decreases b - a,
{
    if a < b {
        lemma_listing_error_stays(cs, rs, passive, a, b - 1);
    }
}

/// Once a collection of slots has failed, longer ones fail with the same error.
proof fn lemma_slots_error_stays(
    cs: Seq<Class>,
    rs: Seq<Result<Option<SpellcastingQuery>, ApiError>>,
    a: int,
    b: int,
)
    requires
        0 <= a <= b,
        classes_slots(cs, rs, a) is Err,
    ensures
        classes_slots(cs, rs, b) == classes_slots(cs, rs, a),
    decreases b - a,
{
    if a < b {
        lemma_slots_error_stays(cs, rs, a, b - 1);
    }
}

impl Character {
    /// The features to show for every class, one class after the other, given the service's
    /// answer for each class (in order) to [`Class::levels_features_query`] with no start level.
    pub fn get_features(
        &self,
        passive: bool,
        responses: Vec<Result<Option<LevelFeaturesQuery>, ApiError>>,
    ) -> (r: Result<Vec<String>, ApiError>)
        requires
            responses@.len() == self.classes.0@.len(),
        ensures
            match classes_listing(self.classes.0@, responses@, passive, responses@.len() as int) {
                Err(e) => r == Err::<Vec<String>, ApiError>(e),
                Ok(all) => r matches Ok(v) && strings_view(v@) == all,
            },
    {
        let ghost rs = responses@;
        let mut rest = responses;
        let mut features: Vec<String> = Vec::new();
        let mut i: usize = 0;
        while i < self.classes.0.len()
            invariant
                i <= self.classes.0@.len(),
                rs.len() == self.classes.0@.len(),
                rs == responses@,
                rest@ == rs.subrange(i as int, rs.len() as int),
                classes_listing(self.classes.0@, rs, passive, i as int) matches Ok(acc) && strings_view(
                    features@,
                ) == acc,
            decreases self.classes.0.len() - i,
        {
            let response = rest.remove(0);
            assert(response == rs[i as int]);
            match self.classes.0[i].get_levels_features(passive, response) {
                Err(e) => {
                    proof {
                        assert(answered_features(rs[i as int]) is Err);
                        assert(classes_listing(self.classes.0@, rs, passive, i as int + 1) == Err::<
                            Seq<Seq<char>>,
                            ApiError,
                        >(e));
                        lemma_listing_error_stays(
                            self.classes.0@,
                            rs,
                            passive,
                            i as int + 1,
                            rs.len() as int,
                        );
                    }
                    return Err(e);
                },
                Ok(list) => {
                    let ghost prev = features@;
                    let mut j: usize = 0;
                    while j < list.len()
                        invariant
                            j <= list@.len(),
                            strings_view(features@) =~= strings_view(prev) + strings_view(
                                list@.subrange(0, j as int),
                            ),
                        decreases list.len() - j,
                    {
                        let ghost before = features@;
                        features.push(list[j].clone());
                        assert(list@.subrange(0, j as int + 1) =~= list@.subrange(0, j as int).push(
                            list@[j as int],
                        ));
                        assert(strings_view(features@) =~= strings_view(before).push(list@[j as int]@));
                        j = j + 1;
                    }
                    assert(list@.subrange(0, j as int) =~= list@);
                },
            }
            assert(rest@ =~= rs.subrange(i as int + 1, rs.len() as int));
            i = i + 1;
        }
        Ok(features)
    }

    /// The spell slot counts of every class that has some, with the class identifier, given
    /// the service's answer for each class (in order) to [`Class::spellcasting_query`].
    pub fn get_spellcasting_slots(
        &self,
        responses: Vec<Result<Option<SpellcastingQuery>, ApiError>>,
    ) -> (r: Result<Vec<(String, LevelSpellcasting)>, ApiError>)
        requires
            responses@.len() == self.classes.0@.len(),
        ensures
            match classes_slots(self.classes.0@, responses@, responses@.len() as int) {
                Err(e) => r == Err::<Vec<(String, LevelSpellcasting)>, ApiError>(e),
                Ok(all) => r matches Ok(v) && v@.len() == all.len() && forall|k: int|
                    0 <= k < all.len() ==> (#[trigger] v@[k]).0@ == all[k].0 && v@[k].1 == all[k].1,
            },
    {
        let ghost rs = responses@;
        let mut rest = responses;
        let mut slots: Vec<(String, LevelSpellcasting)> = Vec::new();
        let mut i: usize = 0;
        while i < self.classes.0.len()
            invariant
                i <= self.classes.0@.len(),
                rs.len() == self.classes.0@.len(),
                rs == responses@,
                rest@ == rs.subrange(i as int, rs.len() as int),
                classes_slots(self.classes.0@, rs, i as int) matches Ok(acc) && slots@.len()
                    == acc.len() && forall|k: int|
                    0 <= k < acc.len() ==> (#[trigger] slots@[k]).0@ == acc[k].0 && slots@[k].1
                        == acc[k].1,
            decreases self.classes.0.len() - i,
        {
            let response = rest.remove(0);
            assert(response == rs[i as int]);
            match spellcasting_slots(response) {
                Err(e) => {
                    proof {
                        assert(classes_slots(self.classes.0@, rs, i as int + 1) == Err::<
                            Seq<(Seq<char>, LevelSpellcasting)>,
                            ApiError,
                        >(e));
                        lemma_slots_error_stays(self.classes.0@, rs, i as int + 1, rs.len() as int);
                    }
                    return Err(e);
                },
                Ok(None) => {},
                Ok(Some(l)) => {
                    slots.push((String::from_str(self.classes.0[i].index()), l));
                },
            }
            assert(rest@ =~= rs.subrange(i as int + 1, rs.len() as int));
            i = i + 1;
        }
        Ok(slots)
    }

    /// Starts a new day: hit points back to the maximum, and each class reset as
    /// [`Class::new_day`] does, with `slots` holding the counts for each class in order.
    pub fn new_day(&mut self, slots: Vec<Option<LevelSpellcasting>>)
        requires
            old(self).totals_fit(),
            slots@.len() == old(self).classes.0@.len(),
        ensures
            final(self).hp == old(self).max_hp_spec(),
            final(self).classes.0@.len() == old(self).classes.0@.len(),
            forall|i: int|
                0 <= i < old(self).classes.0@.len() ==> (#[trigger] final(self).classes.0@[i]).0
                    == old(self).classes.0@[i].0 && day_reset(
                    old(self).classes.0@[i].1,
                    final(self).classes.0@[i].1,
                    slots@[i],
                ),
            *final(self) == (Character {
                hp: final(self).hp,
                classes: final(self).classes,
                ..*old(self)
            }),
    {
        self.hp = self.max_hp();
        let mut rest: Vec<Class> = Vec::new();
        core::mem::swap(&mut rest, &mut self.classes.0);
        let ghost taken = rest@;
        let mut done: Vec<Class> = Vec::new();
        let mut i: usize = 0;
        while i < slots.len()
            invariant
                i <= slots@.len(),
                slots@.len() == taken.len(),
                rest@ == taken.subrange(i as int, taken.len() as int),
                done@.len() == i,
                forall|k: int|
                    0 <= k < i ==> (#[trigger] done@[k]).0 == taken[k].0 && day_reset(
                        taken[k].1,
                        done@[k].1,
                        slots@[k],
                    ),
            decreases slots.len() - i,
        {
            let mut class = rest.remove(0);
            assert(class == taken[i as int]);
            class.new_day(slots[i]);
            done.push(class);
            assert(rest@ =~= taken.subrange(i as int + 1, taken.len() as int));
            i = i + 1;
        }
        self.classes = Classes(done);
    }
}

} // verus!
