use vstd::prelude::*;
use rand::Rng;
use crate::models::{Ability, Character};

verus! {

/// A die at or above this value counts as a success.
pub const DEFAULT_N6_TRESHOLD: u8 = 4;

/// Relies on rand's `thread_rng().gen_range(lo..=hi)`: a value drawn from `lo..=hi`
/// (it panics only on an empty range, which `requires` rules out).
#[verifier::external_body]
fn random_in_range(lo: usize, hi: usize) -> (r: usize)
    requires
        lo <= hi,
    ensures
        lo <= r <= hi,
{
    rand::thread_rng().gen_range(lo..=hi)
}

/// A value drawn from `0..bound`.
pub fn random_index(bound: usize) -> (r: usize)
    requires
        bound > 0,
    ensures
        r < bound,
{
    random_in_range(0, bound - 1)
}

/// The number of dice in `dice` that show `treshold` or more.
pub open spec fn count_at_least(dice: Seq<u8>, treshold: u8) -> nat
    decreases dice.len(),
{
    if dice.len() == 0 {
        0
    } else {
        count_at_least(dice.drop_last(), treshold) + if dice.last() >= treshold {
            1nat
        } else {
            0nat
        }
    }
}

/// `dice` could have come from rolling six-sided dice.
pub open spec fn are_d6(dice: Seq<u8>) -> bool {
    forall|i: int| 0 <= i < dice.len() ==> 1 <= #[trigger] dice[i] <= 6
}

proof fn lemma_count_bounds(dice: Seq<u8>, treshold: u8)
    ensures
        count_at_least(dice, treshold) <= dice.len(),
        (forall|i: int| 0 <= i < dice.len() ==> #[trigger] dice[i] < treshold) ==> count_at_least(
            dice,
            treshold,
        ) == 0,
        (forall|i: int| 0 <= i < dice.len() ==> #[trigger] dice[i] >= treshold) ==> count_at_least(
            dice,
            treshold,
        ) == dice.len(),
    decreases dice.len(),
{
    if dice.len() > 0 {
        lemma_count_bounds(dice.drop_last(), treshold);
        assert forall|i: int| 0 <= i < dice.len() - 1 implies dice.drop_last()[i] == dice[i] by {}
    }
}

/// Splits the dice in `dice` into those at or above `treshold` and the others,
/// and returns the two counts.
pub fn count_successes(dice: &Vec<u8>, treshold: u8) -> (r: (u16, u16))
    requires
        dice@.len() <= u16::MAX,
    ensures
        r.0 == count_at_least(dice@, treshold),
        r.0 + r.1 == dice@.len(),
{
    let mut successes: u16 = 0;
    let mut fails: u16 = 0;
    let mut i: usize = 0;
    while i < dice.len()
        invariant
            i <= dice@.len() <= u16::MAX,
            successes == count_at_least(dice@.subrange(0, i as int), treshold),
            successes + fails == i,
        decreases dice@.len() - i,
    {
        assert(dice@.subrange(0, i + 1).drop_last() =~= dice@.subrange(0, i as int));
        if dice[i] >= treshold {
            successes = successes + 1;
        } else {
            fails = fails + 1;
        }
        i = i + 1;
    }
    assert(dice@.subrange(0, i as int) =~= dice@);
    (successes, fails)
}

/// Rolls `rolls` six-sided dice and counts those at or above `treshold` (first)
/// and the others (second).
pub fn roll_nd6_against(rolls: u16, treshold: u8) -> (r: (u16, u16))
    ensures
        exists|dice: Seq<u8>|
            dice.len() == rolls && are_d6(dice) && r.0 == count_at_least(dice, treshold),
        r.0 + r.1 == rolls,
        treshold > 6 ==> r.0 == 0,
        treshold <= 1 ==> r.1 == 0,
{
    let mut dice: Vec<u8> = Vec::new();
    while dice.len() < rolls as usize
        invariant
            dice@.len() <= rolls,
            are_d6(dice@),
        decreases rolls - dice@.len(),
    {
        let die = random_in_range(1, 6) as u8;
        dice.push(die);
    }
    let r = count_successes(&dice, treshold);
    proof {
        lemma_count_bounds(dice@, treshold);
    }
    r
}

/// Checks `character`'s score in `ability` against `dificulty` with `check_fn`.
pub fn ability_check<F: Fn(u16, u8) -> bool>(
    character: Character,
    ability: Ability,
    dificulty: u8,
    check_fn: F,
) -> (r: bool)
    requires
        check_fn.requires((character.score(ability), dificulty)),
    ensures
        check_fn.ensures((character.score(ability), dificulty), r),
{
    let score = match ability {
        Ability::Strg => character.strg,
        Ability::Agil => character.agil,
        Ability::Def => character.def,
    };
    check_fn(score, dificulty)
}

/// What an ability check may return: it rolls one die per point of the score and
/// passes when at least `dificulty` of them reach the success threshold.
pub open spec fn check_outcome(score: u16, dificulty: u8, passed: bool) -> bool {
    exists|dice: Seq<u8>|
        dice.len() == score && are_d6(dice) && passed == (count_at_least(
            dice,
            DEFAULT_N6_TRESHOLD,
        ) >= dificulty)
}

/// Rolls one die per point of `character`'s score in `ability` and passes when at
/// least `dificulty` of them show the success threshold or more.
pub fn ability_check_with_nd6(character: Character, ability: Ability, dificulty: u8) -> (r: bool)
    ensures
        check_outcome(character.score(ability), dificulty, r),
        r ==> dificulty <= character.score(ability),
        !r ==> dificulty > 0,
        character.score(ability) == 0 && dificulty > 0 ==> !r,
{
    let check = |score: u16, dif: u8| -> (b: bool)
        ensures
            check_outcome(score, dif, b),
            b ==> dif <= score,
            !b ==> dif > 0,
        {
            let res = roll_nd6_against(score, DEFAULT_N6_TRESHOLD);
            res.0 >= dif as u16
        };
    ability_check(character, ability, dificulty, check)
}

/// The inclusive range from which the damage of a failed check of `dificulty` is drawn.
pub open spec fn damage_bounds(dificulty: u8) -> (u16, u16) {
    if dificulty == 1 || dificulty == 2 {
        (0, 10)
    } else if dificulty == 3 {
        (8, 20)
    } else if dificulty == 4 {
        (15, 30)
    } else {
        (20, 50)
    }
}

pub fn damage_range(dificulty: u8) -> (r: (u16, u16))
    ensures
        r == damage_bounds(dificulty),
{
    match dificulty {
        1 | 2 => (0, 10),
        3 => (8, 20),
        4 => (15, 30),
        _ => (20, 50),
    }
}

/// Damage drawn from the range that `dificulty` selects.
pub fn damage_for_difficulty(dificulty: u8) -> (r: u16)
    ensures
        damage_bounds(dificulty).0 <= r <= damage_bounds(dificulty).1,
{
    let (low, high) = damage_range(dificulty);
    random_in_range(low as usize, high as usize) as u16
}

} // verus!
