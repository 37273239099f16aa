use dungeon_crawler::{Ability, Character, ability_check, ability_check_with_nd6, roll_nd6_against};

#[test]
fn test_roll() {
    let rolls = 5;
    let res = roll_nd6_against(rolls, 4);
    let results = res.0 + res.1;
    assert_eq!(results, rolls);
}

#[test]
fn test_guaranteed_fails() {
    let rolls = 5;
    let res = roll_nd6_against(rolls, 7);
    assert_eq!(res.0, 0);
    assert_eq!(res.1, rolls);
}

#[test]
fn test_guaranteed_successes() {
    let rolls = 3;
    let res = roll_nd6_against(rolls, 1);
    assert_eq!(res.0, rolls);
    assert_eq!(res.1, 0);
}

#[test]
fn test_check_fn() {
    let mut character = Character::default();
    character.strg = 2;

    let abil = Ability::Strg;

    let dificulty = 2;

    let check = |score: u16, dif: u8| -> bool {
        return score >= dif.into();
    };

    let res = ability_check(character, abil, dificulty, check);
    assert_eq!(res, true);
}

#[test]
fn check_picks_the_score_of_the_ability() {
    let mut character = Character::default();
    character.strg = 1;
    character.agil = 7;
    character.def = 3;
    let seen = |score: u16, _dif: u8| -> bool { score == 7 };
    assert!(ability_check(character.clone(), Ability::Agil, 0, seen));
    let seen_def = |score: u16, _dif: u8| -> bool { score == 3 };
    assert!(ability_check(character, Ability::Def, 0, seen_def));
}

#[test]
fn zero_dice_fail_any_positive_difficulty() {
    let mut character = Character::default();
    character.strg = 0;
    for _ in 0..50 {
        assert!(!ability_check_with_nd6(character.clone(), Ability::Strg, 1));
    }
}

#[test]
fn zero_difficulty_always_passes() {
    let mut character = Character::default();
    character.def = 0;
    assert!(ability_check_with_nd6(character.clone(), Ability::Def, 0));
    character.def = 4;
    assert!(ability_check_with_nd6(character, Ability::Def, 0));
}

#[test]
fn difficulty_above_the_dice_always_fails() {
    let character = Character::default();
    for _ in 0..50 {
        assert!(!ability_check_with_nd6(character.clone(), Ability::Agil, 3));
    }
}

#[test]
fn rolls_split_into_successes_and_fails() {
    for _ in 0..20 {
        let res = roll_nd6_against(40, 4);
        assert_eq!(res.0 + res.1, 40);
    }
    assert_eq!(roll_nd6_against(0, 4), (0, 0));
    let sixes = roll_nd6_against(6, 6);
    assert_eq!(sixes.0 + sixes.1, 6);
}

#[test]
fn dice_show_both_outcomes() {
    let res = roll_nd6_against(200, 4);
    assert!(res.0 > 0);
    assert!(res.1 > 0);
    let sixes = roll_nd6_against(200, 6);
    assert!(sixes.0 > 0 && sixes.0 < 200);
}
