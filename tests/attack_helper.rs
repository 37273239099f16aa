use dungeon_crawler::{ActorValues, BattleEvent, BattleEvents, BattleHistory, Enemy, GameState, AttackOption, build_damage_text, melee_attack};

#[test]
fn test_damage_text_none() {
    let text = build_damage_text(0, 0);
    assert_eq!(text, "No damage");
}

#[test]
fn test_damage_text() {
    let text = build_damage_text(5, 0);
    assert_eq!(text, "5 damage");
}

#[test]
fn test_damage_text_range() {
    let text = build_damage_text(0, 5);
    assert_eq!(text, "0-5 damage");
}

#[test]
fn damage_text_with_many_digits() {
    assert_eq!(build_damage_text(12, 305), "12-305 damage");
    assert_eq!(build_damage_text(1000, 0), "1000 damage");
}

#[test]
fn melee_attack_reports_names() {
    let mut user = ActorValues::from(&Enemy::new(1, "Peter"));
    let mut target = ActorValues::from(&Enemy::new(2, "Paul"));
    let event = melee_attack(&mut user, &mut target);
    assert_eq!(event.title, "Melee Attack");
    assert_eq!(event.source, "Peter");
    assert_eq!(event.target, "Paul");
    assert_eq!(event.effect, "Paul lost 0 hp");
    assert_eq!(target.hp, 0);
}

#[test]
fn history_lists_event_titles() {
    let mut events = BattleEvents::new();
    assert_eq!(events.events.len(), 0);
    events.events.push(BattleEvent::default());
    let mut second = BattleEvent::default();
    second.title = "Melee Attack".to_string();
    events.events.push(second);
    let history = BattleHistory::new(events);
    assert_eq!(history.get_text_content(), vec!["Event".to_string(), "Melee Attack".to_string()]);
}

#[test]
fn default_event_texts() {
    let e = BattleEvent::default();
    assert_eq!(e.title, "Event");
    assert_eq!(e.source, "Default");
    assert_eq!(e.target, "Default");
    assert_eq!(e.effect, "No Effect");
}

#[test]
fn attack_options_hold_one_unarmed_attack() {
    let state = GameState::new();
    let options = state.get_attack_options();
    assert_eq!(options.len(), 4);
    match &options[0] {
        AttackOption::Attack(d) => {
            assert_eq!(d.title, "Unarmed");
            assert_eq!(d.attack_type, "physical");
            assert_eq!((d.dmg_min, d.dmg_max), (1, 3));
            assert_eq!(d.special_effect, "");
        }
        AttackOption::Empty => panic!("first slot is empty"),
    }
    for o in &options[1..] {
        assert!(matches!(o, AttackOption::Empty));
    }
}
