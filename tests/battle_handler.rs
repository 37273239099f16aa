use dungeon_crawler::{ActorValues, BattleHandler, Character, Enemy};

#[test]
fn test_add_enemy() {
    let enemy = Enemy::new(1, "Peter");
    let handler: BattleHandler = BattleHandler::new().add_enemy(&enemy);
    assert_eq!(handler.actors().len(), 1);
}

#[test]
fn test_add_player() {
    let character = Character::default();

    let handler: BattleHandler = BattleHandler::new().add_player(&character);
    assert_eq!(handler.actors().len(), 1);
}

#[test]
fn test_get_initiative() {
    let mut character = Character::default();
    character.agil = 10;

    let mut enemy_1 = Enemy::new(1, "Peter");
    enemy_1.agil = 5;

    let mut enemy_2 = Enemy::new(2, "Paul");
    enemy_2.agil = 1;

    let mut handler: BattleHandler = BattleHandler::new()
        .add_player(&character)
        .add_enemy(&enemy_1)
        .add_enemy(&enemy_2);
    handler.calc_initiative();

    let ordered = handler.get_actor_values_by_order();
    assert_eq!(ordered.len(), 3, "amount of actors");

    let nones: Vec<bool> = ordered
        .iter()
        .map(|x| x.initiative.is_none())
        .filter(|x| *x)
        .collect();
    assert_eq!(nones.len(), 0, "amount of actors without init");

    assert_eq!(ordered.get(0).unwrap().name, character.name, "first is the player");
}

#[test]
fn initiative_orders_by_agility_descending() {
    let mut slow = Enemy::new(1, "Slow");
    slow.agil = 1;
    let mut fast = Enemy::new(2, "Fast");
    fast.agil = 10;
    let mut middle = Enemy::new(3, "Middle");
    middle.agil = 5;
    let mut handler = BattleHandler::new().add_enemy(&slow).add_enemy(&fast).add_enemy(&middle);
    handler.calc_initiative();
    let ordered = handler.get_actor_values_by_order();
    let initiatives: Vec<Option<u16>> = ordered.iter().map(|a| a.initiative).collect();
    assert_eq!(initiatives, vec![Some(10), Some(5), Some(1)]);
    let names: Vec<String> = ordered.iter().map(|a| a.name.clone()).collect();
    assert_eq!(names, vec!["Fast".to_string(), "Middle".to_string(), "Slow".to_string()]);
}

#[test]
fn initiative_ties_keep_insertion_order() {
    let mut a = Enemy::new(1, "A");
    a.agil = 3;
    let mut b = Enemy::new(2, "B");
    b.agil = 7;
    let mut c = Enemy::new(3, "C");
    c.agil = 3;
    let mut d = Enemy::new(4, "D");
    d.agil = 7;
    let mut handler = BattleHandler::new().add_enemy(&a).add_enemy(&b).add_enemy(&c).add_enemy(&d);
    handler.calc_initiative();
    let names: Vec<String> =
        handler.get_actor_values_by_order().iter().map(|x| x.name.clone()).collect();
    assert_eq!(names, vec!["B".to_string(), "D".to_string(), "A".to_string(), "C".to_string()]);
}

#[test]
fn actors_without_initiative_go_last() {
    let mut e = Enemy::new(1, "E");
    e.agil = 0;
    let handler = BattleHandler::new().add_enemy(&e);
    let ordered = handler.get_actor_values_by_order();
    assert_eq!(ordered.len(), 1);
    assert_eq!(ordered[0].initiative, None);
}

#[test]
fn current_actor_follows_turn_order_without_wrapping() {
    let mut character = Character::default();
    character.agil = 1;
    let mut enemy = Enemy::new(1, "Peter");
    enemy.agil = 4;
    let mut handler = BattleHandler::new().add_player(&character).add_enemy(&enemy);
    assert!(handler.get_current_actor().is_none());
    handler.calc_initiative();
    assert_eq!(handler.get_current_actor().unwrap().name, "Peter");
    handler.increase_actor_index();
    let second = handler.get_current_actor().unwrap();
    assert_eq!(second.name, "Barbie");
    assert!(second.is_player);
    handler.increase_actor_index();
    assert!(handler.get_current_actor().is_none());
}

#[test]
fn damage_on_actor_stops_at_zero() {
    let character = Character::default();
    let mut actor = ActorValues::from(&character);
    actor.apply_damage(30);
    assert_eq!(actor.hp, 70);
    actor.apply_damage(500);
    assert_eq!(actor.hp, 0);
}
