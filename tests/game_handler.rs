use dungeon_crawler::{
    Ability, BadResultType, Choice, DungeonState, Error, GameData, GameHandler, GameState, Item,
    ItemType, Level, RewardType, Room, RoomResult, Skill, SkillModifier, default_ability,
};

fn level(id: u16, rooms: Vec<u16>, level_points: u16, first_room: u16, final_room: u16) -> Level {
    Level { name: format!("Level {}", id), id, rooms, level_points, first_room, final_room }
}

fn room(id: u16, choices: Vec<Vec<RoomResult>>) -> Room {
    Room {
        id,
        title: format!("Room {}", id),
        text: String::new(),
        choices: choices
            .into_iter()
            .map(|consequences| Choice { text: "go".to_string(), consequences })
            .collect(),
    }
}

fn item(id: u16, name: &str, item_type: ItemType) -> Item {
    Item { id, name: name.to_string(), item_type, strg: 0, agil: 0, def: 0 }
}

fn skill(id: u16, name: &str) -> Skill {
    Skill { id, name: name.to_string(), modifiers: vec![SkillModifier::LPIncrease(1)] }
}

fn handler(levels: Vec<Level>, rooms: Vec<Room>, items: Vec<Item>, skills: Vec<Skill>) -> GameHandler {
    GameHandler::new(GameData::new(levels, rooms, items, skills, Vec::new(), Vec::new()))
}

fn current_room_id(h: &GameHandler) -> u16 {
    h.get_game_state().current_room.as_ref().unwrap().id
}

#[test]
fn points_reaching_threshold_lead_to_final_room() {
    let mut h = handler(
        vec![level(1, vec![2, 3], 5, 2, 9)],
        vec![room(2, vec![vec![RoomResult::GainLevelPoints(5)]]), room(3, vec![]), room(9, vec![])],
        vec![],
        vec![],
    );
    h.start_game().unwrap();
    assert_eq!(current_room_id(&h), 2);
    h.execute_room_choice(0).unwrap();
    let s = h.get_game_state();
    assert_eq!(s.level_points, 5);
    assert_eq!(current_room_id(&h), 9);
    assert_eq!(h.get_dungeon_state(), DungeonState::Room);
}

#[test]
fn failed_check_keeps_earlier_effects_and_the_room() {
    let mut h = handler(
        vec![level(1, vec![2], 100, 2, 9)],
        vec![
            room(2, vec![vec![RoomResult::GainXp(10), RoomResult::AbilityCheck(Ability::Strg, 6), RoomResult::GainXp(5)]]),
            room(9, vec![]),
        ],
        vec![],
        vec![],
    );
    h.start_game().unwrap();
    h.execute_room_choice(0).unwrap();
    let s = h.get_game_state();
    assert_eq!(s.character.xp, 10);
    assert_eq!(s.dungeon_state, DungeonState::Failure);
    assert_eq!(s.last_bad_results.len(), 1);
    let bad = &s.last_bad_results[0];
    assert_eq!(bad.bad_result_type, BadResultType::Damage);
    assert_eq!(bad.name, "Damage");
    assert!(bad.amount <= 50 && bad.amount >= 20);
    assert_eq!(s.character.hp as usize, 100 - bad.amount);
    assert_eq!(s.last_rewards.len(), 1);
    assert_eq!(current_room_id(&h), 2);
}

#[test]
fn level_without_rooms_always_goes_to_final_room() {
    let mut h = handler(
        vec![level(1, vec![], 10, 4, 7)],
        vec![room(4, vec![vec![RoomResult::StartFight(1)]]), room(7, vec![])],
        vec![],
        vec![],
    );
    h.start_game().unwrap();
    h.execute_room_choice(0).unwrap();
    assert_eq!(current_room_id(&h), 7);
    assert_eq!(h.get_game_state().level_points, 0);
}

#[test]
fn below_threshold_enters_a_room_of_the_level() {
    let mut h = handler(
        vec![level(1, vec![3, 4], 50, 2, 9)],
        vec![room(2, vec![vec![RoomResult::GainLevelPoints(1)]]), room(3, vec![vec![RoomResult::GainLevelPoints(1)]]), room(4, vec![vec![RoomResult::GainLevelPoints(1)]]), room(9, vec![])],
        vec![],
        vec![],
    );
    h.start_game().unwrap();
    for _ in 0..10 {
        h.execute_room_choice(0).unwrap();
        let id = current_room_id(&h);
        assert!(id == 3 || id == 4);
    }
    assert_eq!(h.get_game_state().level_points, 10);
}

#[test]
fn rewards_switch_to_result_and_back() {
    let mut h = handler(
        vec![level(1, vec![], 10, 2, 2)],
        vec![room(2, vec![vec![RoomResult::GainXp(3), RoomResult::GainItem(5), RoomResult::GainSkill(8)]])],
        vec![item(5, "Sword", ItemType::Weapon)],
        vec![skill(8, "Focus")],
    );
    h.start_game().unwrap();
    h.execute_room_choice(0).unwrap();
    let s = h.get_game_state();
    assert_eq!(s.dungeon_state, DungeonState::Result);
    assert_eq!(s.character.xp, 3);
    assert_eq!(s.owned_items.len(), 1);
    assert_eq!(s.gained_skills.len(), 1);
    let rewards: Vec<(RewardType, String, usize)> =
        s.last_rewards.iter().map(|r| (r.reward_type, r.name.clone(), r.amount)).collect();
    assert_eq!(
        rewards,
        vec![
            (RewardType::Xp, "Experience Points".to_string(), 3),
            (RewardType::Item(ItemType::Weapon), "Sword".to_string(), 1),
            (RewardType::Skill, "Focus".to_string(), 1),
        ]
    );
    assert_eq!(s.last_bad_results.len(), 0);
    h.set_dungeon_state(DungeonState::Room);
    assert_eq!(h.get_dungeon_state(), DungeonState::Room);
}

#[test]
fn skill_is_gained_once() {
    let mut h = handler(
        vec![level(1, vec![], 10, 2, 2)],
        vec![room(2, vec![vec![RoomResult::GainSkill(8), RoomResult::GainSkill(8)]])],
        vec![],
        vec![skill(8, "Focus")],
    );
    h.start_game().unwrap();
    h.execute_room_choice(0).unwrap();
    assert_eq!(h.get_game_state().gained_skills.len(), 1);
    assert_eq!(h.get_game_state().last_rewards.len(), 1);
    h.execute_room_choice(0).unwrap();
    assert_eq!(h.get_game_state().gained_skills.len(), 1);
    assert_eq!(h.get_game_state().last_rewards.len(), 0);
    assert_eq!(h.gain_skill_once(&8), Ok(false));
    assert_eq!(h.gain_skill_once(&9), Err(Error::DataNotFound));
}

#[test]
fn out_of_range_choice_changes_nothing() {
    let mut h = handler(
        vec![level(1, vec![], 10, 2, 9)],
        vec![room(2, vec![vec![RoomResult::GainXp(1)]]), room(9, vec![])],
        vec![],
        vec![],
    );
    h.start_game().unwrap();
    assert_eq!(h.execute_room_choice(1), Ok(()));
    assert_eq!(h.execute_room_choice(3), Ok(()));
    assert_eq!(current_room_id(&h), 2);
    assert_eq!(h.get_game_state().character.xp, 0);
}

#[test]
fn missing_item_stops_with_partial_effects() {
    let mut h = handler(
        vec![level(1, vec![], 10, 2, 9)],
        vec![room(2, vec![vec![RoomResult::GainXp(4), RoomResult::GainItem(77), RoomResult::GainXp(4)]]), room(9, vec![])],
        vec![],
        vec![],
    );
    h.start_game().unwrap();
    assert_eq!(h.execute_room_choice(0), Err(Error::DataNotFound));
    assert_eq!(h.get_game_state().character.xp, 4);
    assert_eq!(h.get_game_state().last_rewards.len(), 0);
    assert_eq!(current_room_id(&h), 2);
}

#[test]
fn choosing_before_start_has_no_room() {
    let mut h = handler(vec![], vec![], vec![], vec![]);
    assert_eq!(h.execute_room_choice(0), Err(Error::NoCurrentRoom));
    assert_eq!(h.enter_random_room(), Err(Error::NoCurrentLevel));
}

#[test]
fn start_needs_level_one_and_its_first_room() {
    let mut h = handler(vec![level(2, vec![], 1, 1, 1)], vec![], vec![], vec![]);
    assert_eq!(h.start_game(), Err(Error::DataNotFound));
    let mut h = handler(vec![level(1, vec![], 1, 5, 5)], vec![], vec![], vec![]);
    assert_eq!(h.start_game(), Err(Error::DataNotFound));
    assert!(h.get_game_state().current_level.is_some());
    assert!(h.get_game_state().current_room.is_none());
}

#[test]
fn missing_final_room_is_reported() {
    let mut h = handler(
        vec![level(1, vec![], 10, 2, 9)],
        vec![room(2, vec![vec![RoomResult::GainXp(1)]])],
        vec![],
        vec![],
    );
    h.start_game().unwrap();
    assert_eq!(h.execute_room_choice(0), Err(Error::DataNotFound));
    assert_eq!(h.get_game_state().character.xp, 1);
    assert_eq!(h.get_dungeon_state(), DungeonState::Result);
}

#[test]
fn reset_drops_progress() {
    let mut h = handler(
        vec![level(1, vec![], 10, 2, 9)],
        vec![room(2, vec![vec![RoomResult::GainXp(6), RoomResult::GainLevelPoints(3)]]), room(9, vec![])],
        vec![],
        vec![],
    );
    h.start_game().unwrap();
    h.execute_room_choice(0).unwrap();
    assert_eq!(current_room_id(&h), 9);
    h.reset_game().unwrap();
    let s = h.get_game_state();
    assert_eq!(s.character.xp, 0);
    assert_eq!(s.level_points, 0);
    assert_eq!(s.character.name, "Barbie");
    assert_eq!(current_room_id(&h), 2);
}

#[test]
fn equipping_replaces_the_item_of_the_same_type() {
    let mut h = handler(
        vec![level(1, vec![], 10, 2, 2)],
        vec![room(2, vec![])],
        vec![item(1, "Sword", ItemType::Weapon), item(2, "Axe", ItemType::Weapon), item(3, "Mail", ItemType::Armor)],
        vec![],
    );
    h.start_game().unwrap();
    assert_eq!(h.equip_item(1), Err(Error::ItemNotOwned));
    h.gain_item(&1).unwrap();
    h.gain_item(&2).unwrap();
    h.gain_item(&3).unwrap();
    assert_eq!(h.gain_item(&4), Err(Error::DataNotFound));
    assert!(h.has_item(2));
    assert!(!h.has_item(4));
    h.equip_item(1).unwrap();
    h.equip_item(3).unwrap();
    h.equip_item_by_index(1).unwrap();
    let equipped: Vec<u16> = h.get_game_state().equipped_items.iter().map(|i| i.id).collect();
    assert_eq!(equipped, vec![3, 2]);
    h.equip_item(2).unwrap();
    let equipped: Vec<u16> = h.get_game_state().equipped_items.iter().map(|i| i.id).collect();
    assert_eq!(equipped, vec![3, 2]);
    assert_eq!(h.equip_item_by_index(3), Err(Error::IndexOutOfRange));
}

#[test]
fn counters_saturate_and_damage_stops_at_zero() {
    let mut h = handler(vec![], vec![], vec![], vec![]);
    h.increase_xp(&u16::MAX);
    h.increase_xp(&5);
    assert_eq!(h.get_game_state().character.xp, u16::MAX);
    h.increase_level_points(&7);
    assert_eq!(h.get_game_state().level_points, 7);
    let mut total: usize = 0;
    for _ in 0..10 {
        let d = h.recive_damage(4);
        assert!((15..=30).contains(&d));
        total += d as usize;
    }
    assert_eq!(h.get_game_state().character.hp as usize, 100usize.saturating_sub(total));
}

#[test]
fn damage_ranges_follow_difficulty() {
    let mut h = handler(vec![], vec![], vec![], vec![]);
    for _ in 0..30 {
        assert!(h.recive_damage(1) <= 10);
        assert!(h.recive_damage(2) <= 10);
        assert!((8..=20).contains(&h.recive_damage(3)));
        assert!((20..=50).contains(&h.recive_damage(5)));
        assert!((20..=50).contains(&h.recive_damage(9)));
    }
    assert_eq!(h.get_game_state().character.hp, 0);
}

#[test]
fn fresh_state_and_level_access() {
    let s = GameState::new();
    assert_eq!(s.get_current_level().err(), Some(Error::NoCurrentLevel));
    assert_eq!(s.character.strg, 2);
    assert_eq!(s.dungeon_state, DungeonState::Room);
    let mut h = handler(vec![level(1, vec![5, 6], 12, 2, 9)], vec![room(2, vec![])], vec![], vec![]);
    h.start_game().unwrap();
    let l = h.get_game_state().get_current_level().unwrap();
    assert_eq!((l.id, l.rooms.clone(), l.level_points, l.first_room, l.final_room), (1, vec![5, 6], 12, 2, 9));
    assert_eq!(default_ability(), 0);
}

#[test]
fn remove_hp_floors_at_zero() {
    let mut s = GameState::new();
    s.remove_hp(40);
    assert_eq!(s.character.hp, 60);
    s.remove_hp(61);
    assert_eq!(s.character.hp, 0);
}

#[test]
fn random_rooms_and_damage_vary() {
    let mut h = handler(
        vec![level(1, vec![3, 4], 1000, 2, 9)],
        vec![room(2, vec![]), room(3, vec![]), room(4, vec![]), room(9, vec![])],
        vec![],
        vec![],
    );
    h.start_game().unwrap();
    let mut seen = std::collections::HashSet::new();
    for _ in 0..100 {
        h.enter_random_room().unwrap();
        seen.insert(current_room_id(&h));
    }
    assert_eq!(seen.len(), 2);
    let mut damages = std::collections::HashSet::new();
    for _ in 0..100 {
        damages.insert(h.recive_damage(5));
    }
    assert!(damages.len() > 1);
}

#[test]
fn level_without_rooms_has_no_random_room() {
    let mut h = handler(vec![level(1, vec![], 5, 2, 2)], vec![room(2, vec![])], vec![], vec![]);
    h.start_game().unwrap();
    assert_eq!(h.enter_random_room(), Err(Error::DataNotFound));
    assert_eq!(current_room_id(&h), 2);
}
