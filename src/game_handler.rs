use vstd::prelude::*;
use crate::data::{GameData, lookup};
use crate::errors::Error;
use crate::models::{Ability, BadResult, BadResultType, Character, Reward, RewardType, RoomResult};
use crate::random::{ability_check_with_nd6, damage_bounds, damage_for_difficulty, random_index};
use crate::rules::{
    Progress, damage_report, entered, entered_random, equipped_with, fate_possible,
    has_item_id, has_skill, lemma_equip_keeps_types_unique, lemma_position_of_type,
    possible_run, outcome_applied, resolve, room_advanced, sat_add, start,
    choice_resolved,
};
use crate::state::{DungeonState, GameState, GameStateView, hp_after, types_unique};

verus! {

/// The record of a run that has just begun: the default character, nothing owned,
/// no level or room yet.
pub open spec fn is_fresh(s: GameStateView) -> bool {
    &&& s.level_points == 0
    &&& s.dungeon_state == DungeonState::Room
    &&& s.current_level is None
    &&& s.current_room is None
    &&& s.owned_items.len() == 0
    &&& s.equipped_items.len() == 0
    &&& s.gained_skills.len() == 0
    &&& s.last_rewards.len() == 0
    &&& s.last_bad_results.len() == 0
    &&& s.character.id == 0
    &&& s.character.name@ == "Barbie"@
    &&& s.character.hp == 100
    &&& s.character.hp_max == 100
    &&& s.character.xp == 0
    &&& s.character.strg == 2
    &&& s.character.agil == 2
    &&& s.character.def == 2
}

/// Starting a run from `s`: level 1 becomes the current level and its first room the
/// current room; a missing level or room is `DataNotFound`.
pub open spec fn started(
    data: GameData,
    s: GameStateView,
    after: GameStateView,
    r: Result<(), Error>,
) -> bool {
    match lookup(data.levels(), 1) {
        None => r == Err::<(), Error>(Error::DataNotFound) && after == s,
        Some(level) => entered(
            data,
            GameStateView { current_level: Some(level), ..s },
            level.first_room,
            after,
            r,
        ),
    }
}

/// Equipping the owned item `item_id`: an id the player does not own is
/// `ItemNotOwned`; otherwise the catalog's item replaces the equipped one of its type.
pub open spec fn equip_done(
    data: GameData,
    s: GameStateView,
    item_id: u16,
    after: GameStateView,
    r: Result<(), Error>,
) -> bool {
    if !has_item_id(s.owned_items, item_id) {
        r == Err::<(), Error>(Error::ItemNotOwned) && after == s
    } else {
        match lookup(data.items(), item_id) {
            None => r == Err::<(), Error>(Error::DataNotFound) && after == s,
            Some(item) => r is Ok && after == GameStateView {
                equipped_items: equipped_with(s.equipped_items, item),
                ..s
            },
        }
    }
}

/// The progression engine: the catalog of a run and the record it changes.
pub struct GameHandler {
    game_data: GameData,
    game_state: GameState,
}

impl GameHandler {
    pub closed spec fn data(&self) -> GameData {
        self.game_data
    }

    pub closed spec fn state(&self) -> GameStateView {
        self.game_state@
    }

    pub fn new(game_data: GameData) -> (r: GameHandler)
        ensures
            r.data() == game_data,
            is_fresh(r.state()),
    {
        GameHandler { game_data, game_state: GameState::new() }
    }

    /// Enters level 1 at its first room.
    pub fn start_game(&mut self) -> (r: Result<(), Error>)
        ensures
            final(self).data() == old(self).data(),
            started(old(self).data(), old(self).state(), final(self).state(), r),
    {
        let level = match self.game_data.find_level_by_id(1) {
            Ok(level) => level,
            Err(e) => return Err(e),
        };
        self.game_state.set_current_level(&level);
        let room_id = level.first_room;
        self.set_current_room(room_id)
    }

    /// Drops all progress and starts a new run.
    pub fn reset_game(&mut self) -> (r: Result<(), Error>)
        ensures
            final(self).data() == old(self).data(),
            exists|fresh: GameStateView|
                is_fresh(fresh) && started(old(self).data(), fresh, final(self).state(), r),
    {
        self.game_state = GameState::new();
        let ghost fresh = self.game_state@;
        let r = self.start_game();
        assert(is_fresh(fresh) && started(old(self).data(), fresh, self.state(), r));
        r
    }

    /// Resolves option `index` of the current room. An index past the room's choices
    /// is ignored.
    pub fn execute_room_choice(&mut self, index: usize) -> (r: Result<(), Error>)
        ensures
            final(self).data() == old(self).data(),
            choice_resolved(old(self).data(), old(self).state(), index, final(self).state(), r),
    {
        let cons: Vec<RoomResult> = match &self.game_state.current_room {
            Some(room) => {
                if index >= room.choices.len() {
                    return Ok(());
                }
                room.choices[index].consequences.clone()
            },
            None => return Err(Error::NoCurrentRoom),
        };
        let ghost data = self.game_data;
        let ghost p0 = start(self.game_state@);
        let ghost ch0 = self.game_state.character;
        assert(cons@ =~= old(self).game_state.current_room->Some_0.choices@[index as int].consequences@);
        let mut rewards: Vec<Reward> = Vec::new();
        let mut damage: Option<u16> = None;
        let ghost mut fates: Seq<Option<u16>> = Seq::empty();
        let mut i: usize = 0;
        assert(rewards@.map_values(|w: Reward| w@) =~= Seq::empty());
        while i < cons.len() && damage.is_none()
            invariant
                i <= cons@.len(),
                fates.len() == i,
                self.game_data == data,
                data == old(self).game_data,
                p0 == start(old(self).game_state@),
                old(self).game_state.current_room is Some,
                index < old(self).game_state.current_room->Some_0.choices@.len(),
                cons@ == old(self).game_state.current_room->Some_0.choices@[index as int].consequences@,
                self.game_state.character.strg == ch0.strg,
                self.game_state.character.agil == ch0.agil,
                self.game_state.character.def == ch0.def,
                p0.state.character == ch0,
                forall|k: int| 0 <= k < i ==> fate_possible(ch0, cons@[k], #[trigger] fates[k]),
                resolve(data, p0, cons@, fates) == (Progress {
                    state: self.game_state@,
                    rewards: rewards@.map_values(|w: Reward| w@),
                    damage: damage,
                    error: None,
                }),
            decreases cons@.len() - i,
        {
            let c = cons[i];
            let mut fate: Option<u16> = None;
            match c {
                RoomResult::GainLevelPoints(points) => {
                    self.increase_level_points(&points);
                },
                RoomResult::GainXp(xp) => {
                    self.increase_xp(&xp);
                    rewards.push(
                        Reward {
                            reward_type: RewardType::Xp,
                            name: "Experience Points".to_owned(),
                            amount: xp as usize,
                        },
                    );
                },
                RoomResult::GainItem(id) => {
                    match self.gain_item(&id) {
                        Ok(()) => {},
                        Err(e) => {
                            proof {
                                let fs = fates.push(None);
                                assert(fs.drop_last() =~= fates);
                                assert(possible_run(data, p0, cons@, fs));
                                assert(outcome_applied(
                                    data,
                                    resolve(data, p0, cons@, fs),
                                    self.game_state@,
                                    Err(e),
                                ));
                            }
                            return Err(e);
                        },
                    }
                    let item = match self.game_data.find_item_by_id(id) {
                        Ok(item) => item,
                        Err(e) => return Err(e),
                    };
                    rewards.push(
                        Reward {
                            reward_type: RewardType::Item(item.item_type),
                            name: item.name.clone(),
                            amount: 1,
                        },
                    );
                },
                RoomResult::GainSkill(id) => {
                    let gained = match self.gain_skill_once(&id) {
                        Ok(gained) => gained,
                        Err(e) => {
                            proof {
                                let fs = fates.push(None);
                                assert(fs.drop_last() =~= fates);
                                assert(possible_run(data, p0, cons@, fs));
                                assert(outcome_applied(
                                    data,
                                    resolve(data, p0, cons@, fs),
                                    self.game_state@,
                                    Err(e),
                                ));
                            }
                            return Err(e);
                        },
                    };
                    if gained {
                        let skill = match self.game_data.find_skill_by_id(id) {
                            Ok(skill) => skill,
                            Err(e) => return Err(e),
                        };
                        rewards.push(
                            Reward {
                                reward_type: RewardType::Skill,
                                name: skill.name.clone(),
                                amount: 1,
                            },
                        );
                    }
                },
                RoomResult::StartFight(_id) => {},
                RoomResult::AbilityCheck(ability, dificulty) => {
                    let success = self.ability_check(ability, dificulty);
                    if !success {
                        let dmg = self.recive_damage(dificulty);
                        damage = Some(dmg);
                        fate = Some(dmg);
                    }
                },
            }
            proof {
                let fs = fates.push(fate);
                assert(fs.drop_last() =~= fates);
                assert(rewards@.map_values(|w: Reward| w@) =~= resolve(data, p0, cons@, fs).rewards);
                fates = fs;
            }
            i = i + 1;
        }
        let ghost p = resolve(data, p0, cons@, fates);
        let failed = damage.is_some();
        let mut bad_results: Vec<BadResult> = Vec::new();
        if let Some(dmg) = damage {
            bad_results.push(
                BadResult {
                    bad_result_type: BadResultType::Damage,
                    name: "Damage".to_owned(),
                    amount: dmg as usize,
                },
            );
            self.change_dungeon_state(DungeonState::Failure);
        } else if rewards.len() > 0 {
            self.change_dungeon_state(DungeonState::Result);
        }
        self.game_state.last_bad_results = bad_results;
        self.game_state.last_rewards = rewards;
        proof {
            assert(possible_run(data, p0, cons@, fates));
            if failed {
                assert(self.game_state@.last_bad_results =~= seq![damage_report(p.damage->Some_0)]);
            } else {
                assert(self.game_state@.last_bad_results =~= Seq::<crate::models::BadResultView>::empty());
            }
        }
        if failed {
            return Ok(());
        }
        self.change_room()
    }

    fn ability_check(&self, ability: Ability, dificulty: u8) -> (r: bool)
        ensures
            r ==> crate::random::check_outcome(self.game_state.character.score(ability), dificulty, true),
            !r ==> crate::random::check_outcome(self.game_state.character.score(ability), dificulty, false),
    {
        let character = self.game_state.character.clone();
        ability_check_with_nd6(character, ability, dificulty)
    }

    /// Applies the level-point rule and enters the next room.
    fn change_room(&mut self) -> (r: Result<(), Error>)
        ensures
            final(self).data() == old(self).data(),
            room_advanced(old(self).data(), old(self).state(), final(self).state(), r),
    {
        let level = match self.game_state.get_current_level() {
            Ok(level) => level,
            Err(e) => return Err(e),
        };
        if level.rooms.len() == 0 || self.game_state.level_points >= level.level_points {
            self.enter_final_room()
        } else {
            self.enter_random_room()
        }
    }

    /// Enters one of the current level's rooms, drawn at random.
    pub fn enter_random_room(&mut self) -> (r: Result<(), Error>)
        ensures
            final(self).data() == old(self).data(),
            entered_random(old(self).data(), old(self).state(), final(self).state(), r),
    {
        let level = match self.game_state.get_current_level() {
            Ok(level) => level,
            Err(e) => return Err(e),
        };
        let amount = level.rooms.len();
        if amount == 0 {
            return Err(Error::DataNotFound);
        }
        let random = random_index(amount);
        let room_id = level.rooms[random];
        self.set_current_room(room_id)
    }

    pub fn change_dungeon_state(&mut self, state: DungeonState)
        ensures
            final(self).data() == old(self).data(),
            final(self).state() == (GameStateView { dungeon_state: state, ..old(self).state() }),
    {
        self.game_state.dungeon_state = state;
    }

    fn enter_final_room(&mut self) -> (r: Result<(), Error>)
        ensures
            final(self).data() == old(self).data(),
            match old(self).state().current_level {
                None => r == Err::<(), Error>(Error::NoCurrentLevel) && final(self).state() == old(
                    self,
                ).state(),
                Some(level) => entered(
                    old(self).data(),
                    old(self).state(),
                    level.final_room,
                    final(self).state(),
                    r,
                ),
            },
    {
        let room_id = match &self.game_state.current_level {
            Some(level) => level.final_room,
            None => return Err(Error::NoCurrentLevel),
        };
        self.set_current_room(room_id)
    }

    /// The record of the run.
    pub fn get_game_state(&self) -> (r: &GameState)
        ensures
            r@ == self.state(),
    {
        &self.game_state
    }

    fn set_current_room(&mut self, room_id: u16) -> (r: Result<(), Error>)
        ensures
            final(self).data() == old(self).data(),
            entered(old(self).data(), old(self).state(), room_id, final(self).state(), r),
    {
        let room = match self.game_data.find_room_by_id(room_id) {
            Ok(room) => room,
            Err(e) => return Err(e),
        };
        self.game_state.set_current_room(&room);
        Ok(())
    }

    pub fn set_dungeon_state(&mut self, ds: DungeonState)
        ensures
            final(self).data() == old(self).data(),
            final(self).state() == (GameStateView { dungeon_state: ds, ..old(self).state() }),
    {
        self.game_state.dungeon_state = ds;
    }

    pub fn get_dungeon_state(&self) -> (r: DungeonState)
        ensures
            r == self.state().dungeon_state,
    {
        self.game_state.dungeon_state
    }

    /// Draws the damage of a failed check of `dificulty` and takes it from the
    /// character's hp, which stops at zero.
    pub fn recive_damage(&mut self, dificulty: u8) -> (r: u16)
        ensures
            final(self).data() == old(self).data(),
            damage_bounds(dificulty).0 <= r <= damage_bounds(dificulty).1,
            final(self).state() == (GameStateView {
                character: Character {
                    hp: hp_after(old(self).state().character.hp, r),
                    ..old(self).state().character
                },
                ..old(self).state()
            }),
    {
        let random_dmg = damage_for_difficulty(dificulty);
        self.game_state.remove_hp(random_dmg);
        random_dmg
    }

    /// Adds the catalog's item `id` to the owned items.
    pub fn gain_item(&mut self, id: &u16) -> (r: Result<(), Error>)
        ensures
            final(self).data() == old(self).data(),
            match lookup(old(self).data().items(), *id) {
                Some(item) => r is Ok && final(self).state() == (GameStateView {
                    owned_items: old(self).state().owned_items.push(item),
                    ..old(self).state()
                }),
                None => r == Err::<(), Error>(Error::DataNotFound) && final(self).state() == old(
                    self,
                ).state(),
            },
    {
        let item = match self.game_data.find_item_by_id(*id) {
            Ok(item) => item,
            Err(e) => return Err(e),
        };
        self.game_state.owned_items.push(item);
        Ok(())
    }

    /// Adds the catalog's skill `id` unless a skill with that id was gained before;
    /// returns whether it was added.
    pub fn gain_skill_once(&mut self, id: &u16) -> (r: Result<bool, Error>)
        ensures
            final(self).data() == old(self).data(),
            match lookup(old(self).data().skills(), *id) {
                Some(skill) => if has_skill(old(self).state().gained_skills, *id) {
                    r == Ok::<bool, Error>(false) && final(self).state() == old(self).state()
                } else {
                    r == Ok::<bool, Error>(true) && final(self).state() == (GameStateView {
                        gained_skills: old(self).state().gained_skills.push(skill),
                        ..old(self).state()
                    })
                },
                None => r == Err::<bool, Error>(Error::DataNotFound) && final(self).state() == old(
                    self,
                ).state(),
            },
    {
        let skill = match self.game_data.find_skill_by_id(*id) {
            Ok(skill) => skill,
            Err(e) => return Err(e),
        };
        let mut i: usize = 0;
        while i < self.game_state.gained_skills.len()
            invariant
                self.game_state == old(self).game_state,
                self.game_data == old(self).game_data,
                lookup(old(self).data().skills(), *id) == Some(skill),
                i <= self.game_state.gained_skills@.len(),
                forall|j: int| 0 <= j < i ==> self.game_state.gained_skills@[j].id != *id,
            decreases self.game_state.gained_skills@.len() - i,
        {
            if self.game_state.gained_skills[i].id == *id {
                assert(has_skill(self.game_state.gained_skills@, *id));
                return Ok(false);
            }
            i = i + 1;
        }
        self.game_state.gained_skills.push(skill);
        Ok(true)
    }

    pub fn increase_level_points(&mut self, points: &u16)
        ensures
            final(self).data() == old(self).data(),
            final(self).state() == (GameStateView {
                level_points: sat_add(old(self).state().level_points, *points),
                ..old(self).state()
            }),
    {
        self.game_state.level_points = self.game_state.level_points.saturating_add(*points);
    }

    pub fn increase_xp(&mut self, points: &u16)
        ensures
            final(self).data() == old(self).data(),
            final(self).state() == (GameStateView {
                character: Character {
                    xp: sat_add(old(self).state().character.xp, *points),
                    ..old(self).state().character
                },
                ..old(self).state()
            }),
    {
        self.game_state.character.xp = self.game_state.character.xp.saturating_add(*points);
    }

    /// Equips the owned item at position `index`.
    pub fn equip_item_by_index(&mut self, index: usize) -> (r: Result<(), Error>)
        ensures
            final(self).data() == old(self).data(),
            index >= old(self).state().owned_items.len() ==> r == Err::<(), Error>(
                Error::IndexOutOfRange,
            ) && final(self).state() == old(self).state(),
            index < old(self).state().owned_items.len() ==> equip_done(
                old(self).data(),
                old(self).state(),
                old(self).state().owned_items[index as int].id,
                final(self).state(),
                r,
            ),
    {
        if index >= self.game_state.owned_items.len() {
            return Err(Error::IndexOutOfRange);
        }
        let id = self.game_state.owned_items[index].id;
        self.equip_item(id)
    }

    /// Equips the owned item `item_id`, taking off the equipped item of the same type.
    pub fn equip_item(&mut self, item_id: u16) -> (r: Result<(), Error>)
        ensures
            final(self).data() == old(self).data(),
            equip_done(old(self).data(), old(self).state(), item_id, final(self).state(), r),
            types_unique(old(self).state().equipped_items) ==> types_unique(
                final(self).state().equipped_items,
            ),
    {
        if !self.has_item(item_id) {
            return Err(Error::ItemNotOwned);
        }
        let item = match self.game_data.find_item_by_id(item_id) {
            Ok(item) => item,
            Err(e) => return Err(e),
        };
        let mut i: usize = 0;
        while i < self.game_state.equipped_items.len()
            && self.game_state.equipped_items[i].item_type != item.item_type
            invariant
                i <= self.game_state.equipped_items@.len(),
                forall|j: int|
                    0 <= j < i ==> self.game_state.equipped_items@[j].item_type != item.item_type,
            decreases self.game_state.equipped_items@.len() - i,
        {
            i = i + 1;
        }
        let old_item_index: Option<usize> = if i < self.game_state.equipped_items.len() {
            Some(i)
        } else {
            None
        };
        proof {
            let s = self.game_state.equipped_items@;
            lemma_position_of_type(s, item.item_type);
            if types_unique(s) {
                lemma_equip_keeps_types_unique(s, item);
            }
        }
        match old_item_index {
            Some(index) => {
                self.game_state.equipped_items.remove(index);
            },
            None => {},
        }
        self.game_state.equipped_items.push(item);
        Ok(())
    }

    /// Whether an owned item has id `item_id`.
    pub fn has_item(&self, item_id: u16) -> (r: bool)
        ensures
            r == has_item_id(self.state().owned_items, item_id),
    {
        let mut i: usize = 0;
        while i < self.game_state.owned_items.len()
            invariant
                i <= self.game_state.owned_items@.len(),
                forall|j: int| 0 <= j < i ==> self.game_state.owned_items@[j].id != item_id,
            decreases self.game_state.owned_items@.len() - i,
        {
            if self.game_state.owned_items[i].id == item_id {
                return true;
            }
            i = i + 1;
        }
        false
    }
}

} // verus!
