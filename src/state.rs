use vstd::prelude::*;
use std::rc::Rc;
use crate::errors::Error;
use crate::models::{
    Level, Room, Item, Skill, Character, Reward, RewardView, BadResult, BadResultView,
};
use crate::attack_options::{AttackOption, AttackOptions, AttackDescription};

verus! {

/// The mode the dungeon is in.
#[derive(Debug, Clone, Copy, PartialEq, Eq, Structural)]
pub enum DungeonState {
    /// Browsing a room's choices.
    Room,
    /// A fight is in progress.
    Encounter,
    /// Showing the rewards of the last choice.
    Result,
    /// Showing the damage of a failed ability check.
    Failure,
}

/// The mutable record of a run.
pub struct GameState {
    pub level_points: u16,
    pub dungeon_state: DungeonState,
    pub current_level: Option<Rc<Level>>,
    pub current_room: Option<Rc<Room>>,
    pub owned_items: Vec<Rc<Item>>,
    pub equipped_items: Vec<Rc<Item>>,
    pub gained_skills: Vec<Rc<Skill>>,
    pub character: Character,
    pub last_rewards: Vec<Reward>,
    pub last_bad_results: Vec<BadResult>,
}

/// A run's record with its lists as sequences.
pub struct GameStateView {
    pub level_points: u16,
    pub dungeon_state: DungeonState,
    pub current_level: Option<Rc<Level>>,
    pub current_room: Option<Rc<Room>>,
    pub owned_items: Seq<Rc<Item>>,
    pub equipped_items: Seq<Rc<Item>>,
    pub gained_skills: Seq<Rc<Skill>>,
    pub character: Character,
    pub last_rewards: Seq<RewardView>,
    pub last_bad_results: Seq<BadResultView>,
}

impl View for GameState {
    type V = GameStateView;

    open spec fn view(&self) -> GameStateView {
        GameStateView {
            level_points: self.level_points,
            dungeon_state: self.dungeon_state,
            current_level: self.current_level,
            current_room: self.current_room,
            owned_items: self.owned_items@,
            equipped_items: self.equipped_items@,
            gained_skills: self.gained_skills@,
            character: self.character,
            last_rewards: self.last_rewards@.map_values(|r: Reward| r@),
            last_bad_results: self.last_bad_results@.map_values(|b: BadResult| b@),
        }
    }
}

/// No two entries of `items` have the same item type.
pub open spec fn types_unique(items: Seq<Rc<Item>>) -> bool {
    forall|i: int, j: int|
        0 <= i < j < items.len() ==> items[i].item_type != items[j].item_type
}

/// `hp` less `dmg`, stopping at zero.
pub open spec fn hp_after(hp: u16, dmg: u16) -> u16 {
    if hp < dmg {
        0
    } else {
        (hp - dmg) as u16
    }
}

impl GameState {
    /// The record a run starts with: the default character, nothing owned, in a room.
    pub fn new() -> (r: GameState)
        ensures
            r.level_points == 0,
            r.dungeon_state == DungeonState::Room,
            r.current_level is None,
            r.current_room is None,
            r.owned_items@.len() == 0,
            r.equipped_items@.len() == 0,
            r.gained_skills@.len() == 0,
            r.last_rewards@.len() == 0,
            r.last_bad_results@.len() == 0,
            r.character.id == 0,
            r.character.name@ == "Barbie"@,
            r.character.hp == 100,
            r.character.hp_max == 100,
            r.character.xp == 0,
            r.character.strg == 2,
            r.character.agil == 2,
            r.character.def == 2,
    {
        let mut character = Character::default();
        character.strg = 2;
        character.agil = 2;
        character.def = 2;
        GameState {
            level_points: 0,
            dungeon_state: DungeonState::Room,
            current_level: None,
            current_room: None,
            owned_items: Vec::new(),
            equipped_items: Vec::new(),
            gained_skills: Vec::new(),
            character,
            last_rewards: Vec::new(),
            last_bad_results: Vec::new(),
        }
    }

    pub fn set_current_level(&mut self, level: &Rc<Level>)
        ensures
            final(self)@ == (GameStateView { current_level: Some(*level), ..old(self)@ }),
    {
        self.current_level = Some(Rc::clone(level));
    }

    /// A copy of the current level, or `NoCurrentLevel`.
    pub fn get_current_level(&self) -> (r: Result<Level, Error>)
        ensures
            self.current_level is None ==> r == Err::<Level, Error>(Error::NoCurrentLevel),
            self.current_level is Some <==> r is Ok,
            r is Ok ==> ({
                let l = *self.current_level->Some_0;
                let c = r->Ok_0;
                c.name == l.name && c.id == l.id && c.rooms@ == l.rooms@ && c.level_points
                    == l.level_points && c.first_room == l.first_room && c.final_room
                    == l.final_room
            }),
    {
        match &self.current_level {
            Some(level) => Ok((**level).clone()),
            None => Err(Error::NoCurrentLevel),
        }
    }

    pub fn set_current_room(&mut self, room: &Rc<Room>)
        ensures
            final(self)@ == (GameStateView { current_room: Some(*room), ..old(self)@ }),
    {
        self.current_room = Some(Rc::clone(room));
    }

    /// Takes `hp` from the character, leaving no less than zero.
    pub fn remove_hp(&mut self, hp: u16)
        ensures
            final(self)@ == (GameStateView {
                character: Character { hp: hp_after(old(self).character.hp, hp), ..old(self).character },
                ..old(self)@
            }),
    {
        if self.character.hp < hp {
            self.character.hp = 0;
        } else {
            self.character.hp = self.character.hp - hp;
        }
    }

    /// The four attack slots: an unarmed attack and three empty ones.
    pub fn get_attack_options(&self) -> (r: AttackOptions)
        ensures
            r@.len() == 4,
            r@[0] matches AttackOption::Attack(d) && d.title@ == "Unarmed"@ && d.attack_type@
                == "physical"@ && d.dmg_min == 1 && d.dmg_max == 3 && d.special_effect@ == ""@,
            r@[1] is Empty,
            r@[2] is Empty,
            r@[3] is Empty,
    {
        let mut options: AttackOptions = Vec::new();
        options.push(
            AttackOption::Attack(
                AttackDescription {
                    title: "Unarmed".to_owned(),
                    attack_type: "physical".to_owned(),
                    dmg_min: 1,
                    dmg_max: 3,
                    special_effect: "".to_owned(),
                },
            ),
        );
        options.push(AttackOption::Empty);
        options.push(AttackOption::Empty);
        options.push(AttackOption::Empty);
        options
    }
}

} // verus!
