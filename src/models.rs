use vstd::prelude::*;

verus! {

/// The three ability scores a character or an item can carry.
#[derive(Debug, Clone, Copy, PartialEq, Eq, Structural)]
pub enum Ability {
    Strg,
    Agil,
    Def,
}

/// One effect attached to a room choice.
#[derive(Debug, Clone, Copy, PartialEq, Eq, Structural)]
pub enum RoomResult {
    GainLevelPoints(u16),
    GainXp(u16),
    GainItem(u16),
    GainSkill(u16),
    StartFight(u16),
    AbilityCheck(Ability, u8),
}

/// An option offered in a room, with the effects it has, in order.
#[derive(Debug, Clone)]
pub struct Choice {
    pub text: String,
    pub consequences: Vec<RoomResult>,
}

#[derive(Debug, Clone)]
pub struct Room {
    pub id: u16,
    pub title: String,
    pub text: String,
    pub choices: Vec<Choice>,
}

#[derive(Debug)]
pub struct Level {
    pub name: String,
    pub id: u16,
    pub rooms: Vec<u16>,
    pub level_points: u16,
    pub first_room: u16,
    pub final_room: u16,
}

impl Clone for Level {
    fn clone(&self) -> (r: Self)
        ensures
            r.name == self.name,
            r.id == self.id,
            r.rooms@ == self.rooms@,
            r.level_points == self.level_points,
            r.first_room == self.first_room,
            r.final_room == self.final_room,
    {
        Level {
            name: self.name.clone(),
            id: self.id,
            rooms: self.rooms.clone(),
            level_points: self.level_points,
            first_room: self.first_room,
            final_room: self.final_room,
        }
    }
}

#[derive(Debug, Clone, Copy, PartialEq, Eq, Structural)]
pub enum ItemType {
    Weapon,
    Armor,
}

#[derive(Debug)]
pub struct Character {
    pub id: u16,
    pub name: String,
    pub hp: u16,
    pub hp_max: u16,
    pub xp: u16,
    pub strg: u16,
    pub agil: u16,
    pub def: u16,
}

impl Clone for Character {
    fn clone(&self) -> (r: Self)
        ensures
            r == *self,
    {
        Character {
            id: self.id,
            name: self.name.clone(),
            hp: self.hp,
            hp_max: self.hp_max,
            xp: self.xp,
            strg: self.strg,
            agil: self.agil,
            def: self.def,
        }
    }
}

impl Character {
    /// The character a fresh run starts with.
    pub fn default() -> (r: Character)
        ensures
            r.id == 0,
            r.name@ == "Barbie"@,
            r.hp == 100,
            r.hp_max == 100,
            r.xp == 0,
            r.strg == 2,
            r.agil == 2,
            r.def == 2,
    {
        Character {
            id: 0,
            name: "Barbie".to_owned(),
            hp: 100,
            hp_max: 100,
            xp: 0,
            strg: 2,
            agil: 2,
            def: 2,
        }
    }

    /// The score the character has in `ability`.
    pub open spec fn score(&self, ability: Ability) -> u16 {
        match ability {
            Ability::Strg => self.strg,
            Ability::Agil => self.agil,
            Ability::Def => self.def,
        }
    }
}

#[derive(Debug)]
pub struct Item {
    pub id: u16,
    pub name: String,
    pub item_type: ItemType,
    pub strg: u16,
    pub agil: u16,
    pub def: u16,
}

impl Clone for Item {
    fn clone(&self) -> (r: Self)
        ensures
            r == *self,
    {
        Item {
            id: self.id,
            name: self.name.clone(),
            item_type: self.item_type,
            strg: self.strg,
            agil: self.agil,
            def: self.def,
        }
    }
}

/// The bonus an item grants in an ability that its data leaves out.
pub fn default_ability() -> (r: u16)
    ensures
        r == 0,
{
    0
}

/// What a skill changes; applying these is not part of the engine.
#[derive(Debug, Clone, Copy, PartialEq, Eq, Structural)]
pub enum SkillModifier {
    AbilityIncrease(Ability, u8),
    AbilityMulti(Ability, u8),
    LPIncrease(u8),
    XPIncrease(u8),
    DropChance(u8),
    CritChance(u8),
}

#[derive(Debug, Clone)]
pub struct Skill {
    pub id: u16,
    pub name: String,
    pub modifiers: Vec<SkillModifier>,
}

#[derive(Debug, Clone, Copy, PartialEq, Eq, Structural)]
pub enum RewardType {
    Item(ItemType),
    Skill,
    Xp,
}

/// A gain reported to the player after a choice.
#[derive(Debug)]
pub struct Reward {
    pub reward_type: RewardType,
    pub name: String,
    pub amount: usize,
}

/// The content of a reward, with its name as characters.
pub struct RewardView {
    pub reward_type: RewardType,
    pub name: Seq<char>,
    pub amount: usize,
}

impl View for Reward {
    type V = RewardView;

    open spec fn view(&self) -> RewardView {
        RewardView { reward_type: self.reward_type, name: self.name@, amount: self.amount }
    }
}

impl Clone for Reward {
    fn clone(&self) -> (r: Self)
        ensures
            r == *self,
    {
        Reward { reward_type: self.reward_type, name: self.name.clone(), amount: self.amount }
    }
}

#[derive(Debug, Clone, Copy, PartialEq, Eq, Structural)]
pub enum BadResultType {
    Damage,
    Skill,
}

/// A loss reported to the player after a choice.
#[derive(Debug)]
pub struct BadResult {
    pub bad_result_type: BadResultType,
    pub name: String,
    pub amount: usize,
}

/// The content of a bad result, with its name as characters.
pub struct BadResultView {
    pub bad_result_type: BadResultType,
    pub name: Seq<char>,
    pub amount: usize,
}

impl View for BadResult {
    type V = BadResultView;

    open spec fn view(&self) -> BadResultView {
        BadResultView {
            bad_result_type: self.bad_result_type,
            name: self.name@,
            amount: self.amount,
        }
    }
}

impl Clone for BadResult {
    fn clone(&self) -> (r: Self)
        ensures
            r == *self,
    {
        BadResult {
            bad_result_type: self.bad_result_type,
            name: self.name.clone(),
            amount: self.amount,
        }
    }
}

} // verus!
