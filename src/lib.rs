pub mod actor;
pub mod attack_helper;
pub mod attack_options;
pub mod battle_events;
pub mod battle_handler;
pub mod battle_history;
pub mod data;
pub mod encounter;
pub mod enemy;
pub mod errors;
pub mod game_handler;
pub mod melee;
pub mod models;
pub mod random;
pub mod rules;
pub mod state;
pub mod text;

pub use actor::{Actor, ActorValues, AttackMethod};
pub use attack_helper::build_damage_text;
pub use attack_options::{AttackDescription, AttackOption, AttackOptions};
pub use battle_events::{BattleEvent, BattleEvents};
pub use battle_handler::BattleHandler;
pub use battle_history::BattleHistory;
pub use data::{GameData, WithId};
pub use encounter::{Encounter, EnemyAmount, EnemyDeclaration};
pub use enemy::Enemy;
pub use errors::Error;
pub use game_handler::GameHandler;
pub use melee::{BasicMeleeFighter, melee_attack};
pub use models::{
    Ability, BadResult, BadResultType, Character, Choice, Item, ItemType, Level, Reward,
    RewardType, Room, RoomResult, Skill, SkillModifier, default_ability,
};
pub use random::{ability_check, ability_check_with_nd6, roll_nd6_against};
pub use state::{DungeonState, GameState};
