use vstd::prelude::*;
use crate::models::Character;
use crate::enemy::Enemy;
use crate::battle_events::BattleEvent;

verus! {

/// The values of one combatant in a fight.
#[derive(Debug)]
pub struct ActorValues {
    pub name: String,
    pub hp: u16,
    pub hp_max: u16,
    pub strg: u16,
    pub agil: u16,
    pub def: u16,
    pub is_player: bool,
    /// Set once initiative has been rolled for the current fight.
    pub initiative: Option<u16>,
}

impl Clone for ActorValues {
    fn clone(&self) -> (r: Self)
        ensures
            r == *self,
    {
        ActorValues {
            name: self.name.clone(),
            hp: self.hp,
            hp_max: self.hp_max,
            strg: self.strg,
            agil: self.agil,
            def: self.def,
            is_player: self.is_player,
            initiative: self.initiative,
        }
    }
}

impl ActorValues {
    /// Takes `dmg` from hp, leaving no less than zero.
    pub fn apply_damage(&mut self, dmg: u16)
        ensures
            *final(self) == (ActorValues {
                hp: crate::state::hp_after(old(self).hp, dmg),
                ..*old(self)
            }),
    {
        if self.hp < dmg {
            self.hp = 0;
        } else {
            self.hp = self.hp - dmg;
        }
    }
}

impl<'a> From<&'a Character> for ActorValues {
    fn from(item: &'a Character) -> (r: Self) {
        ActorValues {
            name: item.name.clone(),
            hp: item.hp,
            hp_max: item.hp_max,
            strg: item.strg,
            agil: item.agil,
            def: item.def,
            is_player: true,
            initiative: None,
        }
    }
}

impl<'a> vstd::std_specs::convert::FromSpecImpl<&'a Character> for ActorValues {
    open spec fn obeys_from_spec() -> bool {
        true
    }

    open spec fn from_spec(item: &'a Character) -> ActorValues {
        actor_of_character(*item)
    }
}

impl<'a> From<&'a Enemy> for ActorValues {
    fn from(item: &'a Enemy) -> (r: Self) {
        ActorValues {
            name: item.name.clone(),
            hp: item.hp,
            hp_max: item.hp_max,
            strg: item.strg,
            agil: item.agil,
            def: item.def,
            is_player: false,
            initiative: None,
        }
    }
}

impl<'a> vstd::std_specs::convert::FromSpecImpl<&'a Enemy> for ActorValues {
    open spec fn obeys_from_spec() -> bool {
        true
    }

    open spec fn from_spec(item: &'a Enemy) -> ActorValues {
        actor_of_enemy(*item)
    }
}

/// The combat values of the player character `item`, before initiative is rolled.
pub open spec fn actor_of_character(item: Character) -> ActorValues {
    ActorValues {
        name: item.name,
        hp: item.hp,
        hp_max: item.hp_max,
        strg: item.strg,
        agil: item.agil,
        def: item.def,
        is_player: true,
        initiative: None,
    }
}

/// The combat values of the enemy `item`, before initiative is rolled.
pub open spec fn actor_of_enemy(item: Enemy) -> ActorValues {
    ActorValues {
        name: item.name,
        hp: item.hp,
        hp_max: item.hp_max,
        strg: item.strg,
        agil: item.agil,
        def: item.def,
        is_player: false,
        initiative: None,
    }
}

/// The way a combatant attacks.
#[derive(Debug, Clone, Copy, PartialEq, Eq, Structural)]
pub enum AttackMethod {
    Melee,
}

/// A combatant that can take part in a fight.
pub trait Actor {
    spec fn actor_values(&self) -> ActorValues;

    fn get_actor_values(&self) -> (r: ActorValues)
        ensures
            r == self.actor_values(),
    ;

    #[allow(non_snake_case)]
    fn selectAttack(&self) -> AttackMethod;
}

/// Carries out the attack `method` of `user` on `target`.
pub fn perform_attack(method: AttackMethod, user: &mut ActorValues, target: &mut ActorValues) -> (r:
    BattleEvent)
    ensures
        *final(user) == *old(user),
        *final(target) == *old(target),
        method == AttackMethod::Melee ==> crate::melee::is_melee_event(r, *old(user), *old(target)),
{
    match method {
        AttackMethod::Melee => crate::melee::melee_attack(user, target),
    }
}

} // verus!
