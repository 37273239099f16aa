use vstd::prelude::*;
use vstd::string::StringExecFns;
use crate::actor::{Actor, ActorValues, AttackMethod};
use crate::battle_events::BattleEvent;
use crate::text::{decimal, decimal_text};

verus! {

/// A plain enemy that fights in melee.
pub struct BasicMeleeFighter {
    pub values: ActorValues,
}

impl Actor for BasicMeleeFighter {
    open spec fn actor_values(&self) -> ActorValues {
        self.values
    }

    fn get_actor_values(&self) -> (r: ActorValues) {
        self.values.clone()
    }

    #[allow(non_snake_case)]
    fn selectAttack(&self) -> AttackMethod {
        AttackMethod::Melee
    }
}

/// `e` is the event of a melee attack of `user` on `target`, which deals no damage.
pub open spec fn is_melee_event(e: BattleEvent, user: ActorValues, target: ActorValues) -> bool {
    &&& e.title@ == "Melee Attack"@
    &&& e.source@ == user.name@
    &&& e.target@ == target.name@
    &&& e.effect@ == target.name@ + " lost "@ + decimal(0) + " hp"@
}

/// A melee attack of `user` on `target`; it deals no damage yet.
pub fn melee_attack(user: &mut ActorValues, target: &mut ActorValues) -> (r: BattleEvent)
    ensures
        *final(user) == *old(user),
        *final(target) == *old(target),
        is_melee_event(r, *old(user), *old(target)),
{
    let dmg: usize = 0;
    let mut effect = target.name.clone();
    effect.append(" lost ");
    effect.append(decimal_text(dmg).as_str());
    effect.append(" hp");
    BattleEvent {
        title: "Melee Attack".to_owned(),
        source: user.name.clone(),
        target: target.name.clone(),
        effect,
    }
}

} // verus!
