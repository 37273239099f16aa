use vstd::prelude::*;

verus! {

/// An attack a combatant can choose, with its damage range.
#[derive(Debug, Clone)]
pub struct AttackDescription {
    pub title: String,
    pub attack_type: String,
    pub dmg_min: usize,
    pub dmg_max: usize,
    pub special_effect: String,
}

/// One attack slot: an attack, or nothing.
#[derive(Debug, Clone)]
pub enum AttackOption {
    Attack(AttackDescription),
    Empty,
}

pub type AttackOptions = Vec<AttackOption>;

} // verus!
