use vstd::prelude::*;

verus! {

/// How many enemies of one kind an encounter brings.
#[derive(Debug, Clone, Copy, PartialEq, Eq, Structural)]
pub enum EnemyAmount {
    Amount(u8),
    Range(u8, u8),
}

/// An enemy id with the number of such enemies.
#[derive(Debug, Clone, Copy, PartialEq, Eq, Structural)]
pub struct EnemyDeclaration(pub u16, pub EnemyAmount);

/// A fight as the catalog describes it.
#[derive(Debug, Clone)]
pub struct Encounter {
    pub id: u16,
    pub text: String,
    pub enemies: Vec<EnemyDeclaration>,
}

} // verus!
