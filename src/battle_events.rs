use vstd::prelude::*;

verus! {

/// What happened in one step of a fight.
#[derive(Debug)]
pub struct BattleEvent {
    pub title: String,
    pub source: String,
    pub target: String,
    pub effect: String,
}

impl Clone for BattleEvent {
    fn clone(&self) -> (r: Self)
        ensures
            r == *self,
    {
        BattleEvent {
            title: self.title.clone(),
            source: self.source.clone(),
            target: self.target.clone(),
            effect: self.effect.clone(),
        }
    }
}

impl BattleEvent {
    /// An event with placeholder texts.
    pub fn default() -> (r: BattleEvent)
        ensures
            r.title@ == "Event"@,
            r.source@ == "Default"@,
            r.target@ == "Default"@,
            r.effect@ == "No Effect"@,
    {
        BattleEvent {
            title: "Event".to_owned(),
            source: "Default".to_owned(),
            target: "Default".to_owned(),
            effect: "No Effect".to_owned(),
        }
    }
}

/// The log of a fight.
#[derive(Debug, Clone)]
pub struct BattleEvents {
    pub events: Vec<BattleEvent>,
}

impl BattleEvents {
    pub fn new() -> (r: BattleEvents)
        ensures
            r.events@.len() == 0,
    {
        BattleEvents { events: Vec::new() }
    }
}

} // verus!
