use vstd::prelude::*;
use crate::battle_events::BattleEvents;

verus! {

/// The log of a fight as it is shown: one line per event.
pub struct BattleHistory {
    history: BattleEvents,
}

impl BattleHistory {
    pub fn new(history: BattleEvents) -> (r: BattleHistory)
        ensures
            r.events() == history.events@,
    {
        BattleHistory { history }
    }

    pub closed spec fn events(&self) -> Seq<crate::battle_events::BattleEvent> {
        self.history.events@
    }

    /// The lines of the log: the title of each event, in order.
    pub fn get_text_content(&self) -> (r: Vec<String>)
        ensures
            r@.len() == self.events().len(),
            forall|i: int| 0 <= i < r@.len() ==> r@[i]@ == self.events()[i].title@,
    {
        let mut lines: Vec<String> = Vec::new();
        let mut i: usize = 0;
        while i < self.history.events.len()
            invariant
                i <= self.history.events@.len(),
                lines@.len() == i,
                forall|j: int| 0 <= j < i ==> lines@[j]@ == self.history.events@[j].title@,
            decreases self.history.events@.len() - i,
        {
            lines.push(self.history.events[i].title.clone());
            i = i + 1;
        }
        lines
    }
}

} // verus!
