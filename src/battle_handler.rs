use vstd::prelude::*;
use crate::actor::{ActorValues, actor_of_character, actor_of_enemy};
use crate::enemy::Enemy;
use crate::models::Character;

verus! {

/// The value turns are ordered by: the initiative, below every rolled value when
/// none is rolled.
pub open spec fn initiative_key(a: ActorValues) -> int {
    match a.initiative {
        Some(v) => v as int,
        None => -1,
    }
}

/// Actor `a` takes its turn before actor `b`: higher initiative first, and on equal
/// initiative the one added first.
pub open spec fn goes_before(actors: Seq<ActorValues>, a: int, b: int) -> bool {
    initiative_key(actors[a]) > initiative_key(actors[b]) || (initiative_key(actors[a])
        == initiative_key(actors[b]) && a < b)
}

/// `order` lists each position of `actors` once, in turn order.
pub open spec fn is_turn_order(actors: Seq<ActorValues>, order: Seq<usize>) -> bool {
    &&& order.len() == actors.len()
    &&& forall|i: int| 0 <= i < order.len() ==> order[i] < actors.len()
    &&& forall|i: int, j: int| 0 <= i < j < order.len() ==> order[i] != order[j]
    &&& forall|i: int, j: int|
        0 <= i < j < order.len() ==> goes_before(actors, order[i] as int, order[j] as int)
}

/// Every actor with its initiative set to its agility.
pub open spec fn with_initiative(actors: Seq<ActorValues>) -> Seq<ActorValues> {
    actors.map_values(|a: ActorValues| ActorValues { initiative: Some(a.agil), ..a })
}

fn key_of(a: &ActorValues) -> (r: i32)
    ensures
        r == initiative_key(*a),
{
    match a.initiative {
        Some(v) => v as i32,
        None => -1,
    }
}

/// The turn order of `actors`, by insertion of each actor after those that go before it.
fn turn_order(actors: &Vec<ActorValues>) -> (order: Vec<usize>)
    ensures
        is_turn_order(actors@, order@),
{
    let ghost a = actors@;
    let mut order: Vec<usize> = Vec::new();
    let mut k: usize = 0;
    while k < actors.len()
        invariant
            a == actors@,
            k <= a.len(),
            order@.len() == k,
            forall|i: int| 0 <= i < k ==> order@[i] < k,
            forall|i: int, j: int| 0 <= i < j < k ==> order@[i] != order@[j],
            forall|i: int, j: int|
                0 <= i < j < k ==> goes_before(a, order@[i] as int, order@[j] as int),
        decreases a.len() - k,
    {
        let key = key_of(&actors[k]);
        let mut p: usize = 0;
        while p < order.len() && key_of(&actors[order[p]]) >= key
            invariant
                a == actors@,
                k < a.len(),
                order@.len() == k,
                p <= k,
                forall|i: int| 0 <= i < k ==> order@[i] < k,
                forall|i: int| 0 <= i < p ==> initiative_key(a[order@[i] as int]) >= key,
            decreases k - p,
        {
            p = p + 1;
        }
        let ghost prev = order@;
        order.insert(p, k);
        proof {
            let o = order@;
            assert forall|i: int| 0 <= i < k + 1 implies o[i] < k + 1 by {
                if i < p {
                    assert(o[i] == prev[i]);
                } else if i > p {
                    assert(o[i] == prev[i - 1]);
                }
            }
            assert forall|i: int, j: int| 0 <= i < j < k + 1 implies o[i] != o[j]
                && goes_before(a, o[i] as int, o[j] as int) by {
                if j < p {
                    assert(o[i] == prev[i] && o[j] == prev[j]);
                } else if j == p {
                    assert(o[i] == prev[i]);
                } else if i < p {
                    assert(o[i] == prev[i] && o[j] == prev[j - 1]);
                } else if i == p {
                    assert(o[j] == prev[j - 1]);
                    assert(initiative_key(a[prev[p as int] as int]) < key);
                    if j - 1 > p {
                        assert(goes_before(a, prev[p as int] as int, prev[j - 1] as int));
                    }
                } else {
                    assert(o[i] == prev[i - 1] && o[j] == prev[j - 1]);
                }
            }
        }
        k = k + 1;
    }
    order
}

/// The roster of a fight, its turn order and whose turn it is.
pub struct BattleHandler {
    actors: Vec<ActorValues>,
    sorted_actors: Vec<usize>,
    current_actor_index: usize,
}

impl BattleHandler {
    pub closed spec fn spec_actors(&self) -> Seq<ActorValues> {
        self.actors@
    }

    /// The turn order, as positions in the roster.
    pub closed spec fn spec_order(&self) -> Seq<usize> {
        self.sorted_actors@
    }

    pub closed spec fn spec_index(&self) -> usize {
        self.current_actor_index
    }

    /// Every position in the turn order names an actor of the roster.
    pub open spec fn wf(&self) -> bool {
        forall|i: int|
            0 <= i < self.spec_order().len() ==> self.spec_order()[i] < self.spec_actors().len()
    }

    /// An empty roster.
    pub fn new() -> (r: BattleHandler)
        ensures
            r.wf(),
            r.spec_actors().len() == 0,
            r.spec_order().len() == 0,
            r.spec_index() == 0,
    {
        BattleHandler { actors: Vec::new(), sorted_actors: Vec::new(), current_actor_index: 0 }
    }

    /// The roster with `enemy` added at the end.
    pub fn add_enemy(self, enemy: &Enemy) -> (r: BattleHandler)
        requires
            self.wf(),
        ensures
            r.wf(),
            r.spec_actors() == self.spec_actors().push(actor_of_enemy(*enemy)),
            r.spec_order() == self.spec_order(),
            r.spec_index() == self.spec_index(),
    {
        let mut handler = self;
        handler.actors.push(ActorValues::from(enemy));
        assert forall|i: int| 0 <= i < handler.sorted_actors@.len() implies handler.sorted_actors@[i]
            < handler.actors@.len() by {
            assert(self.spec_order()[i] < self.spec_actors().len());
        }
        handler
    }

    /// The roster with `player` added at the end.
    pub fn add_player(self, player: &Character) -> (r: BattleHandler)
        requires
            self.wf(),
        ensures
            r.wf(),
            r.spec_actors() == self.spec_actors().push(actor_of_character(*player)),
            r.spec_order() == self.spec_order(),
            r.spec_index() == self.spec_index(),
    {
        let mut handler = self;
        handler.actors.push(ActorValues::from(player));
        assert forall|i: int| 0 <= i < handler.sorted_actors@.len() implies handler.sorted_actors@[i]
            < handler.actors@.len() by {
            assert(self.spec_order()[i] < self.spec_actors().len());
        }
        handler
    }

    /// The actors of the roster, in the order they were added.
    pub fn actors(&self) -> (r: &Vec<ActorValues>)
        ensures
            r@ == self.spec_actors(),
    {
        &self.actors
    }

    /// Sets each actor's initiative to its agility and orders the turns by it.
    pub fn calc_initiative(&mut self)
        ensures
            final(self).wf(),
            final(self).spec_actors() == with_initiative(old(self).spec_actors()),
            is_turn_order(final(self).spec_actors(), final(self).spec_order()),
            final(self).spec_index() == old(self).spec_index(),
    {
        let ghost start = self.actors@;
        let mut rolled: Vec<ActorValues> = Vec::new();
        let mut i: usize = 0;
        while i < self.actors.len()
            invariant
                start == self.actors@,
                i <= start.len(),
                rolled@.len() == i,
                forall|j: int|
                    0 <= j < i ==> rolled@[j] == (ActorValues {
                        initiative: Some(start[j].agil),
                        ..start[j]
                    }),
            decreases start.len() - i,
        {
            let mut actor = self.actors[i].clone();
            actor.initiative = Some(actor.agil);
            rolled.push(actor);
            i = i + 1;
        }
        assert(rolled@ =~= with_initiative(start));
        self.actors = rolled;
        self.sorted_actors = turn_order(&self.actors);
    }

    /// Copies of the actors in turn order.
    pub fn get_actor_values_by_order(&self) -> (r: Vec<ActorValues>)
        ensures
            exists|order: Seq<usize>|
                is_turn_order(self.spec_actors(), order) && r@ == order.map_values(
                    |k: usize| self.spec_actors()[k as int],
                ),
    {
        let order = turn_order(&self.actors);
        let mut copy: Vec<ActorValues> = Vec::new();
        let mut i: usize = 0;
        while i < order.len()
            invariant
                is_turn_order(self.actors@, order@),
                i <= order@.len(),
                copy@.len() == i,
                forall|j: int| 0 <= j < i ==> copy@[j] == self.actors@[order@[j] as int],
            decreases order@.len() - i,
        {
            copy.push(self.actors[order[i]].clone());
            i = i + 1;
        }
        assert(copy@ =~= order@.map_values(|k: usize| self.spec_actors()[k as int]));
        copy
    }

    /// A copy of the actor whose turn it is, if the turn index is within the order.
    pub fn get_current_actor(&self) -> (r: Option<ActorValues>)
        requires
            self.wf(),
        ensures
            self.spec_index() < self.spec_order().len() ==> r == Some(
                self.spec_actors()[self.spec_order()[self.spec_index() as int] as int],
            ),
            self.spec_index() >= self.spec_order().len() ==> r is None,
    {
        if self.current_actor_index < self.sorted_actors.len() {
            Some(self.actors[self.sorted_actors[self.current_actor_index]].clone())
        } else {
            None
        }
    }

    /// Moves the turn on by one. The index is not wrapped back to the first actor
    /// at the end of the order; it only stops at `usize::MAX`.
    pub fn increase_actor_index(&mut self)
        ensures
            final(self).spec_actors() == old(self).spec_actors(),
            final(self).spec_order() == old(self).spec_order(),
            final(self).spec_index() == if old(self).spec_index() < usize::MAX {
                (old(self).spec_index() + 1) as usize
            } else {
                old(self).spec_index()
            },
    {
        self.current_actor_index = self.current_actor_index.saturating_add(1);
    }
}

} // verus!
