use vstd::prelude::*;
use std::rc::Rc;
use crate::errors::Error;
use crate::models::{Level, Room, Item, Skill};
use crate::enemy::Enemy;
use crate::encounter::Encounter;

verus! {

/// Catalog entries that are looked up by their id.
pub trait WithId {
    spec fn id_of(&self) -> u16;

    fn get_id(&self) -> (r: u16)
        ensures
            r == self.id_of(),
    ;
}

impl WithId for Level {
    open spec fn id_of(&self) -> u16 {
        self.id
    }

    fn get_id(&self) -> (r: u16) {
        self.id
    }
}

impl WithId for Room {
    open spec fn id_of(&self) -> u16 {
        self.id
    }

    fn get_id(&self) -> (r: u16) {
        self.id
    }
}

impl WithId for Item {
    open spec fn id_of(&self) -> u16 {
        self.id
    }

    fn get_id(&self) -> (r: u16) {
        self.id
    }
}

impl WithId for Skill {
    open spec fn id_of(&self) -> u16 {
        self.id
    }

    fn get_id(&self) -> (r: u16) {
        self.id
    }
}

impl WithId for Enemy {
    open spec fn id_of(&self) -> u16 {
        self.id
    }

    fn get_id(&self) -> (r: u16) {
        self.id
    }
}

impl WithId for Encounter {
    open spec fn id_of(&self) -> u16 {
        self.id
    }

    fn get_id(&self) -> (r: u16) {
        self.id
    }
}

/// The first entry of `list` whose id is `id`, if there is one.
pub open spec fn lookup<T: WithId>(list: Seq<Rc<T>>, id: u16) -> Option<Rc<T>>
    decreases list.len(),
{
    if list.len() == 0 {
        None
    } else if (*list[0]).id_of() == id {
        Some(list[0])
    } else {
        lookup(list.drop_first(), id)
    }
}

/// The result a find of `id` in `list` gives.
pub open spec fn found<T: WithId>(list: Seq<Rc<T>>, id: u16) -> Result<Rc<T>, Error> {
    match lookup(list, id) {
        Some(x) => Ok(x),
        None => Err(Error::DataNotFound),
    }
}

proof fn lemma_lookup_from<T: WithId>(list: Seq<Rc<T>>, i: int, id: u16)
    requires
        0 <= i < list.len(),
    ensures
        lookup(list.subrange(i, list.len() as int), id) == if (*list[i]).id_of() == id {
            Some(list[i])
        } else {
            lookup(list.subrange(i + 1, list.len() as int), id)
        },
{
    assert(list.subrange(i, list.len() as int).drop_first() =~= list.subrange(
        i + 1,
        list.len() as int,
    ));
}

/// An entry is found exactly when some entry of `list` carries the id, and what is
/// found is an entry of `list` with that id.
pub proof fn lemma_lookup_some<T: WithId>(list: Seq<Rc<T>>, id: u16)
    ensures
        lookup(list, id) is Some <==> exists|i: int| 0 <= i < list.len() && (*list[i]).id_of() == id,
        lookup(list, id) is Some ==> list.contains(lookup(list, id)->Some_0) && (*lookup(
            list,
            id,
        )->Some_0).id_of() == id,
    decreases list.len(),
{
    if list.len() > 0 {
        lemma_lookup_some(list.drop_first(), id);
        if (*list[0]).id_of() != id {
            if exists|i: int| 0 <= i < list.len() && (*list[i]).id_of() == id {
                let i = choose|i: int| 0 <= i < list.len() && (*list[i]).id_of() == id;
                assert(list.drop_first()[i - 1] == list[i]);
            }
            if lookup(list, id) is Some {
                let j = choose|j: int|
                    0 <= j < list.drop_first().len() && list.drop_first()[j] == lookup(
                        list,
                        id,
                    )->Some_0;
                assert(list[j + 1] == lookup(list, id)->Some_0);
            }
        }
    }
}

/// The fixed content of a run: levels, rooms, items, skills, encounters and enemies.
pub struct GameData {
    levels: Vec<Rc<Level>>,
    rooms: Vec<Rc<Room>>,
    items: Vec<Rc<Item>>,
    skills: Vec<Rc<Skill>>,
    encounters: Vec<Rc<Encounter>>,
    enemies: Vec<Rc<Enemy>>,
}

fn share_all<T>(list: Vec<T>) -> (r: Vec<Rc<T>>)
    ensures
        r@.len() == list@.len(),
        forall|i: int| 0 <= i < list@.len() ==> *r@[i] == list@[i],
{
    let mut rest = list;
    let mut reversed: Vec<T> = Vec::new();
    while rest.len() > 0
        invariant
            reversed@.len() + rest@.len() == list@.len(),
            forall|i: int| 0 <= i < rest@.len() ==> rest@[i] == list@[i],
            forall|i: int|
                0 <= i < reversed@.len() ==> reversed@[i] == list@[list@.len() - 1 - i],
        decreases rest@.len(),
    {
        let x = rest.pop().unwrap();
        reversed.push(x);
    }
    let mut shared: Vec<Rc<T>> = Vec::new();
    while reversed.len() > 0
        invariant
            reversed@.len() + shared@.len() == list@.len(),
            forall|i: int|
                0 <= i < reversed@.len() ==> reversed@[i] == list@[list@.len() - 1 - i],
            forall|i: int| 0 <= i < shared@.len() ==> *shared@[i] == list@[i],
        decreases reversed@.len(),
    {
        let x = reversed.pop().unwrap();
        shared.push(Rc::new(x));
    }
    shared
}

impl GameData {
    pub closed spec fn levels(&self) -> Seq<Rc<Level>> {
        self.levels@
    }

    pub closed spec fn rooms(&self) -> Seq<Rc<Room>> {
        self.rooms@
    }

    pub closed spec fn items(&self) -> Seq<Rc<Item>> {
        self.items@
    }

    pub closed spec fn skills(&self) -> Seq<Rc<Skill>> {
        self.skills@
    }

    pub closed spec fn encounters(&self) -> Seq<Rc<Encounter>> {
        self.encounters@
    }

    pub closed spec fn enemies(&self) -> Seq<Rc<Enemy>> {
        self.enemies@
    }

    /// A catalog holding the given entries, in the given order.
    pub fn new(
        levels: Vec<Level>,
        rooms: Vec<Room>,
        items: Vec<Item>,
        skills: Vec<Skill>,
        encounters: Vec<Encounter>,
        enemies: Vec<Enemy>,
    ) -> (r: GameData)
        ensures
            r.levels().len() == levels@.len(),
            forall|i: int| 0 <= i < levels@.len() ==> *r.levels()[i] == levels@[i],
            r.rooms().len() == rooms@.len(),
            forall|i: int| 0 <= i < rooms@.len() ==> *r.rooms()[i] == rooms@[i],
            r.items().len() == items@.len(),
            forall|i: int| 0 <= i < items@.len() ==> *r.items()[i] == items@[i],
            r.skills().len() == skills@.len(),
            forall|i: int| 0 <= i < skills@.len() ==> *r.skills()[i] == skills@[i],
            r.encounters().len() == encounters@.len(),
            forall|i: int| 0 <= i < encounters@.len() ==> *r.encounters()[i] == encounters@[i],
            r.enemies().len() == enemies@.len(),
            forall|i: int| 0 <= i < enemies@.len() ==> *r.enemies()[i] == enemies@[i],
    {
        GameData {
            levels: share_all(levels),
            rooms: share_all(rooms),
            items: share_all(items),
            skills: share_all(skills),
            encounters: share_all(encounters),
            enemies: share_all(enemies),
        }
    }

    /// The first entry of `list` with id `id`, or `DataNotFound`.
    pub fn find_by_id<T: WithId>(&self, list: &Vec<Rc<T>>, id: u16) -> (r: Result<Rc<T>, Error>)
        ensures
            r == found(list@, id),
    {
        let mut i: usize = 0;
        assert(list@.subrange(0, list@.len() as int) =~= list@);
        while i < list.len()
            invariant
                i <= list@.len(),
                lookup(list@, id) == lookup(list@.subrange(i as int, list@.len() as int), id),
            decreases list@.len() - i,
        {
            proof {
                lemma_lookup_from(list@, i as int, id);
            }
            if list[i].get_id() == id {
                return Ok(Rc::clone(&list[i]));
            }
            i = i + 1;
        }
        Err(Error::DataNotFound)
    }

    pub fn find_item_by_id(&self, item_id: u16) -> (r: Result<Rc<Item>, Error>)
        ensures
            r == found(self.items(), item_id),
    {
        self.find_by_id(&self.items, item_id)
    }

    pub fn find_level_by_id(&self, level_id: u16) -> (r: Result<Rc<Level>, Error>)
        ensures
            r == found(self.levels(), level_id),
    {
        self.find_by_id(&self.levels, level_id)
    }

    pub fn find_room_by_id(&self, room_id: u16) -> (r: Result<Rc<Room>, Error>)
        ensures
            r == found(self.rooms(), room_id),
    {
        self.find_by_id(&self.rooms, room_id)
    }

    pub fn find_skill_by_id(&self, skill_id: u16) -> (r: Result<Rc<Skill>, Error>)
        ensures
            r == found(self.skills(), skill_id),
    {
        self.find_by_id(&self.skills, skill_id)
    }

    pub fn find_enemy_by_id(&self, enemy_id: u16) -> (r: Result<Rc<Enemy>, Error>)
        ensures
            r == found(self.enemies(), enemy_id),
    {
        self.find_by_id(&self.enemies, enemy_id)
    }

    pub fn find_encounter_by_id(&self, encounter_id: u16) -> (r: Result<Rc<Encounter>, Error>)
        ensures
            r == found(self.encounters(), encounter_id),
    {
        self.find_by_id(&self.encounters, encounter_id)
    }
}

} // verus!
