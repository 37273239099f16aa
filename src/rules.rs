use vstd::prelude::*;
use std::rc::Rc;
use crate::data::{GameData, lookup, lemma_lookup_some};
use crate::errors::Error;
use crate::models::{Character, Item, ItemType, RewardType, RewardView, BadResultType, BadResultView, RoomResult, Skill};
use crate::random::{check_outcome, damage_bounds};
use crate::state::{DungeonState, GameStateView, hp_after};

verus! {

/// `a + b`, held at `u16::MAX`.
pub open spec fn sat_add(a: u16, b: u16) -> u16 {
    if a + b > u16::MAX {
        u16::MAX
    } else {
        (a + b) as u16
    }
}

/// Some skill in `skills` has id `id`.
pub open spec fn has_skill(skills: Seq<Rc<Skill>>, id: u16) -> bool {
    exists|i: int| 0 <= i < skills.len() && skills[i].id == id
}

/// Some item in `items` has id `id`.
pub open spec fn has_item_id(items: Seq<Rc<Item>>, id: u16) -> bool {
    exists|i: int| 0 <= i < items.len() && items[i].id == id
}

pub open spec fn xp_reward(amount: u16) -> RewardView {
    RewardView { reward_type: RewardType::Xp, name: "Experience Points"@, amount: amount as usize }
}

pub open spec fn item_reward(item: Item) -> RewardView {
    RewardView { reward_type: RewardType::Item(item.item_type), name: item.name@, amount: 1 }
}

pub open spec fn skill_reward(skill: Skill) -> RewardView {
    RewardView { reward_type: RewardType::Skill, name: skill.name@, amount: 1 }
}

pub open spec fn damage_report(amount: u16) -> BadResultView {
    BadResultView {
        bad_result_type: BadResultType::Damage,
        name: "Damage"@,
        amount: amount as usize,
    }
}

/// Where the resolution of a choice stands after some of its consequences.
pub struct Progress {
    /// The run's record as the consequences so far left it.
    pub state: GameStateView,
    /// The rewards gathered so far.
    pub rewards: Seq<RewardView>,
    /// The damage taken, once an ability check failed.
    pub damage: Option<u16>,
    /// The error that stopped the resolution, if any.
    pub error: Option<Error>,
}

/// The resolution has stopped: a check failed or a lookup did.
pub open spec fn halted(p: Progress) -> bool {
    p.damage is Some || p.error is Some
}

/// Where the resolution starts from the record `s`.
pub open spec fn start(s: GameStateView) -> Progress {
    Progress { state: s, rewards: Seq::empty(), damage: None, error: None }
}

pub open spec fn with_state(p: Progress, s: GameStateView) -> Progress {
    Progress { state: s, ..p }
}

/// The effect of one consequence. `fate` is what chance decided for an ability
/// check: `None` when it passed, the damage when it failed.
pub open spec fn apply_consequence(
    data: GameData,
    p: Progress,
    c: RoomResult,
    fate: Option<u16>,
) -> Progress {
    let s = p.state;
    match c {
        RoomResult::GainLevelPoints(n) => with_state(
            p,
            GameStateView { level_points: sat_add(s.level_points, n), ..s },
        ),
        RoomResult::GainXp(n) => Progress {
            state: GameStateView {
                character: Character { xp: sat_add(s.character.xp, n), ..s.character },
                ..s
            },
            rewards: p.rewards.push(xp_reward(n)),
            ..p
        },
        RoomResult::GainItem(id) => match lookup(data.items(), id) {
            Some(item) => Progress {
                state: GameStateView { owned_items: s.owned_items.push(item), ..s },
                rewards: p.rewards.push(item_reward(*item)),
                ..p
            },
            None => Progress { error: Some(Error::DataNotFound), ..p },
        },
        RoomResult::GainSkill(id) => match lookup(data.skills(), id) {
            Some(skill) => if has_skill(s.gained_skills, id) {
                p
            } else {
                Progress {
                    state: GameStateView { gained_skills: s.gained_skills.push(skill), ..s },
                    rewards: p.rewards.push(skill_reward(*skill)),
                    ..p
                }
            },
            None => Progress { error: Some(Error::DataNotFound), ..p },
        },
        RoomResult::StartFight(_) => p,
        RoomResult::AbilityCheck(_, _) => match fate {
            None => p,
            Some(dmg) => Progress {
                state: GameStateView {
                    character: Character { hp: hp_after(s.character.hp, dmg), ..s.character },
                    ..s
                },
                damage: Some(dmg),
                ..p
            },
        },
    }
}

/// `fate` is a possible outcome of consequence `c` for `character`: an ability
/// check passes or fails as the dice allow, and failing draws damage from its range.
pub open spec fn fate_possible(character: Character, c: RoomResult, fate: Option<u16>) -> bool {
    match c {
        RoomResult::AbilityCheck(ability, dificulty) => match fate {
            None => check_outcome(character.score(ability), dificulty, true),
            Some(dmg) => check_outcome(character.score(ability), dificulty, false) && damage_bounds(
                dificulty,
            ).0 <= dmg <= damage_bounds(dificulty).1,
        },
        _ => fate is None,
    }
}

/// The consequences `cons` applied in order from `p0`, one for each entry of `fates`,
/// stopping at the first that halts.
pub open spec fn resolve(
    data: GameData,
    p0: Progress,
    cons: Seq<RoomResult>,
    fates: Seq<Option<u16>>,
) -> Progress
    decreases fates.len(),
{
    if fates.len() == 0 {
        p0
    } else {
        let prev = resolve(data, p0, cons, fates.drop_last());
        if halted(prev) {
            prev
        } else {
            apply_consequence(data, prev, cons[fates.len() - 1], fates.last())
        }
    }
}

/// `fates` is a complete run of `cons` from `p0` that chance allows: it goes on to
/// the last consequence or to the one that halts.
pub open spec fn possible_run(
    data: GameData,
    p0: Progress,
    cons: Seq<RoomResult>,
    fates: Seq<Option<u16>>,
) -> bool {
    &&& fates.len() <= cons.len()
    &&& (fates.len() == cons.len() || halted(resolve(data, p0, cons, fates)))
    &&& forall|k: int|
        0 <= k < fates.len() ==> fate_possible(p0.state.character, cons[k], #[trigger] fates[k])
}

/// Entering room `id`: `after` holds that room, or the lookup fails and nothing changes.
pub open spec fn entered(
    data: GameData,
    s: GameStateView,
    id: u16,
    after: GameStateView,
    r: Result<(), Error>,
) -> bool {
    match lookup(data.rooms(), id) {
        Some(room) => r is Ok && after == GameStateView { current_room: Some(room), ..s },
        None => r == Err::<(), Error>(Error::DataNotFound) && after == s,
    }
}

/// Entering one of the current level's rooms, chosen at random.
pub open spec fn entered_random(
    data: GameData,
    s: GameStateView,
    after: GameStateView,
    r: Result<(), Error>,
) -> bool {
    match s.current_level {
        None => r == Err::<(), Error>(Error::NoCurrentLevel) && after == s,
        Some(level) => if level.rooms@.len() == 0 {
            r == Err::<(), Error>(Error::DataNotFound) && after == s
        } else {
            exists|k: int| 0 <= k < level.rooms@.len() && entered(data, s, level.rooms@[k], after, r)
        },
    }
}

/// The room rule: a level without rooms, or whose threshold the level points reach,
/// leads to its final room; otherwise a room of the level is drawn at random.
pub open spec fn room_advanced(
    data: GameData,
    s: GameStateView,
    after: GameStateView,
    r: Result<(), Error>,
) -> bool {
    match s.current_level {
        None => r == Err::<(), Error>(Error::NoCurrentLevel) && after == s,
        Some(level) => if level.rooms@.len() == 0 || s.level_points >= level.level_points {
            entered(data, s, level.final_room, after, r)
        } else {
            entered_random(data, s, after, r)
        },
    }
}

/// How the end of a resolution `p` shows in the record: an error leaves it as it
/// stood; a failed check reports the damage and switches to `Failure`; otherwise
/// the rewards are reported (switching to `Result` when there are some) and the
/// room advances.
pub open spec fn outcome_applied(
    data: GameData,
    p: Progress,
    after: GameStateView,
    r: Result<(), Error>,
) -> bool {
    match p.error {
        Some(e) => r == Err::<(), Error>(e) && after == p.state,
        None => match p.damage {
            Some(dmg) => r is Ok && after == GameStateView {
                dungeon_state: DungeonState::Failure,
                last_rewards: p.rewards,
                last_bad_results: seq![damage_report(dmg)],
                ..p.state
            },
            None => room_advanced(
                data,
                GameStateView {
                    dungeon_state: if p.rewards.len() > 0 {
                        DungeonState::Result
                    } else {
                        p.state.dungeon_state
                    },
                    last_rewards: p.rewards,
                    last_bad_results: Seq::empty(),
                    ..p.state
                },
                after,
                r,
            ),
        },
    }
}

/// Choosing option `index` in the record `before` gives `after` and `r`: without a
/// current room it is `NoCurrentRoom`; an index past the room's choices changes
/// nothing; otherwise the choice's consequences are resolved in order.
pub open spec fn choice_resolved(
    data: GameData,
    before: GameStateView,
    index: usize,
    after: GameStateView,
    r: Result<(), Error>,
) -> bool {
    match before.current_room {
        None => r == Err::<(), Error>(Error::NoCurrentRoom) && after == before,
        Some(room) => if index >= room.choices@.len() {
            r is Ok && after == before
        } else {
            let cons = room.choices@[index as int].consequences@;
            exists|fates: Seq<Option<u16>>|
                possible_run(data, start(before), cons, fates) && outcome_applied(
                    data,
                    resolve(data, start(before), cons, fates),
                    after,
                    r,
                )
        },
    }
}

/// Consequences leave the current level and room, and the dungeon state, as they were.
pub proof fn lemma_resolve_keeps_place(
    data: GameData,
    p0: Progress,
    cons: Seq<RoomResult>,
    fates: Seq<Option<u16>>,
)
    ensures
        resolve(data, p0, cons, fates).state.current_level == p0.state.current_level,
        resolve(data, p0, cons, fates).state.current_room == p0.state.current_room,
        resolve(data, p0, cons, fates).state.dungeon_state == p0.state.dungeon_state,
    decreases fates.len(),
{
    if fates.len() > 0 {
        lemma_resolve_keeps_place(data, p0, cons, fates.drop_last());
    }
}

/// Gaining a skill a second time changes nothing: no second entry and no second reward.
pub proof fn lemma_gain_skill_idempotent(data: GameData, p: Progress, id: u16)
    ensures
        ({
            let once = apply_consequence(data, p, RoomResult::GainSkill(id), None);
            apply_consequence(data, once, RoomResult::GainSkill(id), None) == once
        }),
{
    let once = apply_consequence(data, p, RoomResult::GainSkill(id), None);
    lemma_lookup_some(data.skills(), id);
    if let Some(skill) = lookup(data.skills(), id) {
        if !has_skill(p.state.gained_skills, id) {
            let n = p.state.gained_skills.len() as int;
            assert(once.state.gained_skills[n] == skill);
            assert(has_skill(once.state.gained_skills, id));
        }
    }
}

/// A choice that resolves without error and without a failed check, in a level that
/// has no rooms or whose threshold the level points reach, ends in the level's final
/// room.
pub proof fn lemma_final_room_rule(
    data: GameData,
    before: GameStateView,
    index: usize,
    after: GameStateView,
    r: Result<(), Error>,
)
    requires
        choice_resolved(data, before, index, after, r),
        before.current_room matches Some(room) && index < room.choices@.len(),
        before.current_level is Some,
        r is Ok,
        after.last_bad_results.len() == 0,
        before.current_level->Some_0.rooms@.len() == 0 || after.level_points
            >= before.current_level->Some_0.level_points,
    ensures
        after.current_room == lookup(data.rooms(), before.current_level->Some_0.final_room),
{
    let room = before.current_room->Some_0;
    let cons = room.choices@[index as int].consequences@;
    let fates = choose|fates: Seq<Option<u16>>|
        possible_run(data, start(before), cons, fates) && outcome_applied(
            data,
            resolve(data, start(before), cons, fates),
            after,
            r,
        );
    lemma_resolve_keeps_place(data, start(before), cons, fates);
}

/// The first position in `items` holding an item of type `t`, if any.
pub open spec fn position_of_type(items: Seq<Rc<Item>>, t: ItemType) -> Option<int>
    decreases items.len(),
{
    if items.len() == 0 {
        None
    } else if items[0].item_type == t {
        Some(0)
    } else {
        match position_of_type(items.drop_first(), t) {
            Some(k) => Some(k + 1),
            None => None,
        }
    }
}

/// The equipment after equipping `item`: the first equipped item of the same type
/// leaves, and `item` is added at the end.
pub open spec fn equipped_with(items: Seq<Rc<Item>>, item: Rc<Item>) -> Seq<Rc<Item>> {
    match position_of_type(items, item.item_type) {
        Some(k) => items.remove(k).push(item),
        None => items.push(item),
    }
}

/// The position found holds the first item of the type; none is found only when no
/// item has it.
pub proof fn lemma_position_of_type(items: Seq<Rc<Item>>, t: ItemType)
    ensures
        position_of_type(items, t) matches Some(k) ==> 0 <= k < items.len() && items[k].item_type
            == t && forall|j: int| 0 <= j < k ==> items[j].item_type != t,
        position_of_type(items, t) is None ==> forall|j: int|
            0 <= j < items.len() ==> items[j].item_type != t,
    decreases items.len(),
{
    if items.len() > 0 {
        lemma_position_of_type(items.drop_first(), t);
        assert forall|j: int| 1 <= j < items.len() implies items.drop_first()[j - 1] == items[j] by {}
    }
}

/// The equipment after equipping each of `items` in turn.
pub open spec fn equipped_all(equipped: Seq<Rc<Item>>, items: Seq<Rc<Item>>) -> Seq<Rc<Item>>
    decreases items.len(),
{
    if items.len() == 0 {
        equipped
    } else {
        equipped_with(equipped_all(equipped, items.drop_last()), items.last())
    }
}

/// After any sequence of equips, starting from equipment without two items of one
/// type, no two equipped items have the same type.
pub proof fn lemma_equip_sequence_keeps_types_unique(
    equipped: Seq<Rc<Item>>,
    items: Seq<Rc<Item>>,
)
    requires
        crate::state::types_unique(equipped),
    ensures
        crate::state::types_unique(equipped_all(equipped, items)),
    decreases items.len(),
{
    if items.len() > 0 {
        lemma_equip_sequence_keeps_types_unique(equipped, items.drop_last());
        lemma_equip_keeps_types_unique(equipped_all(equipped, items.drop_last()), items.last());
    }
}

/// Equipping never leaves two equipped items of the same type.
pub proof fn lemma_equip_keeps_types_unique(items: Seq<Rc<Item>>, item: Rc<Item>)
    requires
        crate::state::types_unique(items),
    ensures
        crate::state::types_unique(equipped_with(items, item)),
{
    lemma_position_of_type(items, item.item_type);
    let t = item.item_type;
    let rest = match position_of_type(items, t) {
        Some(k) => items.remove(k),
        None => items,
    };
    assert forall|j: int| 0 <= j < rest.len() implies rest[j].item_type != t by {
        if let Some(k) = position_of_type(items, t) {
            if j < k {
                assert(rest[j] == items[j]);
            } else {
                assert(rest[j] == items[j + 1]);
            }
        }
    }
    assert forall|i: int, j: int| 0 <= i < j < rest.len() implies rest[i].item_type
        != rest[j].item_type by {
        if let Some(k) = position_of_type(items, t) {
            let ii = if i < k { i } else { i + 1 };
            let jj = if j < k { j } else { j + 1 };
            assert(rest[i] == items[ii]);
            assert(rest[j] == items[jj]);
        }
    }
    let out = equipped_with(items, item);
    assert(out == rest.push(item));
    assert forall|i: int, j: int| 0 <= i < j < out.len() implies out[i].item_type
        != out[j].item_type by {
        if j == rest.len() {
            assert(out[i] == rest[i]);
        } else {
            assert(out[i] == rest[i]);
            assert(out[j] == rest[j]);
        }
    }
}

} // verus!
