//! The queue of loot on the battle ground: what the player picks up or
//! sells, and the loot filter that does so on its own for loot about to
//! disappear.

use vstd::prelude::*;
use crate::loot_filter::{first_decision, FilterRuleType, LootFilter, LootItem};

verus! {

/// Where a queued loot stands.
#[derive(Clone, Copy, Debug, PartialEq, Eq, Structural)]
pub enum LootState {
    Normal,
    WillDisappear,
    HasDisappeared,
    Sold,
}

/// A loot of the queue: its identifier, where it stands and the item.
#[derive(Clone, Debug)]
pub struct QueuedLoot {
    pub identifier: u64,
    pub state: LootState,
    pub item: LootItem,
}

/// What the page asks the game server for a loot.
#[derive(Clone, Copy, Debug, PartialEq, Eq, Structural)]
pub enum LootAction {
    PickUp(u64),
    Sell(u64),
}

/// The position of the first loot of `queue` with identifier `id`, from
/// position `from` on.
pub open spec fn loot_position(queue: Seq<QueuedLoot>, id: u64, from: int) -> Option<int>
    decreases queue.len() - from,
{
    if from < 0 || from >= queue.len() {
        None
    } else if queue[from].identifier == id {
        Some(from)
    } else {
        loot_position(queue, id, from + 1)
    }
}

/// The position of the first loot about to disappear, from `from` on.
pub open spec fn about_to_vanish(queue: Seq<QueuedLoot>, from: int) -> Option<int>
    decreases queue.len() - from,
{
    if from < 0 || from >= queue.len() {
        None
    } else if queue[from].state == LootState::WillDisappear {
        Some(from)
    } else {
        about_to_vanish(queue, from + 1)
    }
}

/// The queue after the first loot with identifier `id` (if any) takes the
/// state `state`.
pub open spec fn marked(queue: Seq<QueuedLoot>, id: u64, state: LootState) -> Seq<QueuedLoot> {
    match loot_position(queue, id, 0) {
        Some(i) => queue.update(i, QueuedLoot { state, ..queue[i] }),
        None => queue,
    }
}

/// The state that the player's taking a loot leaves it in: sold, or picked
/// up (gone from the ground).
pub open spec fn taken_state(sell: bool) -> LootState {
    if sell {
        LootState::Sold
    } else {
        LootState::HasDisappeared
    }
}

/// The action that taking a loot sends.
pub open spec fn taken_action(id: u64, sell: bool) -> LootAction {
    if sell {
        LootAction::Sell(id)
    } else {
        LootAction::PickUp(id)
    }
}

proof fn lemma_loot_position(queue: Seq<QueuedLoot>, id: u64, from: int)
    ensures
        match loot_position(queue, id, from) {
            Some(i) => 0 <= from <= i < queue.len() && queue[i].identifier == id,
            None => true,
        },
    decreases queue.len() - from,
{
    if 0 <= from < queue.len() && queue[from].identifier != id {
        lemma_loot_position(queue, id, from + 1);
    }
}

proof fn lemma_about_to_vanish(queue: Seq<QueuedLoot>, from: int)
    ensures
        match about_to_vanish(queue, from) {
            Some(i) => 0 <= from <= i < queue.len() && queue[i].state == LootState::WillDisappear,
            None => true,
        },
    decreases queue.len() - from,
{
    if 0 <= from < queue.len() && queue[from].state != LootState::WillDisappear {
        lemma_about_to_vanish(queue, from + 1);
    }
}

fn position_of_loot(queue: &Vec<QueuedLoot>, id: u64) -> (r: Option<usize>)
    ensures
        match r {
            Some(i) => loot_position(queue@, id, 0) == Some(i as int),
            None => loot_position(queue@, id, 0) is None,
        },
{
    let mut i: usize = 0;
    while i < queue.len()
        invariant
            i <= queue@.len(),
            loot_position(queue@, id, 0) == loot_position(queue@, id, i as int),
        decreases queue@.len() - i,
    {
        if queue[i].identifier == id {
            return Some(i);
        }
        i = i + 1;
    }
    None
}

/// The player takes the loot `id`: sells it (`sell`) or picks it up. The
/// first loot with that identifier changes state, and the action to send
/// to the game server is returned.
pub fn take_loot(queue: &mut Vec<QueuedLoot>, id: u64, sell: bool) -> (action: LootAction)
    ensures
        action == taken_action(id, sell),
        final(queue)@ == marked(old(queue)@, id, taken_state(sell)),
{
    let state = if sell {
        LootState::Sold
    } else {
        LootState::HasDisappeared
    };
    proof {
        lemma_loot_position(queue@, id, 0);
    }
    match position_of_loot(queue, id) {
        Some(i) => {
            let mut loot = queue.remove(i);
            loot.state = state;
            queue.insert(i, loot);
            assert(queue@ =~= old(queue)@.update(i as int, QueuedLoot { state, ..old(queue)@[i as int] }));
        },
        None => {},
    }
    if sell {
        LootAction::Sell(id)
    } else {
        LootAction::PickUp(id)
    }
}

/// The state of the loot `id` (the first with that identifier); a loot no
/// longer queued counts as lying there.
pub fn loot_state(queue: &Vec<QueuedLoot>, id: u64) -> (state: LootState)
    ensures
        state == match loot_position(queue@, id, 0) {
            Some(i) => queue@[i].state,
            None => LootState::Normal,
        },
{
    proof {
        lemma_loot_position(queue@, id, 0);
    }
    match position_of_loot(queue, id) {
        Some(i) => queue[i].state,
        None => LootState::Normal,
    }
}

/// How a loot moves: it floats, shakes before it disappears, or goes.
pub fn animation_style(state: LootState) -> (s: &'static str)
    ensures
        s@ == match state {
            LootState::Normal => "animation: loot-float 2.5s ease-in-out infinite;"@,
            LootState::WillDisappear => "animation: loot-vibrate 0.3s linear infinite;"@,
            _ => "animation: loot-pickup 0.3s ease forwards; pointer-events: none;"@,
        },
{
    match state {
        LootState::Normal => "animation: loot-float 2.5s ease-in-out infinite;",
        LootState::WillDisappear => "animation: loot-vibrate 0.3s linear infinite;",
        LootState::HasDisappeared | LootState::Sold => {
            "animation: loot-pickup 0.3s ease forwards; pointer-events: none;"
        },
    }
}

/// One step of the automatic looting: the first loot about to disappear,
/// unless the filter was already tried on it last, goes through the filter;
/// the filter's decision picks it up or sells it. Gives the action sent,
/// the identifier last tried and the queue after the step.
pub open spec fn auto_loot_step(
    rules: Seq<(u128, crate::loot_filter::FilterRule)>,
    last_try: u64,
    queue: Seq<QueuedLoot>,
) -> (Option<LootAction>, u64, Seq<QueuedLoot>) {
    match about_to_vanish(queue, 0) {
        None => (None, last_try, queue),
        Some(i) => {
            let loot = queue[i];
            if loot.identifier == last_try {
                (None, last_try, queue)
            } else {
                match first_decision(rules, loot.item, 0) {
                    Some(FilterRuleType::Pickup) => (
                        Some(LootAction::PickUp(loot.identifier)),
                        loot.identifier,
                        marked(queue, loot.identifier, LootState::HasDisappeared),
                    ),
                    Some(FilterRuleType::Sell) => (
                        Some(LootAction::Sell(loot.identifier)),
                        loot.identifier,
                        marked(queue, loot.identifier, LootState::Sold),
                    ),
                    None => (None, loot.identifier, queue),
                }
            }
        },
    }
}

/// The automatic looting: the identifier of the loot that the filter was
/// last tried on.
pub struct AutoLooter {
    pub last_try: u64,
}

impl AutoLooter {
    /// Nothing tried yet.
    pub fn new() -> (a: Self)
        ensures
            a.last_try == 0,
    {
        AutoLooter { last_try: 0 }
    }

    /// One step of the automatic looting (see `auto_loot_step`).
    pub fn step(&mut self, filter: &LootFilter, queue: &mut Vec<QueuedLoot>) -> (action: Option<
        LootAction,
    >)
        ensures
            (action, final(self).last_try, final(queue)@) == auto_loot_step(
                filter@,
                old(self).last_try,
                old(queue)@,
            ),
    {
        let mut i: usize = 0;
        while i < queue.len() && queue[i].state != LootState::WillDisappear
            invariant
                i <= queue@.len(),
                about_to_vanish(queue@, 0) == about_to_vanish(queue@, i as int),
            decreases queue@.len() - i,
        {
            i = i + 1;
        }
        proof {
            lemma_about_to_vanish(queue@, 0);
            lemma_about_to_vanish(queue@, i as int);
        }
        if i >= queue.len() {
            return None;
        }
        let id = queue[i].identifier;
        if id == self.last_try {
            return None;
        }
        let decision = filter.filter_loot(&queue[i].item);
        self.last_try = id;
        match decision {
            Some(FilterRuleType::Pickup) => Some(take_loot(queue, id, false)),
            Some(FilterRuleType::Sell) => Some(take_loot(queue, id, true)),
            None => None,
        }
    }
}

/// The filter is not tried twice in a row on the same loot: after a step
/// that sent nothing, the next step on the same queue sends nothing and
/// changes nothing.
pub proof fn law_loot_tried_once(
    rules: Seq<(u128, crate::loot_filter::FilterRule)>,
    last_try: u64,
    queue: Seq<QueuedLoot>,
)
    ensures
        ({
            let (action, tried, after) = auto_loot_step(rules, last_try, queue);
            action is None ==> auto_loot_step(rules, tried, after) == (None::<LootAction>, tried, after)
        }),
{
}

} // verus!
