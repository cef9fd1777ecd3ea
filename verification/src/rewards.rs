//! The rewards at the end of a grind or quest: whether rewards are due,
//! which item rewards the player picks, and how the end is confirmed.

use vstd::prelude::*;
use indexmap::IndexSet;
use crate::indexed::{
    index_set_at, index_set_contains, index_set_insert, index_set_len, index_set_new,
    index_set_shift_remove, index_set_shift_remove_index, index_set_values,
};

verus! {

/// How many item rewards a grind gives: the area's reward slots once the
/// area reached `min_level` (the least level that gives item rewards),
/// none in training areas.
pub open spec fn item_rewards_amount(area_level: u16, training: bool, reward_slots: u8, min_level: u16) -> u8 {
    if area_level >= min_level && !training {
        reward_slots
    } else {
        0
    }
}

/// How many item rewards a grind gives (see `item_rewards_amount`).
pub fn predicted_item_rewards_amount(
    area_level: u16,
    training: bool,
    reward_slots: u8,
    min_level: u16,
) -> (n: u8)
    ensures
        n == item_rewards_amount(area_level, training, reward_slots, min_level),
{
    if area_level >= min_level && !training {
        reward_slots
    } else {
        0
    }
}

/// Whether the quest's reward is due: the quest (if the area has one, at
/// `quest_area_level`) is not completed yet and the player reached its level.
pub fn quest_reward_expected(quest_completed: bool, quest_area_level: Option<u16>, max_area_level: u16) -> (b: bool)
    ensures
        b == (!quest_completed && match quest_area_level {
            Some(l) => max_area_level >= l,
            None => false,
        }),
{
    !quest_completed && match quest_area_level {
        Some(l) => max_area_level >= l,
        None => false,
    }
}

/// Whether ending the grind gives any reward: item rewards or the quest's.
pub fn rewards_expected(
    max_area_level: u16,
    training: bool,
    reward_slots: u8,
    min_level: u16,
    quest_completed: bool,
    quest_area_level: Option<u16>,
) -> (b: bool)
    ensures
        b == (item_rewards_amount(max_area_level, training, reward_slots, min_level) > 0 || (
        !quest_completed && match quest_area_level {
            Some(l) => max_area_level >= l,
            None => false,
        })),
{
    predicted_item_rewards_amount(max_area_level, training, reward_slots, min_level) > 0
        || quest_reward_expected(quest_completed, quest_area_level, max_area_level)
}

/// Whether the end is confirmed at once: every reward pick is used, or the
/// rewards (once known) hold no item.
pub fn ends_without_confirmation(picked: usize, reward_picks: u8, no_item_rewards: Option<bool>) -> (b: bool)
    ensures
        b == (picked == reward_picks || no_item_rewards == Some(true)),
{
    picked == reward_picks as usize || match no_item_rewards {
        Some(empty) => empty,
        None => false,
    }
}

/// What the main button of the end-of-grind panel sends.
pub struct EndGrindAction {
    /// Ask the server for the rewards (they are not known yet).
    pub request_rewards: bool,
    /// Go back to town at once, picking nothing (no reward is due).
    pub terminate: bool,
}

/// What the main button of the end-of-grind panel does.
pub fn end_grind_action(rewards_known: bool, rewards_due: bool) -> (a: EndGrindAction)
    ensures
        a.request_rewards == !rewards_known,
        a.terminate == !rewards_due,
{
    EndGrindAction { request_rewards: !rewards_known, terminate: !rewards_due }
}

/// What stopping the grind from the header does.
#[derive(Clone, Copy, Debug, PartialEq, Eq, Structural)]
pub enum StopGrind {
    /// End the quest at once, picking nothing (training areas).
    EndQuestNow,
    /// Open the end-of-grind panel.
    OpenEndPanel,
}

/// What stopping the grind does in an area.
pub fn stop_grind(training: bool) -> (s: StopGrind)
    ensures
        s == if training { StopGrind::EndQuestNow } else { StopGrind::OpenEndPanel },
{
    if training {
        StopGrind::EndQuestNow
    } else {
        StopGrind::OpenEndPanel
    }
}

/// The item rewards that the player picked, in the order picked.
pub struct RewardPicks {
    picked: IndexSet<usize>,
}

impl View for RewardPicks {
    type V = Seq<usize>;

    closed spec fn view(&self) -> Seq<usize> {
        index_set_values(self.picked)
    }
}

impl RewardPicks {
    /// A reward is picked at most once.
    #[verifier::type_invariant]
    closed spec fn picked_once(self) -> bool {
        index_set_values(self.picked).no_duplicates()
    }
}

/// The picks after the reward `index` is clicked, with at most `max`
/// picks: a picked reward is dropped; another is added last, and when this
/// makes one pick too many the oldest pick goes.
pub open spec fn picked_after(picked: Seq<usize>, index: usize, max: u8) -> Seq<usize> {
    if picked.contains(index) {
        picked.remove(picked.index_of(index))
    } else if picked.len() + 1 > max {
        picked.push(index).remove(0)
    } else {
        picked.push(index)
    }
}

impl RewardPicks {
    /// Nothing picked.
    pub fn new() -> (p: Self)
        ensures
            p@ == Seq::<usize>::empty(),
            p@.no_duplicates(),
    {
        RewardPicks { picked: index_set_new() }
    }

    /// How many rewards are picked.
    pub fn len(&self) -> (n: usize)
        ensures
            n == self@.len(),
            self@.no_duplicates(),
    {
        proof {
            use_type_invariant(self);
        }
        index_set_len(&self.picked)
    }

    /// Whether the reward `index` is picked.
    pub fn contains(&self, index: usize) -> (b: bool)
        ensures
            b == self@.contains(index),
    {
        index_set_contains(&self.picked, index)
    }

    /// The reward `index` is clicked, with at most `max` picks allowed.
    pub fn pick(&mut self, index: usize, max: u8)
        ensures
            final(self)@ == picked_after(old(self)@, index, max),
            final(self)@.no_duplicates(),
    {
        proof {
            use_type_invariant(&*self);
        }
        let mut picked = index_set_new();
        std::mem::swap(&mut picked, &mut self.picked);
        let ghost before = index_set_values(picked);
        if index_set_contains(&picked, index) {
            index_set_shift_remove(&mut picked, index);
            proof {
                let after = index_set_values(picked);
                let i = choose|i: int|
                    0 <= i < before.len() && before[i] == index && after == before.remove(i);
                before.index_of_first_ensures(index);
                assert(before.index_of(index) == i);
                assert forall|a: int, b: int|
                    0 <= a < after.len() && 0 <= b < after.len() && a != b implies after[a]
                    != after[b] by {
                    let oa = if a < i { a } else { a + 1 };
                    let ob = if b < i { b } else { b + 1 };
                    assert(after[a] == before[oa]);
                    assert(after[b] == before[ob]);
                }
            }
        } else {
            index_set_insert(&mut picked, index);
            proof {
                let after = index_set_values(picked);
                assert(after == before.push(index));
                assert forall|a: int, b: int|
                    0 <= a < after.len() && 0 <= b < after.len() && a != b implies after[a]
                    != after[b] by {
                    if a == before.len() {
                        assert(after[b] == before[b]);
                    } else if b == before.len() {
                        assert(after[a] == before[a]);
                    } else {
                        assert(after[a] == before[a] && after[b] == before[b]);
                    }
                }
            }
            if index_set_len(&picked) > max as usize {
                let ghost pushed = index_set_values(picked);
                index_set_shift_remove_index(&mut picked, 0);
                proof {
                    let after = index_set_values(picked);
                    assert forall|a: int, b: int|
                        0 <= a < after.len() && 0 <= b < after.len() && a != b implies after[a]
                        != after[b] by {
                        assert(after[a] == pushed[a + 1]);
                        assert(after[b] == pushed[b + 1]);
                    }
                }
            }
        }
        self.picked = picked;
    }

    /// The picks as the message that ends the grind or quest carries them:
    /// in the order picked, each cut to its low byte.
    pub fn reward_picks(&self) -> (picks: Vec<u8>)
        ensures
            picks@.len() == self@.len(),
            forall|i: int| 0 <= i < picks@.len() ==> picks@[i] == #[trigger] self@[i] as u8,
    {
        let n = index_set_len(&self.picked);
        let mut picks: Vec<u8> = Vec::new();
        let mut i: usize = 0;
        while i < n
            invariant
                n == self@.len(),
                i <= n,
                picks@.len() == i,
                forall|j: int| 0 <= j < i ==> picks@[j] == #[trigger] self@[j] as u8,
            decreases n - i,
        {
            match index_set_at(&self.picked, i) {
                Some(v) => picks.push(*v as u8),
                None => {},
            }
            i = i + 1;
        }
        picks
    }

    /// Forgets every pick (the panel was opened again).
    pub fn clear(&mut self)
        ensures
            final(self)@ == Seq::<usize>::empty(),
            final(self)@.no_duplicates(),
    {
        self.picked = index_set_new();
    }
}

/// Picking never leaves more picks than allowed, once there were no more
/// than that, and never picks a reward twice.
pub proof fn law_picks_stay_within_limit(picked: Seq<usize>, index: usize, max: u8)
    requires
        picked.len() <= max,
        picked.no_duplicates(),
    ensures
        picked_after(picked, index, max).len() <= max,
        picked_after(picked, index, max).no_duplicates(),
{
    let after = picked_after(picked, index, max);
    if picked.contains(index) {
        picked.index_of_first_ensures(index);
        let i = picked.index_of(index);
        assert forall|a: int, b: int|
            0 <= a < after.len() && 0 <= b < after.len() && a != b implies after[a] != after[b] by {
            let oa = if a < i { a } else { a + 1 };
            let ob = if b < i { b } else { b + 1 };
            assert(after[a] == picked[oa]);
            assert(after[b] == picked[ob]);
        }
    } else {
        let pushed = picked.push(index);
        assert forall|a: int, b: int|
            0 <= a < pushed.len() && 0 <= b < pushed.len() && a != b implies pushed[a]
            != pushed[b] by {
            if a == picked.len() {
                assert(pushed[b] == picked[b]);
            } else if b == picked.len() {
                assert(pushed[a] == picked[a]);
            }
        }
        if picked.len() + 1 > max {
            assert forall|a: int, b: int|
                0 <= a < after.len() && 0 <= b < after.len() && a != b implies after[a]
                != after[b] by {
                assert(after[a] == pushed[a + 1]);
                assert(after[b] == pushed[b + 1]);
            }
        }
    }
}

/// A reward not yet picked becomes picked, where at least one pick is
/// allowed.
pub proof fn law_pick_adds_reward(picked: Seq<usize>, index: usize, max: u8)
    requires
        !picked.contains(index),
        picked.len() <= max,
        max >= 1,
    ensures
        picked_after(picked, index, max).contains(index),
{
    let after = picked_after(picked, index, max);
    if picked.len() + 1 > max {
        assert(after[after.len() - 1] == index);
    } else {
        assert(after[after.len() - 1] == index);
    }
}

/// Clicking a picked reward unpicks it.
pub proof fn law_click_again_unpicks(picked: Seq<usize>, index: usize, max: u8)
    requires
        picked.contains(index),
        picked.no_duplicates(),
    ensures
        !picked_after(picked, index, max).contains(index),
{
    picked.index_of_first_ensures(index);
    let i = picked.index_of(index);
    let after = picked.remove(i);
    if after.contains(index) {
        let k = choose|k: int| 0 <= k < after.len() && after[k] == index;
        if k < i {
            assert(picked[k] == index);
        } else {
            assert(picked[k + 1] == index);
        }
    }
}

} // verus!
