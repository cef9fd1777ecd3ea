//! The statuses on a character's portrait: which are debuffs, which deal
//! damage of a given type, and the two strips (debuffs, other statuses)
//! that show them in the order of their identifiers, with the number of
//! stacks of each.

use vstd::prelude::*;
use vstd::string::*;
use crate::labels::DamageType;

verus! {

/// What the portrait reads of a status's specifications.
#[derive(Clone, Copy, Debug, PartialEq, Eq, Structural)]
pub struct StatusInfo {
    pub debuff: bool,
    pub damage_type: Option<DamageType>,
}

/// An active status: its identifier, its specifications where the game's
/// data has them, and how many times it is stacked on the character.
#[derive(Clone, Debug)]
pub struct ActiveStatus {
    pub id: String,
    pub info: Option<StatusInfo>,
    pub stacks: usize,
}

/// How many stacks of the status `id` the character's statuses hold: each
/// entry gives a status and how many states of it it holds.
#[verifier::opaque]
pub open spec fn stacks_of(states: Seq<(String, usize)>, id: Seq<char>) -> int
    decreases states.len(),
{
    if states.len() == 0 {
        0
    } else {
        stacks_of(states.drop_last(), id) + if states.last().0@ == id {
            states.last().1 as int
        } else {
            0
        }
    }
}

/// How many states the character's statuses hold in all.
pub open spec fn total_stacks(states: Seq<(String, usize)>) -> int
    decreases states.len(),
{
    if states.len() == 0 {
        0
    } else {
        total_stacks(states.drop_last()) + states.last().1 as int
    }
}

proof fn lemma_stacks_within_total(states: Seq<(String, usize)>, id: Seq<char>)
    ensures
        0 <= stacks_of(states, id) <= total_stacks(states),
    decreases states.len(),
{
    reveal(stacks_of);
    if states.len() > 0 {
        lemma_stacks_within_total(states.drop_last(), id);
    }
}

proof fn lemma_prefix_total(states: Seq<(String, usize)>, k: int)
    requires
        0 <= k <= states.len(),
    ensures
        0 <= total_stacks(states.subrange(0, k)) <= total_stacks(states),
    decreases states.len(),
{
    if k == states.len() {
        assert(states.subrange(0, k) =~= states);
        lemma_stacks_within_total(states, Seq::empty());
    } else {
        assert(states.subrange(0, k) =~= states.drop_last().subrange(0, k));
        lemma_prefix_total(states.drop_last(), k);
    }
}

/// Whether `out` gathers the statuses of `states`: each status once, with
/// its number of stacks; a status that `out` lacks has no stack.
pub open spec fn gathers(out: Seq<(Seq<char>, int)>, states: Seq<(String, usize)>) -> bool {
    &&& forall|i: int, j: int| 0 <= i < j < out.len() ==> (#[trigger] out[i]).0 != (#[trigger] out[j]).0
    &&& forall|i: int| 0 <= i < out.len() ==> (#[trigger] out[i]).1 == stacks_of(states, out[i].0)
    &&& forall|id: Seq<char>|
        (forall|i: int| 0 <= i < out.len() ==> (#[trigger] out[i]).0 != id) ==> #[trigger] stacks_of(
            states,
            id,
        ) == 0
    &&& forall|m: int| 0 <= m < states.len() ==> has_entry(out, (#[trigger] states[m]).0@)
    &&& forall|i: int| 0 <= i < out.len() ==> in_states(states, (#[trigger] out[i]).0)
}

/// Whether `out` has an entry for the status `id`.
pub open spec fn has_entry(out: Seq<(Seq<char>, int)>, id: Seq<char>) -> bool {
    exists|i: int| 0 <= i < out.len() && (#[trigger] out[i]).0 == id
}

/// Whether `states` holds the status `id`.
pub open spec fn in_states(states: Seq<(String, usize)>, id: Seq<char>) -> bool {
    exists|m: int| 0 <= m < states.len() && (#[trigger] states[m]).0@ == id
}

proof fn lemma_stacks_push(states: Seq<(String, usize)>, e: (String, usize), id: Seq<char>)
    ensures
        stacks_of(states.push(e), id) == stacks_of(states, id) + if e.0@ == id {
            e.1 as int
        } else {
            0
        },
{
    reveal(stacks_of);
    assert(states.push(e).drop_last() =~= states);
}

proof fn lemma_gather_known(out: Seq<(Seq<char>, int)>, states: Seq<(String, usize)>, e: (String, usize), j: int)
    requires
        gathers(out, states),
        0 <= j < out.len(),
        out[j].0 == e.0@,
    ensures
        gathers(out.update(j, (out[j].0, out[j].1 + e.1)), states.push(e)),
        out[j].1 == stacks_of(states, e.0@),
{
    let after = out.update(j, (out[j].0, out[j].1 + e.1));
    let pushed = states.push(e);
    assert forall|i: int| 0 <= i < out.len() implies (#[trigger] after[i]).0 == out[i].0 by {}
    assert forall|m: int| 0 <= m < states.len() implies (#[trigger] pushed[m]) == states[m] by {}
    assert forall|i: int| 0 <= i < after.len() implies (#[trigger] after[i]).1 == stacks_of(
        pushed,
        after[i].0,
    ) by {
        lemma_stacks_push(states, e, after[i].0);
        if i != j {
            assert(out[i].0 != out[j].0);
        }
    }
    assert forall|id: Seq<char>|
        (forall|i: int| 0 <= i < after.len() ==> (#[trigger] after[i]).0 != id) implies #[trigger] stacks_of(
        pushed,
        id,
    ) == 0 by {
        lemma_stacks_push(states, e, id);
        assert forall|i: int| 0 <= i < out.len() implies (#[trigger] out[i]).0 != id by {
            assert(after[i].0 == out[i].0);
        }
        assert(after[j].0 != id);
    }
    assert forall|m: int| 0 <= m < pushed.len() implies has_entry(after, (#[trigger] pushed[m]).0@) by {
        if m < states.len() {
            assert(has_entry(out, states[m].0@));
            let i = choose|i: int| 0 <= i < out.len() && (#[trigger] out[i]).0 == states[m].0@;
            assert(after[i].0 == pushed[m].0@);
        } else {
            assert(after[j].0 == pushed[m].0@);
        }
    }
    assert forall|i: int| 0 <= i < after.len() implies in_states(pushed, (#[trigger] after[i]).0) by {
        assert(in_states(states, out[i].0));
        let m = choose|m: int| 0 <= m < states.len() && (#[trigger] states[m]).0@ == out[i].0;
        assert(pushed[m].0@ == after[i].0);
    }
    assert forall|a: int, b: int| 0 <= a < b < after.len() implies (#[trigger] after[a]).0
        != (#[trigger] after[b]).0 by {
        assert(after[a].0 == out[a].0 && after[b].0 == out[b].0);
    }
    assert(gathers(after, pushed));
}

proof fn lemma_gather_new(out: Seq<(Seq<char>, int)>, states: Seq<(String, usize)>, e: (String, usize))
    requires
        gathers(out, states),
        forall|i: int| 0 <= i < out.len() ==> (#[trigger] out[i]).0 != e.0@,
    ensures
        gathers(out.push((e.0@, e.1 as int)), states.push(e)),
{
    let after = out.push((e.0@, e.1 as int));
    let pushed = states.push(e);
    assert(stacks_of(states, e.0@) == 0);
    assert forall|i: int| 0 <= i < after.len() implies (#[trigger] after[i]).1 == stacks_of(
        pushed,
        after[i].0,
    ) by {
        lemma_stacks_push(states, e, after[i].0);
        if i < out.len() {
            assert(after[i] == out[i]);
        }
    }
    assert forall|id: Seq<char>|
        (forall|i: int| 0 <= i < after.len() ==> (#[trigger] after[i]).0 != id) implies #[trigger] stacks_of(
        pushed,
        id,
    ) == 0 by {
        lemma_stacks_push(states, e, id);
        assert forall|i: int| 0 <= i < out.len() implies (#[trigger] out[i]).0 != id by {
            assert(after[i] == out[i]);
        }
        assert(after[out.len() as int].0 != id);
    }
    assert forall|m: int| 0 <= m < pushed.len() implies has_entry(after, (#[trigger] pushed[m]).0@) by {
        if m < states.len() {
            assert(has_entry(out, states[m].0@));
            let i = choose|i: int| 0 <= i < out.len() && (#[trigger] out[i]).0 == states[m].0@;
            assert(after[i] == out[i]);
            assert(after[i].0 == pushed[m].0@);
        } else {
            assert(after[out.len() as int].0 == pushed[m].0@);
        }
    }
    assert forall|i: int| 0 <= i < after.len() implies in_states(pushed, (#[trigger] after[i]).0) by {
        if i < out.len() {
            assert(after[i] == out[i]);
            assert(in_states(states, out[i].0));
            let m = choose|m: int| 0 <= m < states.len() && (#[trigger] states[m]).0@ == out[i].0;
            assert(pushed[m].0@ == after[i].0);
        } else {
            assert(pushed[states.len() as int].0@ == after[i].0);
        }
    }
    assert forall|a: int, b: int| 0 <= a < b < after.len() implies (#[trigger] after[a]).0
        != (#[trigger] after[b]).0 by {
        if b == out.len() {
            assert(after[a] == out[a]);
        } else {
            assert(after[a] == out[a] && after[b] == out[b]);
        }
    }
}

proof fn lemma_gather_empty(states: Seq<(String, usize)>)
    ensures
        gathers(Seq::empty(), states.subrange(0, 0)),
{
    reveal(stacks_of);
    assert forall|id: Seq<char>| #[trigger] stacks_of(states.subrange(0, 0), id) == 0 by {
        reveal(stacks_of);
    }
}

/// The statuses as `gathers` reads them: identifier and number.
pub open spec fn stack_entries(out: Seq<(String, usize)>) -> Seq<(Seq<char>, int)> {
    out.map_values(|e: (String, usize)| (e.0@, e.1 as int))
}

/// The statuses on the character, each once, with its number of stacks:
/// one entry per status that `states` holds, with the sum of its states
/// (see `gathers`). The order of the entries is that of the statuses'
/// first entries; the strips put them in order.
pub fn status_stacks(states: &Vec<(String, usize)>) -> (stacks: Vec<(String, usize)>)
    requires
        total_stacks(states@) <= usize::MAX,
    ensures
        gathers(stack_entries(stacks@), states@),
{
    let mut out: Vec<(String, usize)> = Vec::new();
    let mut k: usize = 0;
    proof {
        lemma_gather_empty(states@);
        assert(stack_entries(out@) =~= Seq::<(Seq<char>, int)>::empty());
    }
    while k < states.len()
        invariant
            k <= states@.len(),
            total_stacks(states@) <= usize::MAX,
            gathers(stack_entries(out@), states@.subrange(0, k as int)),
        decreases states@.len() - k,
    {
        let ghost before = states@.subrange(0, k as int);
        let ghost view = stack_entries(out@);
        assert(states@.subrange(0, k + 1) =~= before.push(states@[k as int]));
        let name = &states[k].0;
        let count = states[k].1;
        proof {
            lemma_prefix_total(states@, k + 1);
            lemma_stacks_within_total(states@.subrange(0, k + 1), name@);
            lemma_stacks_push(before, states@[k as int], name@);
        }
        let mut j: usize = 0;
        while j < out.len() && !crate::text::str_eq(out[j].0.as_str(), name.as_str())
            invariant
                j <= out@.len(),
                view == stack_entries(out@),
                forall|i: int| 0 <= i < j ==> (#[trigger] view[i]).0 != name@,
            decreases out@.len() - j,
        {
            j = j + 1;
        }
        if j < out.len() {
            proof {
                lemma_gather_known(view, before, states@[k as int], j as int);
                assert(view[j as int].1 == stacks_of(before, name@));
            }
            let v = out[j].1 + count;
            let kept = out[j].0.clone();
            out.set(j, (kept, v));
            assert(stack_entries(out@) =~= view.update(
                j as int,
                (view[j as int].0, view[j as int].1 + count),
            ));
        } else {
            proof {
                lemma_gather_new(view, before, states@[k as int]);
            }
            let fresh = name.clone();
            out.push((fresh, count));
            assert(stack_entries(out@) =~= view.push((name@, count as int)));
        }
        k = k + 1;
    }
    assert(states@.subrange(0, states@.len() as int) =~= states@);
    out
}

/// The specifications that the game's data gives the status `id` (its
/// first entry from position `from` on), if any.
pub open spec fn info_of(infos: Seq<(String, StatusInfo)>, id: Seq<char>, from: int) -> Option<StatusInfo>
    decreases infos.len() - from,
{
    if from < 0 || from >= infos.len() {
        None
    } else if infos[from].0@ == id {
        Some(infos[from].1)
    } else {
        info_of(infos, id, from + 1)
    }
}

/// The specifications that the game's data gives the status `id`.
pub fn status_info(infos: &Vec<(String, StatusInfo)>, id: &str) -> (info: Option<StatusInfo>)
    ensures
        info == info_of(infos@, id@, 0),
{
    let mut i: usize = 0;
    while i < infos.len()
        invariant
            i <= infos@.len(),
            info_of(infos@, id@, 0) == info_of(infos@, id@, i as int),
        decreases infos@.len() - i,
    {
        if crate::text::str_eq(infos[i].0.as_str(), id) {
            return Some(infos[i].1);
        }
        i = i + 1;
    }
    None
}

/// The active statuses of the portrait: each gathered status (see
/// `status_stacks`) with its number of stacks and the specifications that
/// the game's data gives it.
pub fn active_statuses(stacks: &Vec<(String, usize)>, infos: &Vec<(String, StatusInfo)>) -> (active:
    Vec<ActiveStatus>)
    ensures
        active@.len() == stacks@.len(),
        forall|i: int|
            0 <= i < active@.len() ==> (#[trigger] active@[i]).id@ == stacks@[i].0@
                && active@[i].stacks == stacks@[i].1 && active@[i].info == info_of(
                infos@,
                stacks@[i].0@,
                0,
            ),
{
    let mut active: Vec<ActiveStatus> = Vec::new();
    let mut i: usize = 0;
    while i < stacks.len()
        invariant
            i <= stacks@.len(),
            active@.len() == i,
            forall|k: int|
                0 <= k < i ==> (#[trigger] active@[k]).id@ == stacks@[k].0@ && active@[k].stacks
                    == stacks@[k].1 && active@[k].info == info_of(infos@, stacks@[k].0@, 0),
        decreases stacks@.len() - i,
    {
        let info = status_info(infos, stacks[i].0.as_str());
        let id = stacks[i].0.clone();
        active.push(ActiveStatus { id, info, stacks: stacks[i].1 });
        i = i + 1;
    }
    active
}

/// The badge on a status's icon: its number of stacks, shown only where
/// there is more than one.
pub fn stack_badge(stacks: usize) -> (badge: Option<usize>)
    ensures
        badge == if stacks > 1 { Some(stacks) } else { None::<usize> },
{
    if stacks > 1 {
        Some(stacks)
    } else {
        None
    }
}

/// Whether a status is a debuff (unknown statuses are not).
pub open spec fn debuff(info: Option<StatusInfo>) -> bool {
    match info {
        Some(i) => i.debuff,
        None => false,
    }
}

/// Whether a status is a debuff (see `debuff`).
pub fn is_debuff(info: Option<StatusInfo>) -> (b: bool)
    ensures
        b == debuff(info),
{
    match info {
        Some(i) => i.debuff,
        None => false,
    }
}

/// Whether a status deals damage of type `damage_type`.
pub open spec fn deals(info: Option<StatusInfo>, damage_type: DamageType) -> bool {
    match info {
        Some(i) => i.damage_type == Some(damage_type),
        None => false,
    }
}

/// Whether some active status deals damage of type `damage_type`.
pub fn has_damage_status(active: &Vec<ActiveStatus>, damage_type: DamageType) -> (b: bool)
    ensures
        b == exists|i: int| 0 <= i < active@.len() && deals(#[trigger] active@[i].info, damage_type),
{
    let mut i: usize = 0;
    while i < active.len()
        invariant
            i <= active@.len(),
            forall|j: int| 0 <= j < i ==> !deals(#[trigger] active@[j].info, damage_type),
        decreases active@.len() - i,
    {
        match active[i].info {
            Some(info) => {
                if info.damage_type == Some(damage_type) {
                    assert(deals(active@[i as int].info, damage_type));
                    return true;
                }
            },
            None => {},
        }
        i = i + 1;
    }
    false
}

/// Whether the identifier `a` comes before `b`, comparing from position `i`
/// on: character by character, a shorter identifier first where one is
/// the beginning of the other.
pub open spec fn id_before_at(a: Seq<char>, b: Seq<char>, i: int) -> bool
    decreases a.len() - i,
{
    if i < 0 || i >= a.len() {
        0 <= i < b.len()
    } else if i >= b.len() {
        false
    } else if a[i] != b[i] {
        a[i] < b[i]
    } else {
        id_before_at(a, b, i + 1)
    }
}

/// Whether the identifier `a` comes before `b` in the order of their
/// characters.
pub open spec fn id_before(a: Seq<char>, b: Seq<char>) -> bool {
    id_before_at(a, b, 0)
}

pub(crate) proof fn lemma_id_irreflexive(a: Seq<char>, i: int)
    requires
        0 <= i,
    ensures
        !id_before_at(a, a, i),
    decreases a.len() - i,
{
    if i < a.len() {
        lemma_id_irreflexive(a, i + 1);
    }
}

pub(crate) proof fn lemma_id_asymmetric(a: Seq<char>, b: Seq<char>, i: int)
    requires
        0 <= i,
    ensures
        id_before_at(a, b, i) ==> !id_before_at(b, a, i),
    decreases a.len() - i,
{
    if i < a.len() && i < b.len() && a[i] == b[i] {
        lemma_id_asymmetric(a, b, i + 1);
    }
}

pub(crate) proof fn lemma_id_transitive(a: Seq<char>, b: Seq<char>, c: Seq<char>, i: int)
    requires
        0 <= i,
        id_before_at(a, b, i),
        id_before_at(b, c, i),
    ensures
        id_before_at(a, c, i),
    decreases a.len() - i,
{
    if i < a.len() && i < b.len() && i < c.len() && a[i] == b[i] && b[i] == c[i] {
        lemma_id_transitive(a, b, c, i + 1);
    }
}

pub(crate) proof fn lemma_id_total(a: Seq<char>, b: Seq<char>, i: int)
    requires
        0 <= i <= a.len(),
        i <= b.len(),
        !id_before_at(a, b, i),
        !id_before_at(b, a, i),
    ensures
        a.len() == b.len(),
        forall|j: int| i <= j < a.len() ==> a[j] == b[j],
    decreases a.len() - i,
{
    if i < a.len() && i < b.len() {
        if a[i] != b[i] {
            assert(a[i] < b[i] || b[i] < a[i]);
        } else {
            lemma_id_total(a, b, i + 1);
        }
    }
}

/// `a` comes before `b`, or they are equal, or `b` comes before `a`.
pub(crate) proof fn lemma_id_trichotomy(a: Seq<char>, b: Seq<char>)
    ensures
        id_before(a, b) || a == b || id_before(b, a),
{
    if !id_before(a, b) && !id_before(b, a) {
        lemma_id_total(a, b, 0);
        assert(a =~= b);
    }
}

/// Whether the identifier `a` comes before `b` (see `id_before`).
pub fn id_less(a: &str, b: &str) -> (r: bool)
    ensures
        r == id_before(a@, b@),
{
    let n = a.unicode_len();
    let m = b.unicode_len();
    let mut i: usize = 0;
    while i < n && i < m && a.get_char(i) == b.get_char(i)
        invariant
            n == a@.len(),
            m == b@.len(),
            i <= n,
            i <= m,
            id_before_at(a@, b@, 0) == id_before_at(a@, b@, i as int),
        decreases n - i,
    {
        i = i + 1;
    }
    if i >= n {
        i < m
    } else if i >= m {
        false
    } else {
        a.get_char(i) < b.get_char(i)
    }
}

/// The order of a strip: by identifier, then (equal identifiers) by
/// position among the active statuses.
pub open spec fn strip_before(active: Seq<ActiveStatus>, p: int, q: int) -> bool {
    id_before(active[p].id@, active[q].id@) || (active[p].id@ == active[q].id@ && p < q)
}

/// Whether the status at `p` shows in the strip of debuffs (`debuffs`) or
/// in that of the other statuses.
pub open spec fn in_strip(active: Seq<ActiveStatus>, p: int, debuffs: bool) -> bool {
    debuff(active[p].info) == debuffs
}

/// The positions of the active statuses that the strip of debuffs
/// (`debuffs`) or of the other statuses shows, in the order in which it
/// shows them: by identifier.
pub fn status_strip(active: &Vec<ActiveStatus>, debuffs: bool) -> (shown: Vec<usize>)
    ensures
        forall|p: int|
            shown@.contains(p as usize) && 0 <= p <= usize::MAX <==> (0 <= p < active@.len()
                && in_strip(active@, p, debuffs)),
        forall|i: int, j: int|
            0 <= i < j < shown@.len() ==> strip_before(active@, shown@[i] as int, shown@[j] as int),
{
    let ghost all = active@;
    let mut shown: Vec<usize> = Vec::new();
    let mut p: usize = 0;
    while p < active.len()
        invariant
            all == active@,
            p <= all.len(),
            forall|k: int| 0 <= k < shown@.len() ==> #[trigger] shown@[k] < p,
            forall|q: int|
                shown@.contains(q as usize) && 0 <= q <= usize::MAX <==> (0 <= q < p && in_strip(
                    all,
                    q,
                    debuffs,
                )),
            forall|i: int, j: int|
                0 <= i < j < shown@.len() ==> strip_before(all, shown@[i] as int, shown@[j] as int),
        decreases all.len() - p,
    {
        if is_debuff(active[p].info) == debuffs {
            let key = active[p].id.as_str();
            let mut k: usize = 0;
            while k < shown.len() && !id_less(key, active[shown[k]].id.as_str())
                invariant
                    all == active@,
                    p < all.len(),
                    key@ == all[p as int].id@,
                    k <= shown@.len(),
                    forall|m: int| 0 <= m < shown@.len() ==> #[trigger] shown@[m] < p,
                    forall|m: int|
                        0 <= m < k ==> !id_before(key@, all[#[trigger] shown@[m] as int].id@),
                decreases shown@.len() - k,
            {
                k = k + 1;
            }
            let ghost before = shown@;
            proof {
                assert forall|m: int| k <= m < before.len() implies id_before(
                    key@,
                    all[before[m] as int].id@,
                ) by {
                    let km = all[before[k as int] as int].id@;
                    let mm = all[before[m] as int].id@;
                    if m > k {
                        assert(strip_before(all, before[k as int] as int, before[m] as int));
                        if id_before(km, mm) {
                            lemma_id_transitive(key@, km, mm, 0);
                        }
                    }
                }
            }
            shown.insert(k, p);
            proof {
                let after = shown@;
                assert(after == before.insert(k as int, p));
                assert forall|i: int, j: int|
                    0 <= i < j < after.len() implies strip_before(
                    all,
                    after[i] as int,
                    after[j] as int,
                ) by {
                    if j < k {
                        assert(after[i] == before[i] && after[j] == before[j]);
                    } else if j == k {
                        assert(after[i] == before[i]);
                        assert(before[i] < p);
                        let ki = all[before[i] as int].id@;
                        assert(!id_before(key@, ki));
                        lemma_id_trichotomy(key@, ki);
                    } else if i == k {
                        assert(after[j] == before[j - 1]);
                        assert(id_before(key@, all[before[j - 1] as int].id@));
                    } else if i < k {
                        assert(after[i] == before[i] && after[j] == before[j - 1]);
                    } else {
                        assert(after[i] == before[i - 1] && after[j] == before[j - 1]);
                    }
                }
                assert forall|q: int|
                    after.contains(q as usize) && 0 <= q <= usize::MAX <==> (0 <= q < p + 1
                        && in_strip(all, q, debuffs)) by {
                    if q == p {
                        assert(after[k as int] == p);
                    } else if 0 <= q <= usize::MAX && after.contains(q as usize) {
                        let m = choose|m: int| 0 <= m < after.len() && after[m] == q as usize;
                        if m < k {
                            assert(before[m] == q as usize);
                        } else if m > k {
                            assert(before[m - 1] == q as usize);
                        }
                    } else if 0 <= q <= usize::MAX && before.contains(q as usize) {
                        let m = choose|m: int| 0 <= m < before.len() && before[m] == q as usize;
                        if m < k {
                            assert(after[m] == q as usize);
                        } else {
                            assert(after[m + 1] == q as usize);
                        }
                    }
                }
                assert forall|m: int| 0 <= m < after.len() implies #[trigger] after[m] < p + 1 by {
                    if m < k {
                        assert(after[m] == before[m]);
                    } else if m > k {
                        assert(after[m] == before[m - 1]);
                    }
                }
            }
        }
        p = p + 1;
    }
    shown
}

/// Every active status shows in exactly one of the two strips.
pub proof fn law_each_status_in_one_strip(active: Seq<ActiveStatus>, p: int)
    ensures
        in_strip(active, p, true) != in_strip(active, p, false),
{
}

/// The order of the strips is that of the identifiers: no identifier comes
/// before itself, and of two different identifiers one comes first.
pub proof fn law_id_order_is_total(a: Seq<char>, b: Seq<char>)
    ensures
        !id_before(a, a),
        id_before(a, b) ==> !id_before(b, a),
        a != b ==> (id_before(a, b) || id_before(b, a)),
{
    lemma_id_irreflexive(a, 0);
    lemma_id_asymmetric(a, b, 0);
    lemma_id_trichotomy(a, b);
}

/// A status deals damage of one type only, the one its specifications
/// give: a status whose specifications give no damage type (or that the
/// data does not know) deals no damage, and two types dealt are the same.
pub proof fn law_status_deals_its_own_type(info: Option<StatusInfo>, t: DamageType, u: DamageType)
    ensures
        info is None ==> !deals(info, t),
        (info matches Some(i) && i.damage_type is None) ==> !deals(info, t),
        (info matches Some(i) && i.damage_type == Some(t)) ==> deals(info, t),
        deals(info, t) && deals(info, u) ==> t == u,
{
}

/// Statuses that give no damage type never make the portrait show a
/// damage status, whatever the type asked for.
pub proof fn law_no_damage_type_no_damage_status(active: Seq<ActiveStatus>, t: DamageType)
    requires
        forall|i: int|
            0 <= i < active.len() ==> match (#[trigger] active[i]).info {
                Some(x) => x.damage_type is None,
                None => true,
            },
    ensures
        !exists|i: int| 0 <= i < active.len() && deals(#[trigger] active[i].info, t),
{
    assert forall|i: int| 0 <= i < active.len() implies !deals(#[trigger] active[i].info, t) by {
        match active[i].info {
            Some(x) => {},
            None => {},
        }
    }
}

} // verus!
