//! The passive skill tree during a game: which nodes can be bought, and
//! the automatic assignment of points along a saved build.

use vstd::prelude::*;
use std::collections::HashSet;

verus! {

broadcast use vstd::std_specs::hash::group_hash_axioms;

/// The passive points left and the nodes bought.
pub struct PassivesState {
    points: u64,
    purchased: HashSet<u64>,
}

/// The passive points left and the nodes bought.
pub struct PassivesView {
    pub points: u64,
    pub purchased: Set<u64>,
}

impl View for PassivesState {
    type V = PassivesView;

    closed spec fn view(&self) -> PassivesView {
        PassivesView { points: self.points, purchased: self.purchased@ }
    }
}

/// The first node of the build, in order, that is not bought yet.
pub open spec fn next_in_build(build: Seq<u64>, purchased: Set<u64>, from: int) -> Option<u64>
    decreases build.len() - from,
{
    if from < 0 || from >= build.len() {
        None
    } else if !purchased.contains(build[from]) {
        Some(build[from])
    } else {
        next_in_build(build, purchased, from + 1)
    }
}

/// The nodes that the automatic assignment buys, in order: up to `amount`
/// times, the next node of the build that is not bought yet.
pub open spec fn auto_purchases(build: Seq<u64>, purchased: Set<u64>, amount: nat) -> Seq<u64>
    decreases amount,
{
    if amount == 0 {
        Seq::empty()
    } else {
        match next_in_build(build, purchased, 0) {
            None => Seq::empty(),
            Some(n) => seq![n] + auto_purchases(build, purchased.insert(n), (amount - 1) as nat),
        }
    }
}

/// How many points one click of the automatic assignment spends at most:
/// one, or with Ctrl held up to ten (never more than there are).
pub open spec fn auto_amount(ctrl: bool, points: u64) -> nat {
    if ctrl {
        if points < 10 {
            points as nat
        } else {
            10
        }
    } else {
        1
    }
}

proof fn lemma_push_to_set<A>(s: Seq<A>, x: A)
    ensures
        s.push(x).to_set() == s.to_set().insert(x),
{
    assert forall|y: A| #[trigger] s.push(x).to_set().contains(y) <==> s.to_set().insert(x).contains(y) by {
        if s.contains(y) {
            let k = choose|k: int| 0 <= k < s.len() && s[k] == y;
            assert(s.push(x)[k] == y);
        }
        if x == y {
            assert(s.push(x)[s.len() as int] == y);
        }
        if s.push(x).contains(y) {
            let k = choose|k: int| 0 <= k < s.len() + 1 && s.push(x)[k] == y;
            if k < s.len() {
                assert(s[k] == y);
            }
        }
    }
    assert(s.push(x).to_set() =~= s.to_set().insert(x));
}

/// How a node of the tree shows.
#[derive(Clone, Copy, Debug, PartialEq, Eq, Structural)]
pub enum PurchaseStatus {
    Purchased,
    Purchaseable,
    Inactive,
}

/// How a node shows: bought; buyable when it is not locked, points are
/// left, and it is a root or touches a bought node; otherwise inactive.
pub fn purchase_status(
    purchased: bool,
    locked: bool,
    points_available: bool,
    root_node: bool,
    touches_purchased: bool,
) -> (s: PurchaseStatus)
    ensures
        s == if purchased {
            PurchaseStatus::Purchased
        } else if !locked && points_available && (root_node || touches_purchased) {
            PurchaseStatus::Purchaseable
        } else {
            PurchaseStatus::Inactive
        },
{
    if purchased {
        PurchaseStatus::Purchased
    } else if !locked && points_available && (root_node || touches_purchased) {
        PurchaseStatus::Purchaseable
    } else {
        PurchaseStatus::Inactive
    }
}

/// The nodes that the connections join to `node`, in the order of the
/// connections.
pub open spec fn neighbours(connections: Seq<(u64, u64)>, node: u64) -> Seq<u64>
    decreases connections.len(),
{
    if connections.len() == 0 {
        Seq::empty()
    } else {
        let rest = neighbours(connections.drop_last(), node);
        let c = connections.last();
        if c.0 == node {
            rest.push(c.1)
        } else if c.1 == node {
            rest.push(c.0)
        } else {
            rest
        }
    }
}

/// The nodes that the connections join to `node`, in the order of the
/// connections.
pub fn connected_nodes(connections: &Vec<(u64, u64)>, node: u64) -> (nodes: Vec<u64>)
    ensures
        nodes@ == neighbours(connections@, node),
{
    let mut nodes: Vec<u64> = Vec::new();
    let mut i: usize = 0;
    while i < connections.len()
        invariant
            i <= connections@.len(),
            nodes@ == neighbours(connections@.subrange(0, i as int), node),
        decreases connections@.len() - i,
    {
        let (from, to) = connections[i];
        assert(connections@.subrange(0, i + 1).drop_last() =~= connections@.subrange(0, i as int));
        if from == node {
            nodes.push(to);
        } else if to == node {
            nodes.push(from);
        }
        i = i + 1;
    }
    assert(connections@.subrange(0, connections@.len() as int) =~= connections@);
    nodes
}

impl PassivesState {
    /// `points` passive points, the nodes `purchased` bought.
    pub fn new(points: u64, purchased: HashSet<u64>) -> (s: Self)
        ensures
            s@.points == points,
            s@.purchased == purchased@,
    {
        PassivesState { points, purchased }
    }

    /// The passive points left.
    pub fn points(&self) -> (p: u64)
        ensures
            p == self@.points,
    {
        self.points
    }

    /// Whether `node` is bought.
    pub fn is_purchased(&self, node: u64) -> (b: bool)
        ensures
            b == self@.purchased.contains(node),
    {
        self.purchased.contains(&node)
    }

    /// How many ends of the connection `from`–`to` are bought.
    pub fn amount_connections(&self, from: u64, to: u64) -> (n: usize)
        ensures
            n == (if self@.purchased.contains(from) { 1int } else { 0 }) + (if self@.purchased.contains(
                to,
            ) {
                1int
            } else {
                0
            }),
    {
        (if self.purchased.contains(&from) { 1 } else { 0 }) + (if self.purchased.contains(&to) {
            1
        } else {
            0
        })
    }

    /// Whether a node joined to `nodes` touches a bought node.
    pub fn touches_purchased(&self, nodes: &Vec<u64>) -> (b: bool)
        ensures
            b == exists|i: int| 0 <= i < nodes@.len() && self@.purchased.contains(nodes@[i]),
    {
        let mut i: usize = 0;
        while i < nodes.len()
            invariant
                i <= nodes@.len(),
                forall|j: int| 0 <= j < i ==> !self@.purchased.contains(nodes@[j]),
            decreases nodes@.len() - i,
        {
            if self.purchased.contains(&nodes[i]) {
                return true;
            }
            i = i + 1;
        }
        false
    }

    /// Buys `node` with one point.
    pub fn purchase_node(&mut self, node: u64)
        requires
            old(self)@.points > 0,
        ensures
            final(self)@.points == old(self)@.points - 1,
            final(self)@.purchased == old(self)@.purchased.insert(node),
    {
        self.points = self.points - 1;
        self.purchased.insert(node);
    }

    /// The next node of `build` that is not bought yet.
    pub fn next_node(&self, build: &Vec<u64>) -> (n: Option<u64>)
        ensures
            n == next_in_build(build@, self@.purchased, 0),
    {
        let mut i: usize = 0;
        while i < build.len()
            invariant
                i <= build@.len(),
                next_in_build(build@, self@.purchased, 0) == next_in_build(
                    build@,
                    self@.purchased,
                    i as int,
                ),
            decreases build@.len() - i,
        {
            if !self.purchased.contains(&build[i]) {
                return Some(build[i]);
            }
            i = i + 1;
        }
        None
    }

    /// Assigns points along the saved `build`: one point, or with Ctrl up
    /// to ten, each to the next node of the build not bought yet. Returns
    /// the nodes bought, in order (each is announced to the server).
    pub fn auto_assign(&mut self, build: &Vec<u64>, ctrl: bool) -> (bought: Vec<u64>)
        requires
            ctrl || old(self)@.points > 0 || next_in_build(build@, old(self)@.purchased, 0) is None,
        ensures
            bought@ == auto_purchases(build@, old(self)@.purchased, auto_amount(ctrl, old(self)@.points)),
            final(self)@.points == old(self)@.points - bought@.len(),
            final(self)@.purchased == old(self)@.purchased.union(bought@.to_set()),
    {
        let mut amount: u64 = if ctrl {
            if self.points < 10 {
                self.points
            } else {
                10
            }
        } else {
            1
        };
        let ghost total = amount as nat;
        let ghost start = self@;
        let mut bought: Vec<u64> = Vec::new();
        loop
            invariant
                amount <= total,
                total == auto_amount(ctrl, start.points),
                bought@.len() + amount == total,
                ctrl ==> amount <= self@.points,
                !ctrl ==> (start.points > 0 || next_in_build(build@, start.purchased, 0) is None),
                !ctrl && bought@.len() > 0 ==> amount == 0,
                bought@ + auto_purchases(build@, self@.purchased, amount as nat) == auto_purchases(
                    build@,
                    start.purchased,
                    total,
                ),
                self@.points == start.points - bought@.len(),
                self@.purchased == start.purchased.union(bought@.to_set()),
                bought@.len() == 0 ==> self@ == start,
            ensures
                amount == 0 || next_in_build(build@, self@.purchased, 0) is None,
                bought@.len() + amount == total,
                bought@ + auto_purchases(build@, self@.purchased, amount as nat) == auto_purchases(
                    build@,
                    start.purchased,
                    total,
                ),
                self@.points == start.points - bought@.len(),
                self@.purchased == start.purchased.union(bought@.to_set()),
            decreases amount,
        {
            if amount == 0 {
                break;
            }
            match self.next_node(build) {
                None => {
                    break;
                },
                Some(node) => {
                    let ghost before_bought = bought@;
                    let ghost before_state = self@;
                    self.purchase_node(node);
                    bought.push(node);
                    amount = amount - 1;
                    proof {
                        lemma_push_to_set(before_bought, node);
                        assert(self@.purchased =~= start.purchased.union(bought@.to_set()));
                        assert(auto_purchases(build@, before_state.purchased, (amount + 1) as nat)
                            == seq![node] + auto_purchases(build@, self@.purchased, amount as nat));
                        assert(before_bought + (seq![node] + auto_purchases(
                            build@,
                            self@.purchased,
                            amount as nat,
                        )) =~= bought@ + auto_purchases(build@, self@.purchased, amount as nat));
                    }
                },
            }
        }
        proof {
            if amount > 0 {
                assert(auto_purchases(build@, self@.purchased, amount as nat) =~= Seq::empty());
            }
            assert(bought@ + auto_purchases(build@, self@.purchased, amount as nat) =~= bought@);
        }
        bought
    }
}

/// The automatic assignment never spends more points than there are: with
/// Ctrl at most ten, without it at most one.
pub proof fn law_auto_assign_within_points(build: Seq<u64>, purchased: Set<u64>, ctrl: bool, points: u64)
    ensures
        auto_purchases(build, purchased, auto_amount(ctrl, points)).len() <= auto_amount(ctrl, points),
        ctrl ==> auto_amount(ctrl, points) <= points,
{
    lemma_auto_purchases_len(build, purchased, auto_amount(ctrl, points));
}

proof fn lemma_auto_purchases_len(build: Seq<u64>, purchased: Set<u64>, amount: nat)
    ensures
        auto_purchases(build, purchased, amount).len() <= amount,
    decreases amount,
{
    if amount > 0 {
        match next_in_build(build, purchased, 0) {
            None => {},
            Some(n) => lemma_auto_purchases_len(build, purchased.insert(n), (amount - 1) as nat),
        }
    }
}

proof fn lemma_next_not_purchased(build: Seq<u64>, purchased: Set<u64>, from: int)
    requires
        0 <= from,
    ensures
        next_in_build(build, purchased, from) matches Some(n) ==> !purchased.contains(n)
            && build.contains(n),
    decreases build.len() - from,
{
    if from < build.len() && purchased.contains(build[from]) {
        lemma_next_not_purchased(build, purchased, from + 1);
    }
}

/// The automatic assignment buys only nodes of the build, each not bought
/// before and each once.
pub proof fn law_auto_assign_buys_new_build_nodes(build: Seq<u64>, purchased: Set<u64>, amount: nat)
    ensures
        ({
            let bought = auto_purchases(build, purchased, amount);
            &&& bought.no_duplicates()
            &&& forall|i: int| 0 <= i < bought.len() ==> build.contains(#[trigger] bought[i])
                && !purchased.contains(bought[i])
        }),
    decreases amount,
{
    if amount > 0 {
        match next_in_build(build, purchased, 0) {
            None => {},
            Some(n) => {
                lemma_next_not_purchased(build, purchased, 0);
                law_auto_assign_buys_new_build_nodes(build, purchased.insert(n), (amount - 1) as nat);
                let rest = auto_purchases(build, purchased.insert(n), (amount - 1) as nat);
                let bought = seq![n] + rest;
                assert forall|i: int| 0 <= i < bought.len() implies build.contains(#[trigger] bought[i])
                    && !purchased.contains(bought[i]) by {
                    if i > 0 {
                        assert(bought[i] == rest[i - 1]);
                    }
                }
                assert forall|i: int, j: int|
                    0 <= i < bought.len() && 0 <= j < bought.len() && i != j implies bought[i]
                    != bought[j] by {
                    if i > 0 && j > 0 {
                        assert(bought[i] == rest[i - 1] && bought[j] == rest[j - 1]);
                    } else if i == 0 {
                        assert(bought[j] == rest[j - 1]);
                        assert(!purchased.insert(n).contains(rest[j - 1]));
                    } else {
                        assert(bought[i] == rest[i - 1]);
                        assert(!purchased.insert(n).contains(rest[i - 1]));
                    }
                }
            },
        }
    }
}

} // verus!
