//! The loot filter: ordered rules that decide, for each item that drops,
//! whether it is picked up or sold.

use vstd::prelude::*;
use vstd::string::*;
use indexmap::IndexMap;
use crate::indexed::{
    rule_entries, rules_at, rules_index_of, rules_insert, rules_len, rules_new, rules_shift_remove,
    rules_swap, rules_value_mut,
};
use crate::measure::{less, less_eq, is_zero, Measure};
use crate::text::{contains_seq, str_contains};

verus! {

/// How rare an item is, from the most common to the rarest.
#[derive(Clone, Copy, Debug, PartialEq, Eq, Structural)]
pub enum ItemRarity {
    Normal,
    Magic,
    Rare,
    Unique,
}

/// The position of a rarity in the order of rarities.
pub open spec fn rarity_rank(r: ItemRarity) -> int {
    match r {
        ItemRarity::Normal => 0,
        ItemRarity::Magic => 1,
        ItemRarity::Rare => 2,
        ItemRarity::Unique => 3,
    }
}

impl ItemRarity {
    /// The position of the rarity in the order of rarities.
    pub fn rank(&self) -> (r: u16)
        ensures
            r == rarity_rank(*self),
    {
        match self {
            ItemRarity::Normal => 0,
            ItemRarity::Magic => 1,
            ItemRarity::Rare => 2,
            ItemRarity::Unique => 3,
        }
    }
}

/// What a rule does to the items it matches.
#[derive(Clone, Copy, Debug, PartialEq, Eq, Structural)]
pub enum FilterRuleType {
    Pickup,
    Sell,
}

/// A condition on one stat of the item's global effects: the item must have
/// that stat (not zero) and, where a value is given, at least that value
/// for a pickup rule, at most that value for a sell rule.
#[derive(Clone, Copy, Debug, PartialEq, Eq, Structural)]
pub struct StatFilter {
    /// The stat (kind and modifier) by its identifier.
    pub stat: u32,
    pub value: Option<Measure>,
}

/// A rule of the loot filter. Each condition that is set must hold of an
/// item for the rule to match it: for a pickup rule, the item must reach
/// the bound; for a sell rule, it must not exceed it (for cooldowns, the
/// other way round).
#[derive(Clone, Debug)]
pub struct FilterRule {
    pub rule_type: FilterRuleType,
    pub rule_name: String,
    pub enabled: bool,
    /// Part of the item's name (case is ignored).
    pub item_name: Option<String>,
    pub item_level: Option<u16>,
    pub req_item_level: Option<u16>,
    pub item_rarity: Option<ItemRarity>,
    /// A category that the item must belong to, by its identifier.
    pub item_category: Option<u32>,
    pub item_damages: Option<Measure>,
    pub item_damage_physical: Option<Measure>,
    pub item_damage_fire: Option<Measure>,
    pub item_damage_poison: Option<Measure>,
    pub item_damage_storm: Option<Measure>,
    pub item_crit_chance: Option<Measure>,
    pub item_crit_damage: Option<Measure>,
    pub item_cooldown: Option<Measure>,
    pub item_armor: Option<Measure>,
    pub item_block: Option<Measure>,
    pub stat_filters: Vec<Option<StatFilter>>,
}

/// What a weapon brings, as the filter reads it.
#[derive(Clone, Copy, Debug, PartialEq, Eq, Structural)]
pub struct WeaponStats {
    pub average_damages: Measure,
    pub average_physical: Measure,
    pub average_fire: Measure,
    pub average_poison: Measure,
    pub average_storm: Measure,
    pub crit_chance: Measure,
    pub crit_damage: Measure,
    pub cooldown: Measure,
}

/// What an armor piece brings, as the filter reads it.
#[derive(Clone, Copy, Debug, PartialEq, Eq, Structural)]
pub struct ArmorStats {
    pub armor: Measure,
    pub block: Measure,
}

/// An item that dropped, as the filter reads it.
#[derive(Clone, Debug)]
pub struct LootItem {
    pub name: String,
    pub categories: Vec<u32>,
    pub rarity: ItemRarity,
    pub level: u16,
    pub required_level: u16,
    pub weapon: Option<WeaponStats>,
    pub armor: Option<ArmorStats>,
    /// Its global effects: each stat identifier with its value.
    pub global_effects: Vec<(u32, Measure)>,
}

/// What lower-casing `s` gives (`str::to_lowercase`, Unicode rules).
pub uninterp spec fn lowercased(s: Seq<char>) -> Seq<char>;

/// Lower-cases `s` by Unicode's rules (`str::to_lowercase`); the result is
/// what `lowercased` names.
#[verifier::external_body]
fn to_lowercase(s: &str) -> (r: String)
    ensures
        r@ == lowercased(s@),
{
    s.to_lowercase()
}

/// Whether an item of level (or rank) `value` passes a rule's bound.
pub open spec fn reaches(kind: FilterRuleType, value: int, bound: int) -> bool {
    match kind {
        FilterRuleType::Pickup => value >= bound,
        FilterRuleType::Sell => value <= bound,
    }
}

/// Whether a quantity bound of a rule keeps the item out: the item lacks
/// the quantity, or has less of it (pickup) or more of it (sell); with
/// `lower_is_better` the comparison goes the other way.
pub open spec fn bound_rejects(
    kind: FilterRuleType,
    bound: Option<Measure>,
    value: Option<Measure>,
    lower_is_better: bool,
) -> bool {
    match bound {
        None => false,
        Some(b) => match value {
            None => true,
            Some(v) => match (kind, lower_is_better) {
                (FilterRuleType::Pickup, false) => less(v, b),
                (FilterRuleType::Sell, false) => less(b, v),
                (FilterRuleType::Pickup, true) => less(b, v),
                (FilterRuleType::Sell, true) => less(v, b),
            },
        },
    }
}

/// The value of `stat` among `effects` (the first entry for it), from
/// position `from` on.
pub open spec fn effect_value(effects: Seq<(u32, Measure)>, stat: u32, from: int) -> Option<Measure>
    decreases effects.len() - from,
{
    if from < 0 || from >= effects.len() {
        None
    } else if effects[from].0 == stat {
        Some(effects[from].1)
    } else {
        effect_value(effects, stat, from + 1)
    }
}

/// Whether a stat condition holds of an item with these global effects.
pub open spec fn stat_filter_holds(
    kind: FilterRuleType,
    filter: StatFilter,
    effects: Seq<(u32, Measure)>,
) -> bool {
    match effect_value(effects, filter.stat, 0) {
        None => false,
        Some(v) => !is_zero(v) && match filter.value {
            None => true,
            Some(b) => match kind {
                FilterRuleType::Pickup => less_eq(b, v),
                FilterRuleType::Sell => less_eq(v, b),
            },
        },
    }
}

/// A weapon's quantity, if the item is a weapon.
pub open spec fn weapon_value(item: LootItem, f: spec_fn(WeaponStats) -> Measure) -> Option<Measure> {
    match item.weapon {
        Some(w) => Some(f(w)),
        None => None,
    }
}

/// An armor piece's quantity, if the item is an armor piece.
pub open spec fn armor_value(item: LootItem, f: spec_fn(ArmorStats) -> Measure) -> Option<Measure> {
    match item.armor {
        Some(a) => Some(f(a)),
        None => None,
    }
}

/// Whether every condition that `rule` sets holds of `item`.
#[verifier::opaque]
pub open spec fn conditions_hold(rule: FilterRule, item: LootItem) -> bool {
    let kind = rule.rule_type;
    &&& match rule.item_name {
        None => true,
        Some(n) => contains_seq(lowercased(item.name@), lowercased(n@)),
    }
    &&& match rule.item_category {
        None => true,
        Some(c) => item.categories@.contains(c),
    }
    &&& match rule.item_rarity {
        None => true,
        Some(r) => reaches(kind, rarity_rank(item.rarity), rarity_rank(r)),
    }
    &&& match rule.item_level {
        None => true,
        Some(l) => reaches(kind, item.level as int, l as int),
    }
    &&& match rule.req_item_level {
        None => true,
        Some(l) => reaches(kind, item.required_level as int, l as int),
    }
    &&& !bound_rejects(kind, rule.item_damages, weapon_value(item, |w: WeaponStats| w.average_damages), false)
    &&& !bound_rejects(kind, rule.item_damage_physical, weapon_value(item, |w: WeaponStats| w.average_physical), false)
    &&& !bound_rejects(kind, rule.item_damage_fire, weapon_value(item, |w: WeaponStats| w.average_fire), false)
    &&& !bound_rejects(kind, rule.item_damage_poison, weapon_value(item, |w: WeaponStats| w.average_poison), false)
    &&& !bound_rejects(kind, rule.item_damage_storm, weapon_value(item, |w: WeaponStats| w.average_storm), false)
    &&& !bound_rejects(kind, rule.item_crit_chance, weapon_value(item, |w: WeaponStats| w.crit_chance), false)
    &&& !bound_rejects(kind, rule.item_crit_damage, weapon_value(item, |w: WeaponStats| w.crit_damage), false)
    &&& !bound_rejects(kind, rule.item_cooldown, weapon_value(item, |w: WeaponStats| w.cooldown), true)
    &&& !bound_rejects(kind, rule.item_armor, armor_value(item, |a: ArmorStats| a.armor), false)
    &&& !bound_rejects(kind, rule.item_block, armor_value(item, |a: ArmorStats| a.block), false)
    &&& forall|i: int|
        0 <= i < rule.stat_filters@.len() ==> match #[trigger] rule.stat_filters@[i] {
            None => true,
            Some(f) => stat_filter_holds(kind, f, item.global_effects@),
        }
}

/// Whether `rule` lets `item` through: a disabled rule lets every item
/// through, an enabled one the items that meet all its conditions.
pub open spec fn rule_accepts(rule: FilterRule, item: LootItem) -> bool {
    !rule.enabled || conditions_hold(rule, item)
}

fn bound_ok(
    kind: FilterRuleType,
    bound: Option<Measure>,
    value: Option<Measure>,
    lower_is_better: bool,
) -> (ok: bool)
    ensures
        ok == !bound_rejects(kind, bound, value, lower_is_better),
{
    match bound {
        None => true,
        Some(b) => match value {
            None => false,
            Some(v) => {
                let rejected = match (kind, lower_is_better) {
                    (FilterRuleType::Pickup, false) => v.lt(&b),
                    (FilterRuleType::Sell, false) => b.lt(&v),
                    (FilterRuleType::Pickup, true) => b.lt(&v),
                    (FilterRuleType::Sell, true) => v.lt(&b),
                };
                !rejected
            },
        },
    }
}

fn level_ok(kind: FilterRuleType, bound: Option<u16>, value: u16) -> (ok: bool)
    ensures
        ok == match bound {
            None => true,
            Some(b) => reaches(kind, value as int, b as int),
        },
{
    match bound {
        None => true,
        Some(b) => match kind {
            FilterRuleType::Pickup => value >= b,
            FilterRuleType::Sell => value <= b,
        },
    }
}

fn find_effect(effects: &Vec<(u32, Measure)>, stat: u32) -> (r: Option<Measure>)
    ensures
        r == effect_value(effects@, stat, 0),
{
    let mut i: usize = 0;
    while i < effects.len()
        invariant
            i <= effects@.len(),
            effect_value(effects@, stat, 0) == effect_value(effects@, stat, i as int),
        decreases effects@.len() - i,
    {
        if effects[i].0 == stat {
            return Some(effects[i].1);
        }
        i = i + 1;
    }
    None
}

fn stat_filter_ok(kind: FilterRuleType, filter: StatFilter, effects: &Vec<(u32, Measure)>) -> (ok: bool)
    ensures
        ok == stat_filter_holds(kind, filter, effects@),
{
    match find_effect(effects, filter.stat) {
        None => false,
        Some(v) => {
            if v.is_zero() {
                return false;
            }
            match filter.value {
                None => true,
                Some(b) => match kind {
                    FilterRuleType::Pickup => b.le(&v),
                    FilterRuleType::Sell => v.le(&b),
                },
            }
        },
    }
}

fn weapon_measure(weapon: &Option<WeaponStats>, which: u8) -> (m: Option<Measure>)
    ensures
        match weapon {
            None => m is None,
            Some(w) => m == Some(
                if which == 0 {
                    w.average_damages
                } else if which == 1 {
                    w.average_physical
                } else if which == 2 {
                    w.average_fire
                } else if which == 3 {
                    w.average_poison
                } else if which == 4 {
                    w.average_storm
                } else if which == 5 {
                    w.crit_chance
                } else if which == 6 {
                    w.crit_damage
                } else {
                    w.cooldown
                },
            ),
        },
{
    match weapon {
        None => None,
        Some(w) => Some(
            if which == 0 {
                w.average_damages
            } else if which == 1 {
                w.average_physical
            } else if which == 2 {
                w.average_fire
            } else if which == 3 {
                w.average_poison
            } else if which == 4 {
                w.average_storm
            } else if which == 5 {
                w.crit_chance
            } else if which == 6 {
                w.crit_damage
            } else {
                w.cooldown
            },
        ),
    }
}

/// Whether `filter_rule` lets `item` through: always when the rule is
/// disabled, else when the item meets every condition the rule sets.
pub fn verify_filter_rule(filter_rule: &FilterRule, item: &LootItem) -> (ok: bool)
    ensures
        ok == rule_accepts(*filter_rule, *item),
{
    reveal(conditions_hold);
    if !filter_rule.enabled {
        return true;
    }
    let kind = filter_rule.rule_type;
    match &filter_rule.item_name {
        Some(name) => {
            let item_name = to_lowercase(item.name.as_str());
            let wanted = to_lowercase(name.as_str());
            if !str_contains(item_name.as_str(), wanted.as_str()) {
                return false;
            }
        },
        None => {},
    }
    match filter_rule.item_category {
        Some(category) => {
            let mut found = false;
            let mut i: usize = 0;
            while i < item.categories.len()
                invariant
                    i <= item.categories@.len(),
                    found == (exists|j: int| 0 <= j < i && item.categories@[j] == category),
                decreases item.categories@.len() - i,
            {
                if item.categories[i] == category {
                    found = true;
                }
                i = i + 1;
            }
            if !found {
                return false;
            }
        },
        None => {},
    }
    if !level_ok(kind, match filter_rule.item_rarity {
        Some(r) => Some(r.rank()),
        None => None,
    }, item.rarity.rank()) {
        return false;
    }
    if !level_ok(kind, filter_rule.item_level, item.level) {
        return false;
    }
    if !level_ok(kind, filter_rule.req_item_level, item.required_level) {
        return false;
    }
    if !bound_ok(kind, filter_rule.item_damages, weapon_measure(&item.weapon, 0), false) {
        return false;
    }
    if !bound_ok(kind, filter_rule.item_damage_physical, weapon_measure(&item.weapon, 1), false) {
        return false;
    }
    if !bound_ok(kind, filter_rule.item_damage_fire, weapon_measure(&item.weapon, 2), false) {
        return false;
    }
    if !bound_ok(kind, filter_rule.item_damage_poison, weapon_measure(&item.weapon, 3), false) {
        return false;
    }
    if !bound_ok(kind, filter_rule.item_damage_storm, weapon_measure(&item.weapon, 4), false) {
        return false;
    }
    if !bound_ok(kind, filter_rule.item_crit_chance, weapon_measure(&item.weapon, 5), false) {
        return false;
    }
    if !bound_ok(kind, filter_rule.item_crit_damage, weapon_measure(&item.weapon, 6), false) {
        return false;
    }
    if !bound_ok(kind, filter_rule.item_cooldown, weapon_measure(&item.weapon, 7), true) {
        return false;
    }
    let armor_value = match item.armor {
        Some(a) => Some(a.armor),
        None => None,
    };
    if !bound_ok(kind, filter_rule.item_armor, armor_value, false) {
        return false;
    }
    let block_value = match item.armor {
        Some(a) => Some(a.block),
        None => None,
    };
    if !bound_ok(kind, filter_rule.item_block, block_value, false) {
        return false;
    }
    let mut i: usize = 0;
    while i < filter_rule.stat_filters.len()
        invariant
            i <= filter_rule.stat_filters@.len(),
            kind == filter_rule.rule_type,
            filter_rule.enabled,
            forall|j: int|
                0 <= j < i ==> match #[trigger] filter_rule.stat_filters@[j] {
                    None => true,
                    Some(f) => stat_filter_holds(kind, f, item.global_effects@),
                },
        decreases filter_rule.stat_filters@.len() - i,
    {
        proof {
            reveal(conditions_hold);
        }
        match filter_rule.stat_filters[i] {
            Some(f) => {
                if !stat_filter_ok(kind, f, &item.global_effects) {
                    assert(filter_rule.stat_filters@[i as int] == Some(f));
                    return false;
                }
            },
            None => {},
        }
        i = i + 1;
    }
    true
}


/// Whether `rule` is a fresh rule with room for `stat_filters_amount` stat
/// conditions: a pickup rule named "New Rule", enabled, without any
/// condition.
pub open spec fn fresh_rule(rule: FilterRule, stat_filters_amount: usize) -> bool {
    &&& rule.rule_type == FilterRuleType::Pickup
    &&& rule.rule_name@ == "New Rule"@
    &&& rule.enabled
    &&& rule.item_name is None
    &&& rule.item_level is None
    &&& rule.req_item_level is None
    &&& rule.item_rarity is None
    &&& rule.item_category is None
    &&& rule.item_damages is None
    &&& rule.item_damage_physical is None
    &&& rule.item_damage_fire is None
    &&& rule.item_damage_poison is None
    &&& rule.item_damage_storm is None
    &&& rule.item_crit_chance is None
    &&& rule.item_crit_damage is None
    &&& rule.item_cooldown is None
    &&& rule.item_armor is None
    &&& rule.item_block is None
    &&& rule.stat_filters@ == Seq::new(stat_filters_amount as nat, |i: int| None::<StatFilter>)
}

/// Whether two rules agree on every field but their stat conditions.
pub open spec fn same_but_stats(a: FilterRule, b: FilterRule) -> bool {
    &&& a.rule_type == b.rule_type
    &&& a.rule_name == b.rule_name
    &&& a.enabled == b.enabled
    &&& a.item_name == b.item_name
    &&& a.item_level == b.item_level
    &&& a.req_item_level == b.req_item_level
    &&& a.item_rarity == b.item_rarity
    &&& a.item_category == b.item_category
    &&& a.item_damages == b.item_damages
    &&& a.item_damage_physical == b.item_damage_physical
    &&& a.item_damage_fire == b.item_damage_fire
    &&& a.item_damage_poison == b.item_damage_poison
    &&& a.item_damage_storm == b.item_damage_storm
    &&& a.item_crit_chance == b.item_crit_chance
    &&& a.item_crit_damage == b.item_crit_damage
    &&& a.item_cooldown == b.item_cooldown
    &&& a.item_armor == b.item_armor
    &&& a.item_block == b.item_block
}

impl FilterRule {
    /// Sets the `i`-th stat condition as the rule editor shows it: no
    /// condition where no stat is chosen, else the chosen stat with the
    /// value given (if any).
    pub fn set_stat_filter(&mut self, i: usize, stat: Option<u32>, value: Option<Measure>)
        requires
            i < old(self).stat_filters@.len(),
        ensures
            final(self).stat_filters@ == old(self).stat_filters@.update(
                i as int,
                match stat {
                    Some(s) => Some(StatFilter { stat: s, value }),
                    None => None,
                },
            ),
            same_but_stats(*final(self), *old(self)),
    {
        let filter = match stat {
            Some(s) => Some(StatFilter { stat: s, value }),
            None => None,
        };
        self.stat_filters.set(i, filter);
    }

    /// A fresh pickup rule named "New Rule", enabled, without conditions,
    /// with room for `stat_filters_amount` stat conditions.
    pub fn new(stat_filters_amount: usize) -> (rule: FilterRule)
        ensures
            rule.rule_type == FilterRuleType::Pickup,
            rule.rule_name@ == "New Rule"@,
            rule.enabled,
            rule.item_name is None,
            rule.item_level is None,
            rule.req_item_level is None,
            rule.item_rarity is None,
            rule.item_category is None,
            rule.item_damages is None,
            rule.item_damage_physical is None,
            rule.item_damage_fire is None,
            rule.item_damage_poison is None,
            rule.item_damage_storm is None,
            rule.item_crit_chance is None,
            rule.item_crit_damage is None,
            rule.item_cooldown is None,
            rule.item_armor is None,
            rule.item_block is None,
            rule.stat_filters@ == Seq::new(stat_filters_amount as nat, |i: int| None::<StatFilter>),
    {
        let mut stat_filters: Vec<Option<StatFilter>> = Vec::new();
        let mut i: usize = 0;
        while i < stat_filters_amount
            invariant
                i <= stat_filters_amount,
                stat_filters@ == Seq::new(i as nat, |j: int| None::<StatFilter>),
            decreases stat_filters_amount - i,
        {
            stat_filters.push(None);
            i = i + 1;
        }
        FilterRule {
            rule_type: FilterRuleType::Pickup,
            rule_name: String::from_str("New Rule"),
            enabled: true,
            item_name: None,
            item_level: None,
            req_item_level: None,
            item_rarity: None,
            item_category: None,
            item_damages: None,
            item_damage_physical: None,
            item_damage_fire: None,
            item_damage_poison: None,
            item_damage_storm: None,
            item_crit_chance: None,
            item_crit_damage: None,
            item_cooldown: None,
            item_armor: None,
            item_block: None,
            stat_filters,
        }
    }

}

/// The decision of the rules of `entries` from position `from` on: the
/// kind of the first enabled rule that lets the item through.
pub open spec fn first_decision(entries: Seq<(u128, FilterRule)>, item: LootItem, from: int) -> Option<
    FilterRuleType,
>
    decreases entries.len() - from,
{
    if from < 0 || from >= entries.len() {
        None
    } else if entries[from].1.enabled && rule_accepts(entries[from].1, item) {
        Some(entries[from].1.rule_type)
    } else {
        first_decision(entries, item, from + 1)
    }
}

/// No identifier is used by two rules.
pub open spec fn distinct_ids(entries: Seq<(u128, FilterRule)>) -> bool {
    forall|i: int, j: int|
        0 <= i < entries.len() && 0 <= j < entries.len() && i != j ==> entries[i].0 != entries[j].0
}

/// The position of the rule with identifier `id`, if any.
pub open spec fn position_of(entries: Seq<(u128, FilterRule)>, id: u128) -> Option<int> {
    if exists|i: int| 0 <= i < entries.len() && entries[i].0 == id {
        Some(choose|i: int| 0 <= i < entries.len() && entries[i].0 == id)
    } else {
        None
    }
}

/// The rules after the rule `id` moved one place up (towards the first);
/// unchanged where it is first or absent.
pub open spec fn moved_up(entries: Seq<(u128, FilterRule)>, id: u128) -> Seq<(u128, FilterRule)> {
    match position_of(entries, id) {
        Some(i) if i > 0 => entries.update(i, entries[i - 1]).update(i - 1, entries[i]),
        _ => entries,
    }
}

/// The rules after the rule `id` moved one place down (towards the last);
/// unchanged where it is last or absent.
pub open spec fn moved_down(entries: Seq<(u128, FilterRule)>, id: u128) -> Seq<(u128, FilterRule)> {
    match position_of(entries, id) {
        Some(i) if i + 1 < entries.len() => entries.update(i, entries[i + 1]).update(
            i + 1,
            entries[i],
        ),
        _ => entries,
    }
}

/// The rules of the loot filter, in the order in which they are tried,
/// each under its identifier.
pub struct LootFilter {
    rules: IndexMap<u128, FilterRule>,
}

impl View for LootFilter {
    type V = Seq<(u128, FilterRule)>;

    closed spec fn view(&self) -> Seq<(u128, FilterRule)> {
        rule_entries(self.rules)
    }
}

proof fn lemma_position(entries: Seq<(u128, FilterRule)>, id: u128, i: int)
    requires
        distinct_ids(entries),
        0 <= i < entries.len(),
        entries[i].0 == id,
    ensures
        position_of(entries, id) == Some(i),
{
}

impl LootFilter {
    #[verifier::type_invariant]
    closed spec fn inv(self) -> bool {
        distinct_ids(rule_entries(self.rules))
    }

    /// A filter without rules.
    pub fn new() -> (filter: Self)
        ensures
            filter@ == Seq::<(u128, FilterRule)>::empty(),
            distinct_ids(filter@),
    {
        LootFilter { rules: rules_new() }
    }

    /// The number of rules.
    pub fn len(&self) -> (n: usize)
        ensures
            n == self@.len(),
            distinct_ids(self@),
    {
        proof {
            use_type_invariant(self);
        }
        rules_len(&self.rules)
    }

    /// The identifiers of the rules, in order.
    pub fn rule_ids(&self) -> (ids: Vec<u128>)
        ensures
            ids@.len() == self@.len(),
            forall|i: int| 0 <= i < ids@.len() ==> ids@[i] == #[trigger] self@[i].0,
    {
        let n = rules_len(&self.rules);
        let mut ids: Vec<u128> = Vec::new();
        let mut i: usize = 0;
        while i < n
            invariant
                n == self@.len(),
                i <= n,
                ids@.len() == i,
                forall|j: int| 0 <= j < i ==> ids@[j] == #[trigger] self@[j].0,
            decreases n - i,
        {
            match rules_at(&self.rules, i) {
                Some((id, _)) => ids.push(*id),
                None => {},
            }
            i = i + 1;
        }
        ids
    }

    /// The rule with identifier `id`.
    pub fn get(&self, id: u128) -> (rule: Option<&FilterRule>)
        ensures
            match rule {
                Some(r) => exists|i: int| 0 <= i < self@.len() && self@[i] == (id, *r),
                None => forall|i: int| 0 <= i < self@.len() ==> self@[i].0 != id,
            },
    {
        match rules_index_of(&self.rules, id) {
            Some(i) => match rules_at(&self.rules, i) {
                Some((_, r)) => {
                    assert(self@[i as int] == (id, *r));
                    Some(r)
                },
                None => None,
            },
            None => None,
        }
    }

    /// The rule at position `i` and its identifier.
    pub fn rule_at(&self, i: usize) -> (r: Option<(&u128, &FilterRule)>)
        ensures
            match r {
                Some((id, rule)) => i < self@.len() && self@[i as int] == (*id, *rule),
                None => i >= self@.len(),
            },
    {
        rules_at(&self.rules, i)
    }

    /// Puts `rule` under `id`: a rule already there is replaced in its
    /// place, else the rule goes last.
    pub fn insert(&mut self, id: u128, rule: FilterRule)
        ensures
            match position_of(old(self)@, id) {
                Some(i) => final(self)@ == old(self)@.update(i, (id, rule)),
                None => final(self)@ == old(self)@.push((id, rule)),
            },
            distinct_ids(final(self)@),
    {
        proof {
            use_type_invariant(&*self);
        }
        let ghost before = self@;
        let mut rules = rules_new();
        std::mem::swap(&mut rules, &mut self.rules);
        let replaced = rules_insert(&mut rules, id, rule);
        proof {
            match replaced {
                Some(v) => {
                    let i = choose|i: int|
                        0 <= i < before.len() && before[i] == (id, v) && rule_entries(rules)
                            == before.update(i, (id, rule));
                    lemma_position(before, id, i);
                    assert(distinct_ids(rule_entries(rules)));
                },
                None => {
                    assert(distinct_ids(rule_entries(rules)));
                },
            }
        }
        self.rules = rules;
    }

    /// Removes the rule `id`, the later rules moving up; nothing changes
    /// where there is no such rule.
    pub fn remove(&mut self, id: u128)
        ensures
            match position_of(old(self)@, id) {
                Some(i) => final(self)@ == old(self)@.remove(i),
                None => final(self)@ == old(self)@,
            },
            distinct_ids(final(self)@),
    {
        proof {
            use_type_invariant(&*self);
        }
        let ghost before = self@;
        let mut rules = rules_new();
        std::mem::swap(&mut rules, &mut self.rules);
        let removed = rules_shift_remove(&mut rules, id);
        proof {
            match removed {
                Some(v) => {
                    let i = choose|i: int|
                        0 <= i < before.len() && before[i] == (id, v) && rule_entries(rules)
                            == before.remove(i);
                    lemma_position(before, id, i);
                    assert(distinct_ids(rule_entries(rules)));
                },
                None => {},
            }
        }
        self.rules = rules;
    }

    fn swap(&mut self, a: usize, b: usize)
        requires
            a < old(self)@.len(),
            b < old(self)@.len(),
        ensures
            final(self)@ == old(self)@.update(a as int, old(self)@[b as int]).update(
                b as int,
                old(self)@[a as int],
            ),
            distinct_ids(final(self)@),
    {
        proof {
            use_type_invariant(&*self);
        }
        let ghost before = self@;
        let mut rules = rules_new();
        std::mem::swap(&mut rules, &mut self.rules);
        rules_swap(&mut rules, a, b);
        proof {
            let after = rule_entries(rules);
            assert forall|i: int, j: int|
                0 <= i < after.len() && 0 <= j < after.len() && i != j implies after[i].0
                != after[j].0 by {
                let oi = if i == a { b as int } else if i == b { a as int } else { i };
                let oj = if j == a { b as int } else if j == b { a as int } else { j };
                assert(after[i] == before[oi]);
                assert(after[j] == before[oj]);
            }
        }
        self.rules = rules;
    }

    /// Moves the rule `id` one place up, unless it is first (or absent).
    pub fn move_up(&mut self, id: u128)
        ensures
            final(self)@ == moved_up(old(self)@, id),
            distinct_ids(final(self)@),
    {
        proof {
            use_type_invariant(&*self);
        }
        match rules_index_of(&self.rules, id) {
            Some(i) => {
                proof {
                    lemma_position(self@, id, i as int);
                }
                if i > 0 {
                    self.swap(i, i - 1);
                }
            },
            None => {},
        }
    }

    /// Moves the rule `id` one place down, unless it is last (or absent).
    pub fn move_down(&mut self, id: u128)
        ensures
            final(self)@ == moved_down(old(self)@, id),
            distinct_ids(final(self)@),
    {
        proof {
            use_type_invariant(&*self);
        }
        let n = rules_len(&self.rules);
        match rules_index_of(&self.rules, id) {
            Some(i) => {
                proof {
                    lemma_position(self@, id, i as int);
                }
                if i + 1 < n {
                    self.swap(i, i + 1);
                }
            },
            None => {},
        }
    }

    /// Adds a fresh rule (see `FilterRule::new`) under the new identifier
    /// `id` and returns the identifier, which becomes the selected rule.
    pub fn add_new_rule(&mut self, id: u128, stat_filters_amount: usize) -> (selected: Option<u128>)
        ensures
            selected == Some(id),
            match position_of(old(self)@, id) {
                Some(i) => final(self)@ == old(self)@.update(i, (id, final(self)@[i].1)),
                None => final(self)@ == old(self)@.push((id, final(self)@.last().1)),
            },
            exists|i: int|
                0 <= i < final(self)@.len() && final(self)@[i].0 == id && fresh_rule(
                    #[trigger] final(self)@[i].1,
                    stat_filters_amount,
                ),
            distinct_ids(final(self)@),
    {
        proof {
            use_type_invariant(&*self);
        }
        let rule = FilterRule::new(stat_filters_amount);
        self.insert(id, rule);
        proof {
            match position_of(old(self)@, id) {
                Some(i) => {
                    assert(self@[i].0 == id);
                    assert(fresh_rule(self@[i].1, stat_filters_amount));
                },
                None => {
                    assert(self@[self@.len() - 1].0 == id);
                    assert(fresh_rule(self@[self@.len() - 1].1, stat_filters_amount));
                },
            }
        }
        Some(id)
    }

    /// The selected rule, if one is selected and it exists.
    pub fn selected_rule(&self, selected: Option<u128>) -> (rule: Option<&FilterRule>)
        ensures
            match selected {
                None => rule is None,
                Some(id) => match rule {
                    Some(r) => exists|i: int| 0 <= i < self@.len() && self@[i] == (id, *r),
                    None => forall|i: int| 0 <= i < self@.len() ==> self@[i].0 != id,
                },
            },
    {
        match selected {
            Some(id) => self.get(id),
            None => None,
        }
    }

    /// Replaces the selected rule by `rule`, in its place; nothing changes
    /// where no rule is selected or the selected rule does not exist.
    pub fn update_selected_rule(&mut self, selected: Option<u128>, rule: FilterRule)
        ensures
            match selected {
                Some(id) => match position_of(old(self)@, id) {
                    Some(i) => final(self)@ == old(self)@.update(i, (id, rule)),
                    None => final(self)@ == old(self)@,
                },
                None => final(self)@ == old(self)@,
            },
            distinct_ids(final(self)@),
    {
        proof {
            use_type_invariant(&*self);
        }
        match selected {
            Some(id) => {
                match rules_index_of(&self.rules, id) {
                    Some(_) => self.insert(id, rule),
                    None => {},
                }
            },
            None => {},
        }
    }

    /// Turns the rule `id` on or off; nothing changes where it does not exist.
    pub fn set_enabled(&mut self, id: u128, enabled: bool)
        ensures
            match position_of(old(self)@, id) {
                Some(i) => final(self)@ == old(self)@.update(
                    i,
                    (id, FilterRule { enabled, ..old(self)@[i].1 }),
                ),
                None => final(self)@ == old(self)@,
            },
            distinct_ids(final(self)@),
    {
        proof {
            use_type_invariant(&*self);
        }
        match rules_index_of(&self.rules, id) {
            Some(i) => {
                proof {
                    lemma_position(self@, id, i as int);
                }
                let ghost before = self@;
                let mut rules = rules_new();
                std::mem::swap(&mut rules, &mut self.rules);
                let rule = rules_value_mut(&mut rules, i);
                rule.enabled = enabled;
                proof {
                    let after = rule_entries(rules);
                    assert(after == before.update(
                        i as int,
                        (id, FilterRule { enabled, ..before[i as int].1 }),
                    ));
                    assert forall|a: int, b: int|
                        0 <= a < after.len() && 0 <= b < after.len() && a != b implies after[a].0
                        != after[b].0 by {
                        assert(after[a].0 == before[a].0);
                        assert(after[b].0 == before[b].0);
                    }
                }
                self.rules = rules;
            },
            None => {},
        }
    }

    /// Removes the selected rule; the selection is then empty.
    pub fn delete_selected_rule(&mut self, selected: Option<u128>) -> (new_selected: Option<u128>)
        ensures
            new_selected is None,
            match selected {
                Some(id) => match position_of(old(self)@, id) {
                    Some(i) => final(self)@ == old(self)@.remove(i),
                    None => final(self)@ == old(self)@,
                },
                None => final(self)@ == old(self)@,
            },
            distinct_ids(final(self)@),
    {
        proof {
            use_type_invariant(&*self);
        }
        match selected {
            Some(id) => {
                self.remove(id);
                None
            },
            None => None,
        }
    }

    /// The kind of the first enabled rule, in order, that lets `item`
    /// through; `None` where no rule decides.
    pub fn filter_loot(&self, item: &LootItem) -> (decision: Option<FilterRuleType>)
        ensures
            decision == first_decision(self@, *item, 0),
    {
        let n = rules_len(&self.rules);
        let mut i: usize = 0;
        while i < n
            invariant
                n == self@.len(),
                i <= n,
                first_decision(self@, *item, 0) == first_decision(self@, *item, i as int),
            decreases n - i,
        {
            match rules_at(&self.rules, i) {
                Some((_, rule)) => {
                    if rule.enabled && verify_filter_rule(rule, item) {
                        return Some(rule.rule_type);
                    }
                },
                None => {},
            }
            i = i + 1;
        }
        None
    }
}


/// Moving a rule up and then down again restores the order of the rules,
/// unless it was first.
pub proof fn law_move_up_then_down(entries: Seq<(u128, FilterRule)>, k: int)
    requires
        distinct_ids(entries),
        0 < k < entries.len(),
    ensures
        moved_down(moved_up(entries, entries[k].0), entries[k].0) == entries,
{
    let id = entries[k].0;
    lemma_position(entries, id, k);
    let up = moved_up(entries, id);
    assert(up[k - 1].0 == id);
    assert(distinct_ids(up)) by {
        assert forall|i: int, j: int|
            0 <= i < up.len() && 0 <= j < up.len() && i != j implies up[i].0 != up[j].0 by {
            let oi = if i == k { k - 1 } else if i == k - 1 { k } else { i };
            let oj = if j == k { k - 1 } else if j == k - 1 { k } else { j };
            assert(up[i] == entries[oi]);
            assert(up[j] == entries[oj]);
        }
    }
    lemma_position(up, id, k - 1);
    assert(moved_down(up, id) =~= entries);
}

/// Moving a rule down and then up again restores the order of the rules,
/// unless it was last.
pub proof fn law_move_down_then_up(entries: Seq<(u128, FilterRule)>, k: int)
    requires
        distinct_ids(entries),
        0 <= k < entries.len() - 1,
    ensures
        moved_up(moved_down(entries, entries[k].0), entries[k].0) == entries,
{
    let id = entries[k].0;
    lemma_position(entries, id, k);
    let down = moved_down(entries, id);
    assert(down[k + 1].0 == id);
    assert(distinct_ids(down)) by {
        assert forall|i: int, j: int|
            0 <= i < down.len() && 0 <= j < down.len() && i != j implies down[i].0 != down[j].0 by {
            let oi = if i == k { k + 1 } else if i == k + 1 { k } else { i };
            let oj = if j == k { k + 1 } else if j == k + 1 { k } else { j };
            assert(down[i] == entries[oi]);
            assert(down[j] == entries[oj]);
        }
    }
    lemma_position(down, id, k + 1);
    assert(moved_up(down, id) =~= entries);
}

/// A disabled rule never decides: taking it out of the filter changes no
/// decision.
pub proof fn law_disabled_rule_is_ignored(
    entries: Seq<(u128, FilterRule)>,
    k: int,
    item: LootItem,
)
    requires
        0 <= k < entries.len(),
        !entries[k].1.enabled,
    ensures
        first_decision(entries.remove(k), item, 0) == first_decision(entries, item, 0),
{
    lemma_decision_skips(entries, k, item, 0);
}

proof fn lemma_decision_skips(entries: Seq<(u128, FilterRule)>, k: int, item: LootItem, from: int)
    requires
        0 <= k < entries.len(),
        !entries[k].1.enabled,
        0 <= from <= k,
    ensures
        first_decision(entries.remove(k), item, from) == first_decision(entries, item, from),
    decreases entries.len() - from,
{
    let removed = entries.remove(k);
    if from == k {
        lemma_decision_shift(entries, k, item, k + 1);
    } else {
        assert(removed[from] == entries[from]);
        lemma_decision_skips(entries, k, item, from + 1);
    }
}

proof fn lemma_decision_shift(entries: Seq<(u128, FilterRule)>, k: int, item: LootItem, from: int)
    requires
        0 <= k < entries.len(),
        k < from <= entries.len(),
    ensures
        first_decision(entries.remove(k), item, from - 1) == first_decision(entries, item, from),
    decreases entries.len() - from,
{
    let removed = entries.remove(k);
    if from < entries.len() {
        assert(removed[from - 1] == entries[from]);
        lemma_decision_shift(entries, k, item, from + 1);
    }
}

/// A filter whose rules are all disabled decides nothing.
pub proof fn law_all_disabled_decides_nothing(entries: Seq<(u128, FilterRule)>, item: LootItem, from: int)
    requires
        forall|i: int| 0 <= i < entries.len() ==> !(#[trigger] entries[i]).1.enabled,
        0 <= from,
    ensures
        first_decision(entries, item, from) is None,
    decreases entries.len() - from,
{
    if from < entries.len() {
        assert(!entries[from].1.enabled);
        law_all_disabled_decides_nothing(entries, item, from + 1);
    }
}

/// Whether the rule at position `j` decides for `item`: it is enabled and
/// lets the item through.
pub open spec fn decides_at(entries: Seq<(u128, FilterRule)>, item: LootItem, j: int) -> bool {
    entries[j].1.enabled && rule_accepts(entries[j].1, item)
}

/// The filter decides as its first enabled rule that lets the item
/// through: every earlier enabled rule keeps the item out.
pub proof fn law_first_matching_rule_decides(entries: Seq<(u128, FilterRule)>, item: LootItem, from: int)
    requires
        0 <= from,
    ensures
        match first_decision(entries, item, from) {
            Some(kind) => exists|k: int|
                from <= k < entries.len() && #[trigger] decides_at(entries, item, k)
                    && entries[k].1.rule_type == kind && forall|j: int|
                    from <= j < k ==> !#[trigger] decides_at(entries, item, j),
            None => forall|j: int| from <= j < entries.len() ==> !#[trigger] decides_at(entries, item, j),
        },
    decreases entries.len() - from,
{
    if from < entries.len() {
        law_first_matching_rule_decides(entries, item, from + 1);
        if decides_at(entries, item, from) {
            assert(decides_at(entries, item, from));
        } else {
            match first_decision(entries, item, from + 1) {
                Some(kind) => {
                    let k = choose|k: int|
                        from + 1 <= k < entries.len() && #[trigger] decides_at(entries, item, k)
                            && entries[k].1.rule_type == kind && forall|j: int|
                            from + 1 <= j < k ==> !#[trigger] decides_at(entries, item, j);
                    assert forall|j: int| from <= j < k implies !#[trigger] decides_at(
                        entries,
                        item,
                        j,
                    ) by {
                        if j > from {
                            assert(from + 1 <= j < k);
                        }
                    }
                },
                None => {
                    assert forall|j: int| from <= j < entries.len() implies !#[trigger] decides_at(
                        entries,
                        item,
                        j,
                    ) by {
                        if j > from {
                            assert(from + 1 <= j);
                        }
                    }
                },
            }
        }
    }
}

/// A condition that a rule can set on an item.
#[derive(Clone, Copy, Debug, PartialEq, Eq, Structural)]
pub enum RuleCondition {
    Category,
    Rarity,
    Level,
    RequiredLevel,
    Damages,
    Physical,
    Fire,
    Poison,
    Storm,
    CritChance,
    CritDamage,
    Cooldown,
    Armor,
    Block,
}

/// The bound that `rule` sets on the quantity `c`, for a condition on a
/// quantity of the item.
pub open spec fn quantity_bound(rule: FilterRule, c: RuleCondition) -> Option<Measure> {
    match c {
        RuleCondition::Damages => rule.item_damages,
        RuleCondition::Physical => rule.item_damage_physical,
        RuleCondition::Fire => rule.item_damage_fire,
        RuleCondition::Poison => rule.item_damage_poison,
        RuleCondition::Storm => rule.item_damage_storm,
        RuleCondition::CritChance => rule.item_crit_chance,
        RuleCondition::CritDamage => rule.item_crit_damage,
        RuleCondition::Cooldown => rule.item_cooldown,
        RuleCondition::Armor => rule.item_armor,
        RuleCondition::Block => rule.item_block,
        _ => None,
    }
}

/// The item's quantity that the condition `c` reads: a weapon's damages,
/// critical hits and cooldown, an armor piece's armor and block; `None`
/// where the item is not of that kind.
pub open spec fn item_quantity(item: LootItem, c: RuleCondition) -> Option<Measure> {
    match c {
        RuleCondition::Damages => match item.weapon {
            Some(x) => Some(x.average_damages),
            None => None,
        },
        RuleCondition::Physical => match item.weapon {
            Some(x) => Some(x.average_physical),
            None => None,
        },
        RuleCondition::Fire => match item.weapon {
            Some(x) => Some(x.average_fire),
            None => None,
        },
        RuleCondition::Poison => match item.weapon {
            Some(x) => Some(x.average_poison),
            None => None,
        },
        RuleCondition::Storm => match item.weapon {
            Some(x) => Some(x.average_storm),
            None => None,
        },
        RuleCondition::CritChance => match item.weapon {
            Some(x) => Some(x.crit_chance),
            None => None,
        },
        RuleCondition::CritDamage => match item.weapon {
            Some(x) => Some(x.crit_damage),
            None => None,
        },
        RuleCondition::Cooldown => match item.weapon {
            Some(x) => Some(x.cooldown),
            None => None,
        },
        RuleCondition::Armor => match item.armor {
            Some(x) => Some(x.armor),
            None => None,
        },
        RuleCondition::Block => match item.armor {
            Some(x) => Some(x.block),
            None => None,
        },
        _ => None,
    }
}

/// Whether `rule` is enabled and sets no condition but (possibly) `c`.
pub open spec fn sets_only(rule: FilterRule, c: RuleCondition) -> bool {
    &&& rule.enabled
    &&& rule.item_name is None
    &&& forall|i: int| 0 <= i < rule.stat_filters@.len() ==> (#[trigger] rule.stat_filters@[i]) is None
    &&& (c != RuleCondition::Category ==> rule.item_category is None)
    &&& (c != RuleCondition::Rarity ==> rule.item_rarity is None)
    &&& (c != RuleCondition::Level ==> rule.item_level is None)
    &&& (c != RuleCondition::RequiredLevel ==> rule.req_item_level is None)
    &&& (c != RuleCondition::Damages ==> rule.item_damages is None)
    &&& (c != RuleCondition::Physical ==> rule.item_damage_physical is None)
    &&& (c != RuleCondition::Fire ==> rule.item_damage_fire is None)
    &&& (c != RuleCondition::Poison ==> rule.item_damage_poison is None)
    &&& (c != RuleCondition::Storm ==> rule.item_damage_storm is None)
    &&& (c != RuleCondition::CritChance ==> rule.item_crit_chance is None)
    &&& (c != RuleCondition::CritDamage ==> rule.item_crit_damage is None)
    &&& (c != RuleCondition::Cooldown ==> rule.item_cooldown is None)
    &&& (c != RuleCondition::Armor ==> rule.item_armor is None)
    &&& (c != RuleCondition::Block ==> rule.item_block is None)
}

/// A rule whose only condition is a bound on one of the item's
/// quantities decides by that quantity alone: it lets through the items
/// that have the quantity and whose quantity is not below the bound (for a
/// pickup rule) or not above it (for a sell rule); for the cooldown, where
/// lower is better, the other way round. Other quantities play no part.
pub proof fn law_single_bound_decides(rule: FilterRule, item: LootItem, c: RuleCondition, b: Measure)
    requires
        sets_only(rule, c),
        quantity_bound(rule, c) == Some(b),
    ensures
        rule_accepts(rule, item) <==> match item_quantity(item, c) {
            None => false,
            Some(v) => {
                let lower_is_better = c == RuleCondition::Cooldown;
                match (rule.rule_type, lower_is_better) {
                    (FilterRuleType::Pickup, false) | (FilterRuleType::Sell, true) => !less(v, b),
                    (FilterRuleType::Sell, false) | (FilterRuleType::Pickup, true) => !less(b, v),
                }
            },
        },
{
    reveal(conditions_hold);
}

/// A pickup rule whose only condition is a physical damage bound takes
/// every weapon whose average physical damage reaches the bound, whatever
/// its other damage types.
pub proof fn law_physical_bound_reads_physical_damage(rule: FilterRule, item: LootItem, b: i64, w: WeaponStats, p: i64)
    requires
        sets_only(rule, RuleCondition::Physical),
        rule.rule_type == FilterRuleType::Pickup,
        rule.item_damage_physical == Some(Measure::Number(b)),
        item.weapon == Some(w),
        w.average_physical == Measure::Number(p),
    ensures
        rule_accepts(rule, item) <==> p >= b,
{
    law_single_bound_decides(rule, item, RuleCondition::Physical, Measure::Number(b));
}

/// A rule whose only condition is a category lets through exactly the
/// items of that category.
pub proof fn law_category_decides(rule: FilterRule, item: LootItem, cat: u32)
    requires
        sets_only(rule, RuleCondition::Category),
        rule.item_category == Some(cat),
    ensures
        rule_accepts(rule, item) <==> item.categories@.contains(cat),
{
    reveal(conditions_hold);
}

/// A rule whose only condition is a rarity lets through, for a pickup
/// rule, the items at least that rare, and for a sell rule the items at
/// most that rare, in the order normal, magic, rare, unique.
pub proof fn law_rarity_decides(rule: FilterRule, item: LootItem, r: ItemRarity)
    requires
        sets_only(rule, RuleCondition::Rarity),
        rule.item_rarity == Some(r),
    ensures
        rarity_rank(ItemRarity::Normal) < rarity_rank(ItemRarity::Magic) < rarity_rank(ItemRarity::Rare)
            < rarity_rank(ItemRarity::Unique),
        rule.rule_type == FilterRuleType::Pickup ==> (rule_accepts(rule, item) <==> rarity_rank(item.rarity)
            >= rarity_rank(r)),
        rule.rule_type == FilterRuleType::Sell ==> (rule_accepts(rule, item) <==> rarity_rank(item.rarity)
            <= rarity_rank(r)),
{
    reveal(conditions_hold);
}

/// A rule whose only condition is an item level (or a required level) lets
/// through, for a pickup rule, the items at or above it, and for a sell
/// rule the items at or below it.
pub proof fn law_level_decides(rule: FilterRule, item: LootItem, c: RuleCondition, l: u16)
    requires
        c == RuleCondition::Level || c == RuleCondition::RequiredLevel,
        sets_only(rule, c),
        c == RuleCondition::Level ==> rule.item_level == Some(l),
        c == RuleCondition::RequiredLevel ==> rule.req_item_level == Some(l),
    ensures
        ({
            let level = if c == RuleCondition::Level { item.level } else { item.required_level };
            &&& rule.rule_type == FilterRuleType::Pickup ==> (rule_accepts(rule, item) <==> level >= l)
            &&& rule.rule_type == FilterRuleType::Sell ==> (rule_accepts(rule, item) <==> level <= l)
        }),
{
    reveal(conditions_hold);
}

} // verus!
