use frontend::loot_filter::{
    verify_filter_rule, ArmorStats, FilterRule, FilterRuleType, ItemRarity, LootFilter, LootItem,
    StatFilter, WeaponStats,
};
use frontend::measure::Measure;

fn n(v: i64) -> Measure {
    Measure::Number(v)
}

fn sword() -> LootItem {
    LootItem {
        name: "Rusty Long Sword".to_string(),
        categories: vec![1, 7],
        rarity: ItemRarity::Magic,
        level: 10,
        required_level: 8,
        weapon: Some(WeaponStats {
            average_damages: n(50),
            average_physical: n(40),
            average_fire: n(10),
            average_poison: n(0),
            average_storm: n(0),
            crit_chance: n(5),
            crit_damage: n(150),
            cooldown: n(20),
        }),
        armor: None,
        global_effects: vec![(3, n(12)), (4, n(0)), (5, Measure::NotANumber)],
    }
}

fn shield() -> LootItem {
    LootItem {
        name: "Oak Shield".to_string(),
        categories: vec![2],
        rarity: ItemRarity::Rare,
        level: 20,
        required_level: 15,
        weapon: None,
        armor: Some(ArmorStats { armor: n(30), block: n(10) }),
        global_effects: vec![],
    }
}

fn pickup() -> FilterRule {
    FilterRule::new(3)
}

fn sell() -> FilterRule {
    let mut r = FilterRule::new(3);
    r.rule_type = FilterRuleType::Sell;
    r
}

#[test]
fn new_rule_defaults() {
    let r = FilterRule::new(3);
    assert_eq!(r.rule_type, FilterRuleType::Pickup);
    assert_eq!(r.rule_name, "New Rule");
    assert!(r.enabled);
    assert_eq!(r.stat_filters, vec![None, None, None]);
    assert!(r.item_name.is_none() && r.item_damages.is_none() && r.item_rarity.is_none());
}

#[test]
fn rule_without_conditions_accepts_all() {
    assert!(verify_filter_rule(&pickup(), &sword()));
    assert!(verify_filter_rule(&sell(), &shield()));
}

#[test]
fn disabled_rule_accepts_all() {
    let mut r = pickup();
    r.item_name = Some("nothing like this".to_string());
    assert!(!verify_filter_rule(&r, &sword()));
    r.enabled = false;
    assert!(verify_filter_rule(&r, &sword()));
}

#[test]
fn name_matches_ignore_case() {
    let mut r = pickup();
    r.item_name = Some("long SWORD".to_string());
    assert!(verify_filter_rule(&r, &sword()));
    r.item_name = Some("axe".to_string());
    assert!(!verify_filter_rule(&r, &sword()));
}

#[test]
fn category_must_be_held() {
    let mut r = pickup();
    r.item_category = Some(7);
    assert!(verify_filter_rule(&r, &sword()));
    r.item_category = Some(2);
    assert!(!verify_filter_rule(&r, &sword()));
}

#[test]
fn rarity_bounds_by_rule_type() {
    let mut r = pickup();
    r.item_rarity = Some(ItemRarity::Magic);
    assert!(verify_filter_rule(&r, &sword()));
    assert!(verify_filter_rule(&r, &shield()));
    r.item_rarity = Some(ItemRarity::Rare);
    assert!(!verify_filter_rule(&r, &sword()));
    let mut s = sell();
    s.item_rarity = Some(ItemRarity::Magic);
    assert!(verify_filter_rule(&s, &sword()));
    assert!(!verify_filter_rule(&s, &shield()));
}

#[test]
fn level_bounds_by_rule_type() {
    let mut r = pickup();
    r.item_level = Some(10);
    assert!(verify_filter_rule(&r, &sword()));
    r.item_level = Some(11);
    assert!(!verify_filter_rule(&r, &sword()));
    let mut s = sell();
    s.req_item_level = Some(8);
    assert!(verify_filter_rule(&s, &sword()));
    assert!(!verify_filter_rule(&s, &shield()));
}

#[test]
fn weapon_bounds() {
    let mut r = pickup();
    r.item_damages = Some(n(50));
    assert!(verify_filter_rule(&r, &sword()));
    assert!(!verify_filter_rule(&r, &shield()));
    r.item_damages = Some(n(51));
    assert!(!verify_filter_rule(&r, &sword()));
    let mut s = sell();
    s.item_damage_fire = Some(n(9));
    assert!(!verify_filter_rule(&s, &sword()));
    s.item_damage_fire = Some(n(10));
    assert!(verify_filter_rule(&s, &sword()));
}

#[test]
fn cooldown_bound_is_reversed() {
    let mut r = pickup();
    r.item_cooldown = Some(n(25));
    assert!(verify_filter_rule(&r, &sword()));
    r.item_cooldown = Some(n(15));
    assert!(!verify_filter_rule(&r, &sword()));
    let mut s = sell();
    s.item_cooldown = Some(n(25));
    assert!(!verify_filter_rule(&s, &sword()));
}

#[test]
fn not_a_number_never_rejects() {
    let mut r = pickup();
    r.item_crit_chance = Some(Measure::NotANumber);
    assert!(verify_filter_rule(&r, &sword()));
}

#[test]
fn armor_bounds() {
    let mut r = pickup();
    r.item_block = Some(n(10));
    assert!(verify_filter_rule(&r, &shield()));
    assert!(!verify_filter_rule(&r, &sword()));
    r.item_armor = Some(n(31));
    assert!(!verify_filter_rule(&r, &shield()));
}

#[test]
fn stat_filters() {
    let mut r = pickup();
    r.stat_filters[0] = Some(StatFilter { stat: 3, value: None });
    assert!(verify_filter_rule(&r, &sword()));
    r.stat_filters[1] = Some(StatFilter { stat: 3, value: Some(n(12)) });
    assert!(verify_filter_rule(&r, &sword()));
    r.stat_filters[2] = Some(StatFilter { stat: 3, value: Some(n(13)) });
    assert!(!verify_filter_rule(&r, &sword()));
    let mut z = pickup();
    z.stat_filters[0] = Some(StatFilter { stat: 4, value: None });
    assert!(!verify_filter_rule(&z, &sword()));
    z.stat_filters[0] = Some(StatFilter { stat: 99, value: None });
    assert!(!verify_filter_rule(&z, &sword()));
    z.stat_filters[0] = Some(StatFilter { stat: 5, value: None });
    assert!(verify_filter_rule(&z, &sword()));
    z.stat_filters[0] = Some(StatFilter { stat: 5, value: Some(n(0)) });
    assert!(!verify_filter_rule(&z, &sword()));
    let mut s = sell();
    s.stat_filters[0] = Some(StatFilter { stat: 3, value: Some(n(12)) });
    assert!(verify_filter_rule(&s, &sword()));
    s.stat_filters[0] = Some(StatFilter { stat: 3, value: Some(n(11)) });
    assert!(!verify_filter_rule(&s, &sword()));
}

fn named(name: &str, kind: FilterRuleType) -> FilterRule {
    let mut r = FilterRule::new(0);
    r.rule_type = kind;
    r.item_name = Some(name.to_string());
    r
}

#[test]
fn first_enabled_matching_rule_decides() {
    let mut f = LootFilter::new();
    f.insert(1, named("shield", FilterRuleType::Sell));
    f.insert(2, named("sword", FilterRuleType::Sell));
    f.insert(3, named("", FilterRuleType::Pickup));
    assert_eq!(f.filter_loot(&sword()), Some(FilterRuleType::Sell));
    assert_eq!(f.filter_loot(&shield()), Some(FilterRuleType::Sell));
    f.set_enabled(2, false);
    assert_eq!(f.filter_loot(&sword()), Some(FilterRuleType::Pickup));
    f.remove(3);
    assert_eq!(f.filter_loot(&sword()), None);
}

#[test]
fn empty_filter_decides_nothing() {
    let f = LootFilter::new();
    assert_eq!(f.filter_loot(&sword()), None);
    assert_eq!(f.len(), 0);
}

#[test]
fn disabled_rules_are_ignored() {
    let mut f = LootFilter::new();
    let mut r = named("", FilterRuleType::Sell);
    r.enabled = false;
    f.insert(10, r);
    f.insert(11, named("sword", FilterRuleType::Pickup));
    assert_eq!(f.filter_loot(&sword()), Some(FilterRuleType::Pickup));
    f.remove(10);
    assert_eq!(f.filter_loot(&sword()), Some(FilterRuleType::Pickup));
}

#[test]
fn rules_move_and_restore() {
    let mut f = LootFilter::new();
    f.insert(1, named("a", FilterRuleType::Pickup));
    f.insert(2, named("b", FilterRuleType::Pickup));
    f.insert(3, named("c", FilterRuleType::Pickup));
    f.move_up(3);
    assert_eq!(f.rule_ids(), vec![1, 3, 2]);
    f.move_down(3);
    assert_eq!(f.rule_ids(), vec![1, 2, 3]);
    f.move_up(1);
    assert_eq!(f.rule_ids(), vec![1, 2, 3]);
    f.move_down(3);
    assert_eq!(f.rule_ids(), vec![1, 2, 3]);
    f.move_down(1);
    f.move_up(1);
    assert_eq!(f.rule_ids(), vec![1, 2, 3]);
    f.move_up(77);
    assert_eq!(f.rule_ids(), vec![1, 2, 3]);
}

#[test]
fn insert_replaces_in_place() {
    let mut f = LootFilter::new();
    f.insert(1, named("a", FilterRuleType::Pickup));
    f.insert(2, named("b", FilterRuleType::Pickup));
    f.insert(1, named("z", FilterRuleType::Sell));
    assert_eq!(f.rule_ids(), vec![1, 2]);
    assert_eq!(f.get(1).unwrap().item_name.as_deref(), Some("z"));
    assert_eq!(f.get(1).unwrap().rule_type, FilterRuleType::Sell);
    assert!(f.get(3).is_none());
}

#[test]
fn selection_edits() {
    let mut f = LootFilter::new();
    let selected = f.add_new_rule(5, 2);
    assert_eq!(selected, Some(5));
    assert_eq!(f.selected_rule(selected).unwrap().rule_name, "New Rule");
    assert!(f.selected_rule(None).is_none());
    let mut edited = FilterRule::new(2);
    edited.rule_name = "Sell junk".to_string();
    f.update_selected_rule(selected, edited);
    assert_eq!(f.get(5).unwrap().rule_name, "Sell junk");
    f.update_selected_rule(Some(6), FilterRule::new(0));
    assert_eq!(f.len(), 1);
    let after = f.delete_selected_rule(selected);
    assert_eq!(after, None);
    assert_eq!(f.len(), 0);
}

#[test]
fn rule_at_positions() {
    let mut f = LootFilter::new();
    f.insert(8, named("a", FilterRuleType::Pickup));
    let (id, rule) = f.rule_at(0).unwrap();
    assert_eq!(*id, 8);
    assert_eq!(rule.item_name.as_deref(), Some("a"));
    assert!(f.rule_at(1).is_none());
}

#[test]
fn stat_filter_editing() {
    let mut r = FilterRule::new(3);
    r.set_stat_filter(1, Some(7), Some(Measure::Number(4)));
    assert_eq!(r.stat_filters, vec![None, Some(StatFilter { stat: 7, value: Some(Measure::Number(4)) }), None]);
    r.set_stat_filter(1, None, Some(Measure::Number(4)));
    assert_eq!(r.stat_filters, vec![None, None, None]);
    assert_eq!(r.rule_name, "New Rule");
}

#[test]
fn new_rule_added_without_conditions() {
    let mut f = LootFilter::new();
    assert_eq!(f.add_new_rule(5, 2), Some(5));
    let r = f.get(5).unwrap();
    assert_eq!(r.rule_type, FilterRuleType::Pickup);
    assert!(r.enabled);
    assert!(r.item_level.is_none() && r.item_name.is_none() && r.item_rarity.is_none() && r.item_damages.is_none());
    assert_eq!(r.stat_filters, vec![None, None]);
}
