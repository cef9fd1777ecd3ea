use frontend::loot_filter::{FilterRule, FilterRuleType, ItemRarity, LootFilter, LootItem};
use frontend::loot_queue::{animation_style, loot_state, take_loot, AutoLooter, LootAction, LootState, QueuedLoot};

fn item(name: &str, rarity: ItemRarity) -> LootItem {
    LootItem {
        name: name.to_string(),
        categories: vec![],
        rarity,
        level: 1,
        required_level: 1,
        weapon: None,
        armor: None,
        global_effects: vec![],
    }
}

fn loot(id: u64, state: LootState, rarity: ItemRarity) -> QueuedLoot {
    QueuedLoot { identifier: id, state, item: item("Thing", rarity) }
}

fn states(q: &Vec<QueuedLoot>) -> Vec<LootState> {
    q.iter().map(|l| l.state).collect()
}

#[test]
fn taking_loot_marks_it() {
    let mut q = vec![loot(1, LootState::Normal, ItemRarity::Normal), loot(2, LootState::Normal, ItemRarity::Magic)];
    assert_eq!(take_loot(&mut q, 2, true), LootAction::Sell(2));
    assert_eq!(take_loot(&mut q, 1, false), LootAction::PickUp(1));
    assert_eq!(states(&q), vec![LootState::HasDisappeared, LootState::Sold]);
    assert_eq!(take_loot(&mut q, 9, false), LootAction::PickUp(9));
    assert_eq!(loot_state(&q, 2), LootState::Sold);
    assert_eq!(loot_state(&q, 9), LootState::Normal);
}

#[test]
fn animations() {
    assert_eq!(animation_style(LootState::Normal), "animation: loot-float 2.5s ease-in-out infinite;");
    assert_eq!(animation_style(LootState::WillDisappear), "animation: loot-vibrate 0.3s linear infinite;");
    assert_eq!(animation_style(LootState::Sold), "animation: loot-pickup 0.3s ease forwards; pointer-events: none;");
}

#[test]
fn auto_loot_follows_filter_once() {
    let mut filter = LootFilter::new();
    let mut sell = FilterRule::new(0);
    sell.rule_type = FilterRuleType::Sell;
    sell.item_rarity = Some(ItemRarity::Magic);
    filter.insert(1, sell);
    let mut pick = FilterRule::new(0);
    pick.item_rarity = Some(ItemRarity::Rare);
    filter.insert(2, pick);

    let mut looter = AutoLooter::new();
    let mut q = vec![
        loot(5, LootState::Normal, ItemRarity::Normal),
        loot(6, LootState::WillDisappear, ItemRarity::Normal),
        loot(7, LootState::WillDisappear, ItemRarity::Unique),
    ];
    // The first loot about to go matches the sell rule (Normal is within "at most Magic").
    assert_eq!(looter.step(&filter, &mut q), Some(LootAction::Sell(6)));
    assert_eq!(looter.last_try, 6);
    assert_eq!(states(&q), vec![LootState::Normal, LootState::Sold, LootState::WillDisappear]);
    // The Unique one passes the pickup rule (at least Rare).
    assert_eq!(looter.step(&filter, &mut q), Some(LootAction::PickUp(7)));
    assert_eq!(states(&q)[2], LootState::HasDisappeared);
    assert_eq!(looter.step(&filter, &mut q), None);
}

#[test]
fn auto_loot_without_decision_is_not_retried() {
    let filter = LootFilter::new();
    let mut looter = AutoLooter::new();
    let mut q = vec![loot(3, LootState::WillDisappear, ItemRarity::Rare)];
    assert_eq!(looter.step(&filter, &mut q), None);
    assert_eq!(looter.last_try, 3);
    assert_eq!(looter.step(&filter, &mut q), None);
    assert_eq!(states(&q), vec![LootState::WillDisappear]);
}
