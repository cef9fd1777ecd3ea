use frontend::rewards::{
    end_grind_action, ends_without_confirmation, predicted_item_rewards_amount,
    quest_reward_expected, rewards_expected, stop_grind, RewardPicks, StopGrind,
};

#[test]
fn item_rewards_need_level_and_no_training() {
    assert_eq!(predicted_item_rewards_amount(10, false, 3, 10), 3);
    assert_eq!(predicted_item_rewards_amount(9, false, 3, 10), 0);
    assert_eq!(predicted_item_rewards_amount(50, true, 3, 10), 0);
}

#[test]
fn quest_reward() {
    assert!(quest_reward_expected(false, Some(20), 20));
    assert!(!quest_reward_expected(false, Some(21), 20));
    assert!(!quest_reward_expected(true, Some(5), 20));
    assert!(!quest_reward_expected(false, None, 20));
}

#[test]
fn any_reward_expected() {
    assert!(rewards_expected(15, false, 2, 10, true, None));
    assert!(rewards_expected(5, false, 2, 10, false, Some(5)));
    assert!(!rewards_expected(5, false, 2, 10, false, Some(6)));
    assert!(!rewards_expected(15, true, 2, 10, true, Some(1)));
}

#[test]
fn confirmation() {
    assert!(ends_without_confirmation(2, 2, None));
    assert!(ends_without_confirmation(0, 2, Some(true)));
    assert!(!ends_without_confirmation(1, 2, Some(false)));
    assert!(!ends_without_confirmation(1, 2, None));
}

#[test]
fn end_panel_button() {
    let a = end_grind_action(false, true);
    assert!(a.request_rewards && !a.terminate);
    let a = end_grind_action(true, false);
    assert!(!a.request_rewards && a.terminate);
}

#[test]
fn stopping_the_grind() {
    assert_eq!(stop_grind(true), StopGrind::EndQuestNow);
    assert_eq!(stop_grind(false), StopGrind::OpenEndPanel);
}

#[test]
fn picks_in_order_and_oldest_dropped() {
    let mut p = RewardPicks::new();
    p.pick(4, 2);
    p.pick(1, 2);
    assert_eq!(p.reward_picks(), vec![4, 1]);
    p.pick(7, 2);
    assert_eq!(p.reward_picks(), vec![1, 7]);
    assert_eq!(p.len(), 2);
    assert!(!p.contains(4));
}

#[test]
fn click_again_unpicks() {
    let mut p = RewardPicks::new();
    p.pick(4, 3);
    p.pick(5, 3);
    p.pick(6, 3);
    p.pick(5, 3);
    assert_eq!(p.reward_picks(), vec![4, 6]);
    assert!(!p.contains(5));
    p.clear();
    assert_eq!(p.len(), 0);
}

#[test]
fn single_pick_replaces() {
    let mut p = RewardPicks::new();
    p.pick(2, 1);
    p.pick(3, 1);
    assert_eq!(p.reward_picks(), vec![3]);
    assert!(p.contains(3));
}

#[test]
fn picks_cut_to_low_byte() {
    let mut p = RewardPicks::new();
    p.pick(300, 5);
    assert_eq!(p.reward_picks(), vec![44]);
}
