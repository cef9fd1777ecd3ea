use frontend::keys::Key;
use frontend::panels::{shard_level_exceeded, shortcut_panel, shows_power_shard_tip, SidePanel, SidePanels};

#[test]
fn toggling_opens_one_panel() {
    let mut p = SidePanels::new();
    p.toggle(SidePanel::Inventory);
    assert_eq!(p, SidePanels { inventory: true, passives: false, statistics: false });
    p.toggle(SidePanel::Statistics);
    assert_eq!(p, SidePanels { inventory: false, passives: false, statistics: true });
    p.toggle(SidePanel::Statistics);
    assert_eq!(p, SidePanels::new());
}

#[test]
fn toggle_twice_restores() {
    let mut p = SidePanels::new();
    p.toggle(SidePanel::Passives);
    p.toggle(SidePanel::Passives);
    assert_eq!(p, SidePanels::new());
}

#[test]
fn toggling_from_several_open() {
    let mut p = SidePanels { inventory: true, passives: true, statistics: true };
    p.toggle(SidePanel::Passives);
    assert_eq!(p, SidePanels::new());
}

#[test]
fn shortcuts() {
    assert_eq!(shortcut_panel(Key::Character('i')), Some(SidePanel::Inventory));
    assert_eq!(shortcut_panel(Key::Character('p')), Some(SidePanel::Passives));
    assert_eq!(shortcut_panel(Key::Character('s')), Some(SidePanel::Statistics));
    assert_eq!(shortcut_panel(Key::Character('x')), None);
    assert_eq!(shortcut_panel(Key::Escape), None);
}

#[test]
fn power_shard_tip() {
    assert!(shows_power_shard_tip(true, 0, 1));
    assert!(!shows_power_shard_tip(true, 1, 2));
    assert!(!shows_power_shard_tip(false, 0, 1));
    assert!(!shows_power_shard_tip(true, 0, 0));
}

#[test]
fn shard_level() {
    assert!(shard_level_exceeded(true, 11, 10));
    assert!(!shard_level_exceeded(true, 10, 10));
    assert!(!shard_level_exceeded(false, 11, 10));
}
