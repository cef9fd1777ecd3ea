//! The game screen's side panels and the header's shortcuts.

use vstd::prelude::*;
use crate::keys::Key;

verus! {

/// Which of the three side panels (inventory, passive skills, statistics)
/// are open.
#[derive(Clone, Copy, Debug, PartialEq, Eq, Structural)]
pub struct SidePanels {
    pub inventory: bool,
    pub passives: bool,
    pub statistics: bool,
}

/// A side panel.
#[derive(Clone, Copy, Debug, PartialEq, Eq, Structural)]
pub enum SidePanel {
    Inventory,
    Passives,
    Statistics,
}

/// The panels after `panel` is toggled: it opens if it was closed and
/// closes if it was open; the two others close.
pub open spec fn toggled(panels: SidePanels, panel: SidePanel) -> SidePanels {
    match panel {
        SidePanel::Inventory => SidePanels { inventory: !panels.inventory, passives: false, statistics: false },
        SidePanel::Passives => SidePanels { inventory: false, passives: !panels.passives, statistics: false },
        SidePanel::Statistics => SidePanels { inventory: false, passives: false, statistics: !panels.statistics },
    }
}

/// How many of the side panels are open.
pub open spec fn open_count(p: SidePanels) -> int {
    (if p.inventory { 1int } else { 0 }) + (if p.passives { 1int } else { 0 }) + (if p.statistics {
        1int
    } else {
        0
    })
}

impl SidePanels {
    /// All closed.
    pub fn new() -> (p: Self)
        ensures
            !p.inventory && !p.passives && !p.statistics,
    {
        SidePanels { inventory: false, passives: false, statistics: false }
    }

    /// Toggles `panel` (see `toggled`).
    pub fn toggle(&mut self, panel: SidePanel)
        ensures
            *final(self) == toggled(*old(self), panel),
    {
        match panel {
            SidePanel::Inventory => {
                self.inventory = !self.inventory;
                self.statistics = false;
                self.passives = false;
            },
            SidePanel::Passives => {
                self.inventory = false;
                self.passives = !self.passives;
                self.statistics = false;
            },
            SidePanel::Statistics => {
                self.inventory = false;
                self.passives = false;
                self.statistics = !self.statistics;
            },
        }
    }
}

/// The panel that a key toggles: `i` the inventory, `p` the passive skills,
/// `s` the statistics.
pub fn shortcut_panel(key: Key) -> (panel: Option<SidePanel>)
    ensures
        panel == match key {
            Key::Character('i') => Some(SidePanel::Inventory),
            Key::Character('p') => Some(SidePanel::Passives),
            Key::Character('s') => Some(SidePanel::Statistics),
            _ => None,
        },
{
    match key {
        Key::Character('i') => Some(SidePanel::Inventory),
        Key::Character('p') => Some(SidePanel::Passives),
        Key::Character('s') => Some(SidePanel::Statistics),
        _ => None,
    }
}

/// Toggling a panel leaves at most one side panel open, whatever was open.
pub proof fn law_at_most_one_panel_open(panels: SidePanels, panel: SidePanel)
    ensures
        open_count(toggled(panels, panel)) <= 1,
{
}

/// Toggling the same panel twice from a state where only it may be open
/// gives that state back.
pub proof fn law_toggle_twice(panels: SidePanels, panel: SidePanel)
    requires
        match panel {
            SidePanel::Inventory => !panels.passives && !panels.statistics,
            SidePanel::Passives => !panels.inventory && !panels.statistics,
            SidePanel::Statistics => !panels.inventory && !panels.passives,
        },
    ensures
        toggled(toggled(panels, panel), panel) == panels,
{
}

/// Whether the tip about power shards appears: in the first area, the
/// first time the highest power shard level ever reached leaves zero.
pub fn shows_power_shard_tip(in_first_area: bool, previous_level: u16, level: u16) -> (b: bool)
    ensures
        b == (in_first_area && previous_level == 0 && level > 0),
{
    in_first_area && previous_level == 0 && level > 0
}

/// Whether the area's level is above what gives power shards, in an area
/// that gives shards at all.
pub fn shard_level_exceeded(can_reward_shards: bool, area_level: u16, max_power_shard_level: u16) -> (b: bool)
    ensures
        b == (can_reward_shards && area_level > max_power_shard_level),
{
    can_reward_shards && area_level > max_power_shard_level
}

} // verus!
