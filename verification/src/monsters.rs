//! The monsters' cards: how a card is laid out for a monster's size and
//! rarity, which defensive tags it shows, and how the life it loses is
//! shown as damage numbers.

use vstd::prelude::*;
use crate::measure::{less, Measure};

verus! {

/// The size of a character on the battle grid.
#[derive(Clone, Copy, Debug, PartialEq, Eq, Structural)]
pub enum CharacterSize {
    Small,
    Large,
    Tall,
    Huge,
    Gargantuan,
}

/// How rare a monster is.
#[derive(Clone, Copy, Debug, PartialEq, Eq, Structural)]
pub enum MonsterRarity {
    Normal,
    Champion,
    Boss,
}

/// Whether a monster of this size gets the big life bar.
pub fn is_big(size: CharacterSize) -> (b: bool)
    ensures
        b == (size == CharacterSize::Huge || size == CharacterSize::Gargantuan),
{
    match size {
        CharacterSize::Small | CharacterSize::Large | CharacterSize::Tall => false,
        CharacterSize::Huge | CharacterSize::Gargantuan => true,
    }
}

/// The height classes of a monster's life bar.
pub fn life_bar_class(big: bool) -> (s: &'static str)
    ensures
        s@ == if big { "h-6 xl:h-10"@ } else { "h-4 xl:h-7"@ },
{
    if big {
        "h-6 xl:h-10"
    } else {
        "h-4 xl:h-7"
    }
}

/// The grid class of a monster's tags: three columns for small and tall
/// monsters, six for the others.
pub fn tags_grid_class(size: CharacterSize) -> (s: &'static str)
    ensures
        s@ == if size == CharacterSize::Small || size == CharacterSize::Tall {
            "grid-cols-3"@
        } else {
            "grid-cols-6"@
        },
{
    match size {
        CharacterSize::Small | CharacterSize::Tall => "grid-cols-3",
        CharacterSize::Large | CharacterSize::Huge | CharacterSize::Gargantuan => "grid-cols-6",
    }
}

/// The style of a monster's name.
pub fn title_style(rarity: MonsterRarity) -> (s: &'static str)
    ensures
        s@ == match rarity {
            MonsterRarity::Normal => ""@,
            MonsterRarity::Champion => "champion-title"@,
            MonsterRarity::Boss => "boss-title xl:text-base font-display"@,
        },
{
    match rarity {
        MonsterRarity::Normal => "",
        MonsterRarity::Champion => "champion-title",
        MonsterRarity::Boss => "boss-title xl:text-base font-display",
    }
}

/// The width of a monster's skills column: full for monsters one cell
/// wide, half for wider ones.
pub fn skills_width_class(x_size: usize) -> (s: &'static str)
    ensures
        s@ == if x_size == 1 { "w-full"@ } else { "w-1/2"@ },
{
    if x_size == 1 {
        "w-full"
    } else {
        "w-1/2"
    }
}

/// Whether a quantity is above zero.
pub open spec fn positive(value: Measure) -> bool {
    less(Measure::Number(0), value)
}

/// The entries whose value is above zero, in their order.
pub open spec fn positive_entries<K>(entries: Seq<(K, Measure)>) -> Seq<(K, Measure)>
    decreases entries.len(),
{
    if entries.len() == 0 {
        Seq::empty()
    } else {
        let kept = positive_entries(entries.drop_last());
        if positive(entries.last().1) {
            kept.push(entries.last())
        } else {
            kept
        }
    }
}

/// The entries of a tag's tooltip: those whose value is above zero, in
/// their order (a monster shows the tag when any is left).
pub fn positive_values<K: Copy>(entries: &Vec<(K, Measure)>) -> (kept: Vec<(K, Measure)>)
    ensures
        kept@ == positive_entries(entries@),
{
    let mut kept: Vec<(K, Measure)> = Vec::new();
    let mut i: usize = 0;
    while i < entries.len()
        invariant
            i <= entries@.len(),
            kept@ == positive_entries(entries@.subrange(0, i as int)),
        decreases entries@.len() - i,
    {
        let (key, value) = entries[i];
        assert(entries@.subrange(0, i + 1).drop_last() =~= entries@.subrange(0, i as int));
        assert(entries@.subrange(0, i + 1).last() == entries@[i as int]);
        if Measure::Number(0).lt(&value) {
            kept.push((key, value));
        }
        i = i + 1;
    }
    assert(entries@.subrange(0, entries@.len() as int) =~= entries@);
    kept
}

/// Whether two quantities are equal numbers.
pub open spec fn same_number(a: Measure, b: Measure) -> bool {
    a is Number && a == b
}

/// Whether a status's resistances are shown as one line: every skill type
/// (`skill_type_count` of them) has one, and they are all equal.
pub open spec fn resistances_collapse(values: Seq<Measure>, skill_type_count: nat) -> bool {
    values.len() == skill_type_count && forall|i: int|
        0 <= i < values.len() - 1 ==> same_number(#[trigger] values[i], values[i + 1])
}

/// Whether a status's resistances, ordered by skill type, are shown as one
/// line (see `resistances_collapse`).
pub fn collapses(values: &Vec<Measure>, skill_type_count: usize) -> (b: bool)
    ensures
        b == resistances_collapse(values@, skill_type_count as nat),
{
    if values.len() != skill_type_count {
        return false;
    }
    let mut i: usize = 0;
    while i < values.len() && i + 1 < values.len()
        invariant
            i <= values@.len(),
            values@.len() == skill_type_count,
            forall|j: int| 0 <= j < i ==> same_number(#[trigger] values@[j], values@[j + 1]),
        decreases values@.len() - i,
    {
        let a = values[i];
        let b = values[i + 1];
        let equal = match (a, b) {
            (Measure::Number(x), Measure::Number(y)) => x == y,
            _ => false,
        };
        if !equal {
            assert(!same_number(values@[i as int], values@[i + 1]));
            return false;
        }
        i = i + 1;
    }
    true
}

/// What to show when a monster's life changed.
#[derive(Clone, Copy, Debug, PartialEq, Eq, Structural)]
pub enum TickAction {
    /// Nothing: the monster lost no life.
    Nothing,
    /// A new damage number for a hit, with this identifier.
    Hit(u64),
    /// The loss is added to the damage number of the damage over time
    /// that is being gathered.
    AddToDot(u64),
    /// A new damage number that gathers damage over time, with this
    /// identifier.
    Dot(u64),
}

/// The damage numbers of a monster's card: the identifier of the next one,
/// and the one gathering damage over time, if any.
pub struct DamageTicks {
    next_id: u64,
    dot_tick: Option<u64>,
}

/// The state of a card's damage numbers.
pub struct DamageTicksView {
    pub next_id: u64,
    pub dot_tick: Option<u64>,
}

impl View for DamageTicks {
    type V = DamageTicksView;

    closed spec fn view(&self) -> DamageTicksView {
        DamageTicksView { next_id: self.next_id, dot_tick: self.dot_tick }
    }
}

/// Whether a life change of a monster takes a new identifier.
pub open spec fn takes_new_id(s: DamageTicksView, life_lost: bool, just_hurt: bool) -> bool {
    life_lost && (just_hurt || s.dot_tick is None)
}

/// What a life change shows, and the damage numbers' state after it: a
/// hit gets a damage number of its own; another loss joins the damage
/// number gathering damage over time, or starts one.
pub open spec fn tick_step(s: DamageTicksView, life_lost: bool, just_hurt: bool) -> (TickAction, DamageTicksView) {
    if !life_lost {
        (TickAction::Nothing, s)
    } else if just_hurt {
        (TickAction::Hit(s.next_id), DamageTicksView { next_id: (s.next_id + 1) as u64, ..s })
    } else {
        match s.dot_tick {
            Some(id) => (TickAction::AddToDot(id), s),
            None => (
                TickAction::Dot(s.next_id),
                DamageTicksView { next_id: (s.next_id + 1) as u64, dot_tick: Some(s.next_id) },
            ),
        }
    }
}

impl DamageTicks {
    /// No damage number yet.
    pub fn new() -> (t: Self)
        ensures
            t@.next_id == 0,
            t@.dot_tick is None,
    {
        DamageTicks { next_id: 0, dot_tick: None }
    }

    /// The monster's life changed; `life_lost` when it went down, and
    /// `just_hurt` when a hit did it. A hit gets a damage number of its
    /// own; other losses gather in one damage number until it ends.
    pub fn on_life_change(&mut self, life_lost: bool, just_hurt: bool) -> (action: TickAction)
        requires
            takes_new_id(old(self)@, life_lost, just_hurt) ==> old(self)@.next_id < u64::MAX,
        ensures
            (action, final(self)@) == tick_step(old(self)@, life_lost, just_hurt),
    {
        if !life_lost {
            return TickAction::Nothing;
        }
        if just_hurt {
            let id = self.next_id;
            self.next_id = self.next_id + 1;
            TickAction::Hit(id)
        } else {
            match self.dot_tick {
                Some(id) => TickAction::AddToDot(id),
                None => {
                    let id = self.next_id;
                    self.next_id = self.next_id + 1;
                    self.dot_tick = Some(id);
                    TickAction::Dot(id)
                },
            }
        }
    }

    /// The damage over time being gathered is shown as it stands; the next
    /// loss that no hit caused starts a new damage number.
    pub fn dot_ended(&mut self)
        ensures
            final(self)@.next_id == old(self)@.next_id,
            final(self)@.dot_tick is None,
    {
        self.dot_tick = None;
    }
}

/// While damage over time is being gathered, every loss that no hit
/// caused joins it and changes nothing else.
pub proof fn law_dot_gathers_losses(s: DamageTicksView, id: u64)
    requires
        s.dot_tick == Some(id),
    ensures
        tick_step(s, true, false) == (TickAction::AddToDot(id), s),
{
}

/// A new damage number never takes an identifier that was handed out
/// before: it takes the next one, and the next one then moves past it.
pub proof fn law_new_ids_are_fresh(s: DamageTicksView, life_lost: bool, just_hurt: bool)
    requires
        s.next_id < u64::MAX,
    ensures
        match tick_step(s, life_lost, just_hurt).0 {
            TickAction::Hit(id) => id == s.next_id && tick_step(s, life_lost, just_hurt).1.next_id > id,
            TickAction::Dot(id) => id == s.next_id && tick_step(s, life_lost, just_hurt).1.next_id > id,
            _ => tick_step(s, life_lost, just_hurt).1.next_id == s.next_id,
        },
{
}

/// A life change that loses nothing shows nothing and changes nothing.
pub proof fn law_no_loss_no_tick(s: DamageTicksView, just_hurt: bool)
    ensures
        tick_step(s, false, just_hurt) == (TickAction::Nothing, s),
{
}

} // verus!
