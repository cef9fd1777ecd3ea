//! The lines of an item's effect list that add flat damage: the added
//! minimum and maximum damage of one kind are merged into one line.

use vstd::prelude::*;
use crate::labels::{DamageType, EffectSkillType};
use crate::measure::Measure;

verus! {

/// The kind of damage that a flat damage effect adds to: the skills it
/// applies to (all where `None`) and the damage type (all where `None`).
pub type DamageKind = (Option<EffectSkillType>, Option<DamageType>);

/// An effect that adds flat minimum (`is_max` false) or maximum damage.
#[derive(Clone, Copy, Debug, PartialEq, Eq, Structural)]
pub struct FlatDamage {
    pub skill_type: Option<EffectSkillType>,
    pub damage_type: Option<DamageType>,
    pub is_max: bool,
    pub value: Measure,
}

/// A line of the effect list for one kind of added damage.
#[derive(Clone, Copy, Debug, PartialEq, Eq, Structural)]
pub enum DamageLine {
    /// "Adds min - max ... Damage ...".
    Range { skill_type: Option<EffectSkillType>, damage_type: Option<DamageType>, min: Measure, max: Measure },
    /// "Adds value Minimum ... Damage ...".
    Minimum { skill_type: Option<EffectSkillType>, damage_type: Option<DamageType>, value: Measure },
    /// "Adds value Maximum ... Damage ...".
    Maximum { skill_type: Option<EffectSkillType>, damage_type: Option<DamageType>, value: Measure },
}

/// The value of the last effect of `effects` that adds minimum (or, with
/// `is_max`, maximum) damage of the kind `kind`: later effects overwrite
/// earlier ones.
pub open spec fn last_value(effects: Seq<FlatDamage>, kind: DamageKind, is_max: bool) -> Option<Measure>
    decreases effects.len(),
{
    if effects.len() == 0 {
        None
    } else {
        let e = effects.last();
        if e.skill_type == kind.0 && e.damage_type == kind.1 && e.is_max == is_max {
            Some(e.value)
        } else {
            last_value(effects.drop_last(), kind, is_max)
        }
    }
}

/// The line for the kind `kind`, where some effect adds damage of it.
pub open spec fn line_for(effects: Seq<FlatDamage>, kind: DamageKind) -> Option<DamageLine> {
    match (last_value(effects, kind, false), last_value(effects, kind, true)) {
        (Some(min), Some(max)) => Some(DamageLine::Range { skill_type: kind.0, damage_type: kind.1, min, max }),
        (Some(min), None) => Some(DamageLine::Minimum { skill_type: kind.0, damage_type: kind.1, value: min }),
        (None, Some(max)) => Some(DamageLine::Maximum { skill_type: kind.0, damage_type: kind.1, value: max }),
        (None, None) => None,
    }
}

/// The kinds of damage in the order in which their lines are built: by
/// skills (attacks, spells, all), then by damage type (physical, fire,
/// poison, all).
pub open spec fn damage_kinds() -> Seq<DamageKind> {
    let skills = seq![Some(EffectSkillType::Attack), Some(EffectSkillType::Spell), None];
    let damages = seq![Some(DamageType::Physical), Some(DamageType::Fire), Some(DamageType::Poison), None];
    Seq::new(12, |i: int| (skills[i / 4], damages[i % 4]))
}

/// The lines for the first `n` kinds of `kinds`, in that order.
pub open spec fn lines_upto(effects: Seq<FlatDamage>, kinds: Seq<DamageKind>, n: int) -> Seq<DamageLine>
    decreases n,
{
    if n <= 0 {
        Seq::empty()
    } else {
        let before = lines_upto(effects, kinds, n - 1);
        match line_for(effects, kinds[n - 1]) {
            Some(l) => before.push(l),
            None => before,
        }
    }
}

fn last_flat_value(effects: &Vec<FlatDamage>, kind: DamageKind, is_max: bool) -> (r: Option<Measure>)
    ensures
        r == last_value(effects@, kind, is_max),
{
    let mut found: Option<Measure> = None;
    let mut i: usize = 0;
    while i < effects.len()
        invariant
            i <= effects@.len(),
            found == last_value(effects@.subrange(0, i as int), kind, is_max),
        decreases effects@.len() - i,
    {
        let e = effects[i];
        assert(effects@.subrange(0, i + 1).drop_last() =~= effects@.subrange(0, i as int));
        assert(effects@.subrange(0, i + 1).last() == e);
        if e.skill_type == kind.0 && e.damage_type == kind.1 && e.is_max == is_max {
            found = Some(e.value);
        }
        i = i + 1;
    }
    assert(effects@.subrange(0, effects@.len() as int) =~= effects@);
    found
}

/// The lines of added damage, given the flat damage effects in the order
/// in which the list goes through them: for each kind of damage (in the
/// order of `damage_kinds`), one line merging its minimum and maximum, or
/// the one of them that some effect adds, or no line.
pub fn merged_damage_lines(effects: &Vec<FlatDamage>) -> (lines: Vec<DamageLine>)
    ensures
        lines@ == lines_upto(effects@, damage_kinds(), 12),
{
    let mut kinds: Vec<DamageKind> = Vec::new();
    let mut s: usize = 0;
    while s < 3
        invariant
            s <= 3,
            kinds@.len() == 4 * s,
            forall|i: int| 0 <= i < kinds@.len() ==> kinds@[i] == damage_kinds()[i],
        decreases 3 - s,
    {
        let skill = if s == 0 {
            Some(EffectSkillType::Attack)
        } else if s == 1 {
            Some(EffectSkillType::Spell)
        } else {
            None
        };
        let ghost base = kinds@;
        kinds.push((skill, Some(DamageType::Physical)));
        kinds.push((skill, Some(DamageType::Fire)));
        kinds.push((skill, Some(DamageType::Poison)));
        kinds.push((skill, None));
        proof {
            assert forall|i: int| 0 <= i < kinds@.len() implies kinds@[i] == damage_kinds()[i] by {
                if i >= base.len() {
                    assert((i / 4) == s as int);
                    assert(i % 4 == i - 4 * s);
                }
            }
        }
        s = s + 1;
    }
    let mut lines: Vec<DamageLine> = Vec::new();
    let mut k: usize = 0;
    while k < kinds.len()
        invariant
            kinds@.len() == 12,
            forall|i: int| 0 <= i < 12 ==> kinds@[i] == damage_kinds()[i],
            k <= 12,
            lines@ == lines_upto(effects@, damage_kinds(), k as int),
        decreases 12 - k,
    {
        let kind = kinds[k];
        let min = last_flat_value(effects, kind, false);
        let max = last_flat_value(effects, kind, true);
        match (min, max) {
            (Some(lo), Some(hi)) => lines.push(
                DamageLine::Range { skill_type: kind.0, damage_type: kind.1, min: lo, max: hi },
            ),
            (Some(lo), None) => lines.push(
                DamageLine::Minimum { skill_type: kind.0, damage_type: kind.1, value: lo },
            ),
            (None, Some(hi)) => lines.push(
                DamageLine::Maximum { skill_type: kind.0, damage_type: kind.1, value: hi },
            ),
            (None, None) => {},
        }
        k = k + 1;
    }
    lines
}

/// The kind of damage of a line.
pub open spec fn line_kind(l: DamageLine) -> DamageKind {
    match l {
        DamageLine::Range { skill_type, damage_type, .. } => (skill_type, damage_type),
        DamageLine::Minimum { skill_type, damage_type, .. } => (skill_type, damage_type),
        DamageLine::Maximum { skill_type, damage_type, .. } => (skill_type, damage_type),
    }
}

/// Whether `e` adds minimum (or, with `is_max`, maximum) damage of `kind`.
pub open spec fn adds(e: FlatDamage, kind: DamageKind, is_max: bool) -> bool {
    e.skill_type == kind.0 && e.damage_type == kind.1 && e.is_max == is_max
}

proof fn lemma_last_value(effects: Seq<FlatDamage>, kind: DamageKind, is_max: bool)
    ensures
        last_value(effects, kind, is_max) is Some <==> exists|i: int|
            0 <= i < effects.len() && adds(#[trigger] effects[i], kind, is_max),
        last_value(effects, kind, is_max) matches Some(v) ==> exists|i: int|
            0 <= i < effects.len() && adds(#[trigger] effects[i], kind, is_max) && effects[i].value
                == v && forall|j: int| i < j < effects.len() ==> !adds(#[trigger] effects[j], kind, is_max),
    decreases effects.len(),
{
    if effects.len() > 0 {
        let rest = effects.drop_last();
        lemma_last_value(rest, kind, is_max);
        let n = effects.len() - 1;
        if adds(effects[n], kind, is_max) {
            assert(effects.last() == effects[n]);
        } else {
            assert forall|i: int| 0 <= i < rest.len() implies rest[i] == effects[i] by {}
            if exists|i: int| 0 <= i < effects.len() && adds(#[trigger] effects[i], kind, is_max) {
                let i = choose|i: int| 0 <= i < effects.len() && adds(#[trigger] effects[i], kind, is_max);
                assert(i < n);
                assert(adds(rest[i], kind, is_max));
            }
            match last_value(rest, kind, is_max) {
                Some(v) => {
                    let i = choose|i: int|
                        0 <= i < rest.len() && adds(#[trigger] rest[i], kind, is_max) && rest[i].value == v
                            && forall|j: int| i < j < rest.len() ==> !adds(#[trigger] rest[j], kind, is_max);
                    assert(effects[i] == rest[i]);
                    assert forall|j: int| i < j < effects.len() implies !adds(#[trigger] effects[j], kind, is_max) by {
                        if j < n {
                            assert(effects[j] == rest[j]);
                        }
                    }
                },
                None => {},
            }
        }
    }
}

proof fn lemma_lines_upto(effects: Seq<FlatDamage>, kinds: Seq<DamageKind>, n: int)
    requires
        0 <= n <= kinds.len(),
    ensures
        forall|i: int|
            0 <= i < n && (#[trigger] line_for(effects, kinds[i])) is Some ==> lines_upto(
                effects,
                kinds,
                n,
            ).contains(line_for(effects, kinds[i])->0),
        forall|j: int|
            0 <= j < lines_upto(effects, kinds, n).len() ==> exists|i: int|
                0 <= i < n && line_for(effects, kinds[i]) == Some(
                    #[trigger] lines_upto(effects, kinds, n)[j],
                ),
    decreases n,
{
    if n > 0 {
        lemma_lines_upto(effects, kinds, n - 1);
        let before = lines_upto(effects, kinds, n - 1);
        let now = lines_upto(effects, kinds, n);
        assert forall|i: int|
            0 <= i < n && (#[trigger] line_for(effects, kinds[i])) is Some implies now.contains(
            line_for(effects, kinds[i])->0,
        ) by {
            if i < n - 1 {
                let k = choose|k: int| 0 <= k < before.len() && before[k] == line_for(effects, kinds[i])->0;
                assert(now[k] == before[k]);
            } else {
                assert(now[now.len() - 1] == line_for(effects, kinds[i])->0);
            }
        }
        assert forall|j: int| 0 <= j < now.len() implies exists|i: int|
            0 <= i < n && line_for(effects, kinds[i]) == Some(#[trigger] now[j]) by {
            if j < before.len() {
                assert(now[j] == before[j]);
                let i = choose|i: int| 0 <= i < n - 1 && line_for(effects, kinds[i]) == Some(before[j]);
            } else {
                assert(line_for(effects, kinds[n - 1]) == Some(now[j]));
            }
        }
    }
}

/// The kinds of damage cover every pair of skills (attacks, spells, all)
/// and damage type (physical, fire, poison, all), each exactly once.
pub proof fn law_damage_kinds_cover_each_kind_once()
    ensures
        damage_kinds().len() == 12,
        damage_kinds().no_duplicates(),
        forall|k: DamageKind| damage_kinds().contains(k),
{
    let ks = damage_kinds();
    let a = Some(EffectSkillType::Attack);
    let sp = Some(EffectSkillType::Spell);
    let ph = Some(DamageType::Physical);
    let fi = Some(DamageType::Fire);
    let po = Some(DamageType::Poison);
    assert(ks[0] == (a, ph));
    assert(ks[1] == (a, fi));
    assert(ks[2] == (a, po));
    assert(ks[3] == (a, None::<DamageType>));
    assert(ks[4] == (sp, ph));
    assert(ks[5] == (sp, fi));
    assert(ks[6] == (sp, po));
    assert(ks[7] == (sp, None::<DamageType>));
    assert(ks[8] == (None::<EffectSkillType>, ph));
    assert(ks[9] == (None::<EffectSkillType>, fi));
    assert(ks[10] == (None::<EffectSkillType>, po));
    assert(ks[11] == (None::<EffectSkillType>, None::<DamageType>));
    assert forall|i: int, j: int| 0 <= i < ks.len() && 0 <= j < ks.len() && i != j implies ks[i]
        != ks[j] by {
        assert(0 <= i < 12 && 0 <= j < 12);
    }
    assert forall|k: DamageKind| ks.contains(k) by {
        let si: int = match k.0 {
            Some(EffectSkillType::Attack) => 0,
            Some(EffectSkillType::Spell) => 4,
            None => 8,
        };
        let di: int = match k.1 {
            Some(DamageType::Physical) => 0,
            Some(DamageType::Fire) => 1,
            Some(DamageType::Poison) => 2,
            None => 3,
        };
        assert(ks[si + di] == k);
    }
}

/// Every kind of damage that some effect adds gets a line, and that line
/// carries the value of the last effect adding the minimum and of the last
/// adding the maximum; every line is for a kind that some effect adds.
pub proof fn law_every_added_kind_gets_its_line(effects: Seq<FlatDamage>, kind: DamageKind)
    ensures
        (exists|i: int| 0 <= i < effects.len() && (#[trigger] effects[i]).skill_type == kind.0
            && effects[i].damage_type == kind.1) ==> exists|l: DamageLine|
            lines_upto(effects, damage_kinds(), 12).contains(l) && line_kind(l) == kind && match l {
                DamageLine::Range { min, max, .. } => last_value(effects, kind, false) == Some(min)
                    && last_value(effects, kind, true) == Some(max),
                DamageLine::Minimum { value, .. } => last_value(effects, kind, false) == Some(value)
                    && last_value(effects, kind, true) is None,
                DamageLine::Maximum { value, .. } => last_value(effects, kind, false) is None
                    && last_value(effects, kind, true) == Some(value),
            },
        forall|j: int|
            0 <= j < lines_upto(effects, damage_kinds(), 12).len() ==> exists|i: int|
                0 <= i < effects.len() && (#[trigger] effects[i]).skill_type == line_kind(
                    #[trigger] lines_upto(effects, damage_kinds(), 12)[j],
                ).0 && effects[i].damage_type == line_kind(lines_upto(effects, damage_kinds(), 12)[j]).1,
{
    law_damage_kinds_cover_each_kind_once();
    lemma_lines_upto(effects, damage_kinds(), 12);
    let lines = lines_upto(effects, damage_kinds(), 12);
    if exists|i: int| 0 <= i < effects.len() && (#[trigger] effects[i]).skill_type == kind.0
        && effects[i].damage_type == kind.1 {
        let i = choose|i: int| 0 <= i < effects.len() && (#[trigger] effects[i]).skill_type == kind.0
            && effects[i].damage_type == kind.1;
        lemma_last_value(effects, kind, false);
        lemma_last_value(effects, kind, true);
        assert(adds(effects[i], kind, effects[i].is_max));
        assert(line_for(effects, kind) is Some);
        assert(damage_kinds().contains(kind));
        let k = choose|k: int| 0 <= k < damage_kinds().len() && damage_kinds()[k] == kind;
        assert(line_for(effects, damage_kinds()[k]) is Some);
        let l = line_for(effects, kind)->0;
        assert(lines.contains(l));
        assert(line_kind(l) == kind);
    }
    assert forall|j: int| 0 <= j < lines.len() implies exists|i: int|
        0 <= i < effects.len() && (#[trigger] effects[i]).skill_type == line_kind(#[trigger] lines[j]).0
            && effects[i].damage_type == line_kind(lines[j]).1 by {
        let k = choose|k: int| 0 <= k < 12 && line_for(effects, damage_kinds()[k]) == Some(#[trigger] lines[j]);
        let kd = damage_kinds()[k];
        lemma_last_value(effects, kd, false);
        lemma_last_value(effects, kd, true);
        assert(line_kind(lines[j]) == kd);
        if last_value(effects, kd, false) is Some {
            let i = choose|i: int| 0 <= i < effects.len() && adds(#[trigger] effects[i], kd, false);
            assert(effects[i].skill_type == kd.0);
        } else {
            let i = choose|i: int| 0 <= i < effects.len() && adds(#[trigger] effects[i], kd, true);
            assert(effects[i].skill_type == kd.0);
        }
    }
}

} // verus!
