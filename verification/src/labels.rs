//! The words and colour classes with which the tooltips and panels name
//! damage types, skill types, rarities and stats.

use vstd::prelude::*;
use vstd::string::*;
use crate::loot_filter::ItemRarity;
use crate::backend::concat;

verus! {

/// A type of damage.
#[derive(Clone, Copy, Debug, PartialEq, Eq, Structural)]
pub enum DamageType {
    Physical,
    Fire,
    Poison,
}

/// The kind of skill that an effect applies to.
#[derive(Clone, Copy, Debug, PartialEq, Eq, Structural)]
pub enum EffectSkillType {
    Attack,
    Spell,
}

/// Where an affix's effect applies.
#[derive(Clone, Copy, Debug, PartialEq, Eq, Structural)]
pub enum AffixEffectScope {
    Local,
    Global,
}

/// The name of a damage type.
pub fn damage_type_str(damage_type: DamageType) -> (s: &'static str)
    ensures
        s@ == match damage_type {
            DamageType::Physical => "Physical"@,
            DamageType::Fire => "Fire"@,
            DamageType::Poison => "Poison"@,
        },
{
    match damage_type {
        DamageType::Physical => "Physical",
        DamageType::Fire => "Fire",
        DamageType::Poison => "Poison",
    }
}

/// The word that qualifies a stat by damage type, with its space.
pub open spec fn damage_prefix(damage_type: Option<DamageType>) -> Seq<char> {
    match damage_type {
        Some(DamageType::Physical) => "Physical "@,
        Some(DamageType::Fire) => "Fire "@,
        Some(DamageType::Poison) => "Poison "@,
        None => ""@,
    }
}

/// The word that qualifies a stat by damage type, with its space.
pub fn optional_damage_type_str(damage_type: Option<DamageType>) -> (s: &'static str)
    ensures
        s@ == damage_prefix(damage_type),
{
    match damage_type {
        Some(DamageType::Physical) => "Physical ",
        Some(DamageType::Fire) => "Fire ",
        Some(DamageType::Poison) => "Poison ",
        None => "",
    }
}

/// The word that qualifies a stat by skill type, with its space.
pub open spec fn skill_prefix(skill_type: Option<EffectSkillType>) -> Seq<char> {
    match skill_type {
        Some(EffectSkillType::Attack) => "Attack "@,
        Some(EffectSkillType::Spell) => "Spell "@,
        None => ""@,
    }
}

/// The word that qualifies a stat by skill type, with its space.
pub fn skill_type_str(skill_type: Option<EffectSkillType>) -> (s: &'static str)
    ensures
        s@ == skill_prefix(skill_type),
{
    match skill_type {
        Some(EffectSkillType::Attack) => "Attack ",
        Some(EffectSkillType::Spell) => "Spell ",
        None => "",
    }
}

/// The words that restrict a bonus to a skill type.
pub open spec fn skill_suffix(skill_type: Option<EffectSkillType>) -> Seq<char> {
    match skill_type {
        Some(EffectSkillType::Attack) => " to Attacks"@,
        Some(EffectSkillType::Spell) => " to Spells"@,
        None => ""@,
    }
}

/// The words that restrict a bonus to a skill type.
pub fn to_skill_type_str(skill_type: Option<EffectSkillType>) -> (s: &'static str)
    ensures
        s@ == skill_suffix(skill_type),
{
    match skill_type {
        Some(EffectSkillType::Attack) => " to Attacks",
        Some(EffectSkillType::Spell) => " to Spells",
        None => "",
    }
}

/// The word for an effect's scope, with its space.
pub fn scope_str(scope: AffixEffectScope) -> (s: &'static str)
    ensures
        s@ == match scope {
            AffixEffectScope::Local => ""@,
            AffixEffectScope::Global => "Global "@,
        },
{
    match scope {
        AffixEffectScope::Local => "",
        AffixEffectScope::Global => "Global ",
    }
}

/// The colour class of an item's name, by rarity.
pub fn name_color_rarity(item_rarity: ItemRarity) -> (s: &'static str)
    ensures
        s@ == match item_rarity {
            ItemRarity::Normal => "text-white"@,
            ItemRarity::Magic => "text-blue-400"@,
            ItemRarity::Rare => "text-yellow-400"@,
            ItemRarity::Unique => "text-amber-700"@,
        },
{
    match item_rarity {
        ItemRarity::Normal => "text-white",
        ItemRarity::Magic => "text-blue-400",
        ItemRarity::Rare => "text-yellow-400",
        ItemRarity::Unique => "text-amber-700",
    }
}

/// The kinds of skills that the skill shop sorts skills into.
#[derive(Clone, Copy, Debug, PartialEq, Eq, Structural)]
pub enum SkillType {
    Attack,
    Spell,
    Curse,
    Blessing,
    Other,
}

/// The title of a section of the skill shop.
pub fn skill_type_title(skill_type: SkillType) -> (s: &'static str)
    ensures
        s@ == match skill_type {
            SkillType::Attack => "Attacks"@,
            SkillType::Spell => "Spells"@,
            SkillType::Curse => "Curses"@,
            SkillType::Blessing => "Blessings"@,
            SkillType::Other => "Others"@,
        },
{
    match skill_type {
        SkillType::Attack => "Attacks",
        SkillType::Spell => "Spells",
        SkillType::Curse => "Curses",
        SkillType::Blessing => "Blessings",
        SkillType::Other => "Others",
    }
}

/// The colour class of a section title of the skill shop.
pub fn skill_type_title_color(skill_type: SkillType) -> (s: &'static str)
    ensures
        s@ == match skill_type {
            SkillType::Attack => "text-red-300"@,
            SkillType::Spell => "text-sky-300"@,
            SkillType::Curse => "text-purple-300"@,
            SkillType::Blessing => "text-amber-200"@,
            SkillType::Other => "text-slate-300"@,
        },
{
    match skill_type {
        SkillType::Attack => "text-red-300",
        SkillType::Spell => "text-sky-300",
        SkillType::Curse => "text-purple-300",
        SkillType::Blessing => "text-amber-200",
        SkillType::Other => "text-slate-300",
    }
}

/// The glow class of a skill card, by skill type.
pub fn skill_type_glow(skill_type: SkillType) -> (s: &'static str)
    ensures
        s@ == match skill_type {
            SkillType::Attack => "via-red-400/70"@,
            SkillType::Spell => "via-sky-400/70"@,
            SkillType::Curse => "via-purple-400/70"@,
            SkillType::Blessing => "via-amber-300/75"@,
            SkillType::Other => "via-slate-300/60"@,
        },
{
    match skill_type {
        SkillType::Attack => "via-red-400/70",
        SkillType::Spell => "via-sky-400/70",
        SkillType::Curse => "via-purple-400/70",
        SkillType::Blessing => "via-amber-300/75",
        SkillType::Other => "via-slate-300/60",
    }
}

/// The top glow class of a skill card, by skill type.
pub fn skill_type_top_glow(skill_type: SkillType) -> (s: &'static str)
    ensures
        s@ == match skill_type {
            SkillType::Attack => "via-red-400/40"@,
            SkillType::Spell => "via-sky-400/40"@,
            SkillType::Curse => "via-purple-400/40"@,
            SkillType::Blessing => "via-amber-300/40"@,
            SkillType::Other => "via-slate-300/40"@,
        },
{
    match skill_type {
        SkillType::Attack => "via-red-400/40",
        SkillType::Spell => "via-sky-400/40",
        SkillType::Curse => "via-purple-400/40",
        SkillType::Blessing => "via-amber-300/40",
        SkillType::Other => "via-slate-300/40",
    }
}

/// What triggers a gain on hit.
#[derive(Clone, Copy, Debug, PartialEq, Eq, Structural)]
pub struct HitTrigger {
    pub skill_type: Option<EffectSkillType>,
}

/// A stat that affixes and passives change.
#[derive(Clone, Copy, Debug, PartialEq, Eq, Structural)]
pub enum StatType {
    Life,
    LifeRegen,
    Mana,
    ManaRegen,
    Armor(DamageType),
    TakeFromManaBeforeLife,
    Block,
    Damage { skill_type: Option<EffectSkillType>, damage_type: Option<DamageType> },
    MinDamage { skill_type: Option<EffectSkillType>, damage_type: Option<DamageType> },
    MaxDamage { skill_type: Option<EffectSkillType>, damage_type: Option<DamageType> },
    SpellPower,
    CritChances(Option<EffectSkillType>),
    CritDamage(Option<EffectSkillType>),
    Speed(Option<EffectSkillType>),
    MovementSpeed,
    GoldFind,
    LifeOnHit(HitTrigger),
    ManaOnHit(HitTrigger),
    DamageResistance { skill_type: Option<EffectSkillType>, damage_type: Option<DamageType> },
}

/// The name of a stat after a percentage that increases it.
pub open spec fn multiplier_stat_name(stat: StatType) -> Seq<char> {
    match stat {
        StatType::Life => "Maximum Life"@,
        StatType::LifeRegen => "Life Regeneration"@,
        StatType::Mana => "Maximum Mana"@,
        StatType::ManaRegen => "Mana Regeneration"@,
        StatType::Armor(DamageType::Physical) => "Armor"@,
        StatType::Armor(d) => damage_prefix(Some(d)) + "Resistance"@,
        StatType::TakeFromManaBeforeLife => "Damage taken from Mana before Life"@,
        StatType::Block => "Block Chances"@,
        StatType::Damage { skill_type, damage_type } => damage_prefix(damage_type) + skill_prefix(
            skill_type,
        ) + "Damage"@,
        StatType::MinDamage { skill_type, damage_type } => damage_prefix(damage_type)
            + skill_prefix(skill_type) + "Minimum Damage"@,
        StatType::MaxDamage { skill_type, damage_type } => damage_prefix(damage_type)
            + skill_prefix(skill_type) + "Maximum Damage"@,
        StatType::SpellPower => "Spell Power"@,
        StatType::CritChances(s) => skill_prefix(s) + "Critical Hit Chances"@,
        StatType::CritDamage(s) => skill_prefix(s) + "Critical Hit Damages"@,
        StatType::Speed(s) => skill_prefix(s) + "Speed"@,
        StatType::MovementSpeed => "Movement Speed"@,
        StatType::GoldFind => "Gold Find"@,
        StatType::LifeOnHit(t) => "Life gained on "@ + skill_prefix(t.skill_type) + "Hit"@,
        StatType::ManaOnHit(t) => "Mana gained on "@ + skill_prefix(t.skill_type) + "Hit"@,
        StatType::DamageResistance { skill_type, damage_type } => damage_prefix(damage_type)
            + skill_prefix(skill_type) + "Damage Resistance"@,
    }
}

fn join(a: &str, b: &str, c: &str) -> (r: String)
    ensures
        r@ == a@ + b@ + c@,
{
    let mut r = String::from_str(a);
    r.append(b);
    r.append(c);
    r
}

/// The name of a stat after a percentage that increases it.
pub fn format_multiplier_stat_name(stat: StatType) -> (name: String)
    ensures
        name@ == multiplier_stat_name(stat),
{
    match stat {
        StatType::Life => String::from_str("Maximum Life"),
        StatType::LifeRegen => String::from_str("Life Regeneration"),
        StatType::Mana => String::from_str("Maximum Mana"),
        StatType::ManaRegen => String::from_str("Mana Regeneration"),
        StatType::Armor(DamageType::Physical) => String::from_str("Armor"),
        StatType::Armor(d) => concat(optional_damage_type_str(Some(d)), "Resistance"),
        StatType::TakeFromManaBeforeLife => String::from_str("Damage taken from Mana before Life"),
        StatType::Block => String::from_str("Block Chances"),
        StatType::Damage { skill_type, damage_type } => join(
            optional_damage_type_str(damage_type),
            skill_type_str(skill_type),
            "Damage",
        ),
        StatType::MinDamage { skill_type, damage_type } => join(
            optional_damage_type_str(damage_type),
            skill_type_str(skill_type),
            "Minimum Damage",
        ),
        StatType::MaxDamage { skill_type, damage_type } => join(
            optional_damage_type_str(damage_type),
            skill_type_str(skill_type),
            "Maximum Damage",
        ),
        StatType::SpellPower => String::from_str("Spell Power"),
        StatType::CritChances(s) => concat(skill_type_str(s), "Critical Hit Chances"),
        StatType::CritDamage(s) => concat(skill_type_str(s), "Critical Hit Damages"),
        StatType::Speed(s) => concat(skill_type_str(s), "Speed"),
        StatType::MovementSpeed => String::from_str("Movement Speed"),
        StatType::GoldFind => String::from_str("Gold Find"),
        StatType::LifeOnHit(t) => join("Life gained on ", skill_type_str(t.skill_type), "Hit"),
        StatType::ManaOnHit(t) => join("Mana gained on ", skill_type_str(t.skill_type), "Hit"),
        StatType::DamageResistance { skill_type, damage_type } => join(
            optional_damage_type_str(damage_type),
            skill_type_str(skill_type),
            "Damage Resistance",
        ),
    }
}

/// The name of a kind of hit damage: its damage type, its skill type and
/// the words "Hit Damage".
pub fn format_hit_damage_kind(damage_type: DamageType, skill_type: EffectSkillType) -> (s: String)
    ensures
        s@ == damage_prefix(Some(damage_type)) + skill_prefix(Some(skill_type)) + "Hit Damage"@,
{
    join(optional_damage_type_str(Some(damage_type)), skill_type_str(Some(skill_type)), "Hit Damage")
}

} // verus!
