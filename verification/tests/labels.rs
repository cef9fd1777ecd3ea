use frontend::labels::{
    damage_type_str, format_hit_damage_kind, format_multiplier_stat_name, name_color_rarity,
    optional_damage_type_str, scope_str, skill_type_glow, skill_type_str, skill_type_title,
    skill_type_title_color, skill_type_top_glow, to_skill_type_str, AffixEffectScope, DamageType,
    EffectSkillType, HitTrigger, SkillType, StatType,
};
use frontend::loot_filter::ItemRarity;

#[test]
fn damage_and_skill_words() {
    assert_eq!(damage_type_str(DamageType::Fire), "Fire");
    assert_eq!(optional_damage_type_str(Some(DamageType::Poison)), "Poison ");
    assert_eq!(optional_damage_type_str(None), "");
    assert_eq!(skill_type_str(Some(EffectSkillType::Spell)), "Spell ");
    assert_eq!(skill_type_str(None), "");
    assert_eq!(to_skill_type_str(Some(EffectSkillType::Attack)), " to Attacks");
    assert_eq!(to_skill_type_str(None), "");
    assert_eq!(scope_str(AffixEffectScope::Global), "Global ");
    assert_eq!(scope_str(AffixEffectScope::Local), "");
}

#[test]
fn rarity_and_skill_colors() {
    assert_eq!(name_color_rarity(ItemRarity::Normal), "text-white");
    assert_eq!(name_color_rarity(ItemRarity::Unique), "text-amber-700");
    assert_eq!(skill_type_title(SkillType::Blessing), "Blessings");
    assert_eq!(skill_type_title_color(SkillType::Curse), "text-purple-300");
    assert_eq!(skill_type_glow(SkillType::Blessing), "via-amber-300/75");
    assert_eq!(skill_type_top_glow(SkillType::Other), "via-slate-300/40");
}

#[test]
fn multiplier_stat_names() {
    assert_eq!(format_multiplier_stat_name(StatType::Life), "Maximum Life");
    assert_eq!(format_multiplier_stat_name(StatType::Armor(DamageType::Physical)), "Armor");
    assert_eq!(format_multiplier_stat_name(StatType::Armor(DamageType::Fire)), "Fire Resistance");
    assert_eq!(
        format_multiplier_stat_name(StatType::Damage {
            skill_type: Some(EffectSkillType::Attack),
            damage_type: Some(DamageType::Poison),
        }),
        "Poison Attack Damage"
    );
    assert_eq!(
        format_multiplier_stat_name(StatType::MinDamage { skill_type: None, damage_type: None }),
        "Minimum Damage"
    );
    assert_eq!(
        format_multiplier_stat_name(StatType::CritChances(Some(EffectSkillType::Spell))),
        "Spell Critical Hit Chances"
    );
    assert_eq!(format_multiplier_stat_name(StatType::Speed(None)), "Speed");
    assert_eq!(
        format_multiplier_stat_name(StatType::LifeOnHit(HitTrigger { skill_type: Some(EffectSkillType::Attack) })),
        "Life gained on Attack Hit"
    );
    assert_eq!(
        format_multiplier_stat_name(StatType::DamageResistance {
            skill_type: None,
            damage_type: Some(DamageType::Fire),
        }),
        "Fire Damage Resistance"
    );
}

#[test]
fn hit_damage_kind() {
    assert_eq!(format_hit_damage_kind(DamageType::Physical, EffectSkillType::Spell), "Physical Spell Hit Damage");
}
