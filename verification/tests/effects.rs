use frontend::effects::{merged_damage_lines, DamageLine, FlatDamage};
use frontend::labels::{DamageType, EffectSkillType};
use frontend::measure::Measure;

fn flat(skill_type: Option<EffectSkillType>, damage_type: Option<DamageType>, is_max: bool, v: i64) -> FlatDamage {
    FlatDamage { skill_type, damage_type, is_max, value: Measure::Number(v) }
}

#[test]
fn min_and_max_merge_into_one_line() {
    let effects = vec![
        flat(None, Some(DamageType::Fire), false, 3),
        flat(None, Some(DamageType::Fire), true, 9),
        flat(Some(EffectSkillType::Attack), None, true, 5),
        flat(Some(EffectSkillType::Spell), Some(DamageType::Poison), false, 2),
        flat(Some(EffectSkillType::Spell), Some(DamageType::Poison), false, 4),
    ];
    assert_eq!(
        merged_damage_lines(&effects),
        vec![
            DamageLine::Maximum { skill_type: Some(EffectSkillType::Attack), damage_type: None, value: Measure::Number(5) },
            DamageLine::Minimum {
                skill_type: Some(EffectSkillType::Spell),
                damage_type: Some(DamageType::Poison),
                value: Measure::Number(4),
            },
            DamageLine::Range {
                skill_type: None,
                damage_type: Some(DamageType::Fire),
                min: Measure::Number(3),
                max: Measure::Number(9),
            },
        ]
    );
    assert!(merged_damage_lines(&vec![]).is_empty());
}
