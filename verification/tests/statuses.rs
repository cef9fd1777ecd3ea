use frontend::labels::DamageType;
use frontend::statuses::{
    active_statuses, has_damage_status, id_less, is_debuff, stack_badge, status_info, status_stacks, status_strip,
    ActiveStatus, StatusInfo,
};

fn st(id: &str, info: Option<(bool, Option<DamageType>)>) -> ActiveStatus {
    ActiveStatus { id: id.to_string(), info: info.map(|(debuff, damage_type)| StatusInfo { debuff, damage_type }), stacks: 1 }
}

#[test]
fn debuffs_and_damage() {
    assert!(is_debuff(Some(StatusInfo { debuff: true, damage_type: None })));
    assert!(!is_debuff(Some(StatusInfo { debuff: false, damage_type: None })));
    assert!(!is_debuff(None));
    let active = vec![st("burn", Some((true, Some(DamageType::Fire)))), st("haste", None)];
    assert!(has_damage_status(&active, DamageType::Fire));
    assert!(!has_damage_status(&active, DamageType::Poison));
    assert!(!has_damage_status(&vec![], DamageType::Physical));
}

#[test]
fn identifier_order_matches_string_order() {
    for (a, b) in [("a", "b"), ("ab", "a"), ("a", "ab"), ("x", "x"), ("", "a"), ("Z", "a"), ("é", "z")] {
        assert_eq!(id_less(a, b), a < b, "{} {}", a, b);
    }
}

#[test]
fn strips_split_and_sorted() {
    let active = vec![
        st("stun", Some((true, None))),
        st("bleed", Some((true, Some(DamageType::Physical)))),
        st("regen", Some((false, None))),
        st("unknown", None),
        st("armor_up", Some((false, None))),
    ];
    assert_eq!(status_strip(&active, true), vec![1, 0]);
    assert_eq!(status_strip(&active, false), vec![4, 2, 3]);
}

#[test]
fn stacks_are_gathered_per_status() {
    let states = vec![("burn".to_string(), 2), ("stun".to_string(), 1), ("burn".to_string(), 3), ("haste".to_string(), 0)];
    let stacks = status_stacks(&states);
    assert_eq!(stacks, vec![("burn".to_string(), 5), ("stun".to_string(), 1), ("haste".to_string(), 0)]);
    assert!(status_stacks(&vec![]).is_empty());
}

#[test]
fn badge_only_above_one() {
    assert_eq!(stack_badge(0), None);
    assert_eq!(stack_badge(1), None);
    assert_eq!(stack_badge(2), Some(2));
    assert_eq!(stack_badge(17), Some(17));
}

#[test]
fn portrait_statuses_from_data() {
    let infos = vec![
        ("burn".to_string(), StatusInfo { debuff: true, damage_type: Some(DamageType::Fire) }),
        ("haste".to_string(), StatusInfo { debuff: false, damage_type: None }),
    ];
    assert_eq!(status_info(&infos, "haste"), Some(StatusInfo { debuff: false, damage_type: None }));
    assert_eq!(status_info(&infos, "zzz"), None);
    let stacks = vec![("haste".to_string(), 1), ("burn".to_string(), 4), ("odd".to_string(), 2)];
    let active = active_statuses(&stacks, &infos);
    assert_eq!(active.len(), 3);
    assert_eq!(active[1].stacks, 4);
    assert_eq!(active[2].info, None);
    assert_eq!(status_strip(&active, true), vec![1]);
    assert_eq!(status_strip(&active, false), vec![0, 2]);
    assert_eq!(stack_badge(active[1].stacks), Some(4));
}
