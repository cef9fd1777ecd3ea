use frontend::labels::SkillType;
use frontend::skill_shop::{contains_id, next_favorite_skill, shop_section, skill_sections, ShopSkill};

fn sk(id: &str, name: &str, skill_type: SkillType, hidden: bool) -> ShopSkill {
    ShopSkill { id: id.to_string(), name: name.to_string(), skill_type, hidden }
}

fn ids(v: &[&str]) -> Vec<String> {
    v.iter().map(|s| s.to_string()).collect()
}

fn shop() -> Vec<ShopSkill> {
    vec![
        sk("fireball", "Fireball", SkillType::Spell, false),
        sk("slash", "Slash", SkillType::Attack, false),
        sk("bash", "Bash", SkillType::Attack, false),
        sk("secret", "Aaa", SkillType::Attack, true),
        sk("curse", "Weakness", SkillType::Curse, false),
        sk("bless", "Haste", SkillType::Blessing, false),
    ]
}

#[test]
fn section_sorted_by_name_without_hidden_or_bought() {
    let skills = shop();
    assert_eq!(shop_section(&skills, &ids(&[]), SkillType::Attack), vec![2, 1]);
    assert_eq!(shop_section(&skills, &ids(&["bash"]), SkillType::Attack), vec![1]);
    assert!(shop_section(&skills, &ids(&[]), SkillType::Other).is_empty());
}

#[test]
fn sections_in_type_order_and_nonempty() {
    let skills = shop();
    let sections = skill_sections(&skills, &ids(&["curse"]));
    let types: Vec<SkillType> = sections.iter().map(|(t, _)| *t).collect();
    assert_eq!(types, vec![SkillType::Attack, SkillType::Spell, SkillType::Blessing]);
    assert_eq!(sections[0].1, vec![2, 1]);
    assert_eq!(sections[1].1, vec![0]);
    assert_eq!(sections[2].1, vec![5]);
}

#[test]
fn favourite_skill_selected() {
    let favs = ids(&["slash", "fireball", "bash"]);
    assert_eq!(next_favorite_skill(&favs, &ids(&["slash"])), Some("fireball".to_string()));
    assert_eq!(next_favorite_skill(&favs, &ids(&["slash", "fireball", "bash"])), None);
    assert!(contains_id(&ids(&["a", "b"]), "b"));
    assert!(!contains_id(&ids(&["a", "b"]), "c"));
}
