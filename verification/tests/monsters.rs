use frontend::measure::Measure;
use frontend::monsters::{
    collapses, is_big, life_bar_class, positive_values, skills_width_class, tags_grid_class,
    title_style, CharacterSize, DamageTicks, MonsterRarity, TickAction,
};

#[test]
fn card_layout() {
    assert!(!is_big(CharacterSize::Small));
    assert!(!is_big(CharacterSize::Tall));
    assert!(is_big(CharacterSize::Huge));
    assert!(is_big(CharacterSize::Gargantuan));
    assert_eq!(life_bar_class(true), "h-6 xl:h-10");
    assert_eq!(life_bar_class(false), "h-4 xl:h-7");
    assert_eq!(tags_grid_class(CharacterSize::Tall), "grid-cols-3");
    assert_eq!(tags_grid_class(CharacterSize::Large), "grid-cols-6");
    assert_eq!(title_style(MonsterRarity::Normal), "");
    assert_eq!(title_style(MonsterRarity::Boss), "boss-title xl:text-base font-display");
    assert_eq!(skills_width_class(1), "w-full");
    assert_eq!(skills_width_class(2), "w-1/2");
}

#[test]
fn tags_keep_positive_values() {
    let entries = vec![
        ('a', Measure::Number(5)),
        ('b', Measure::Number(0)),
        ('c', Measure::Number(-3)),
        ('d', Measure::NotANumber),
        ('e', Measure::Number(1)),
    ];
    assert_eq!(positive_values(&entries), vec![('a', Measure::Number(5)), ('e', Measure::Number(1))]);
    assert!(positive_values(&Vec::<(u8, Measure)>::new()).is_empty());
}

#[test]
fn resistances_collapse_when_complete_and_equal() {
    let n = Measure::Number;
    assert!(collapses(&vec![n(7), n(7)], 2));
    assert!(!collapses(&vec![n(7), n(8)], 2));
    assert!(!collapses(&vec![n(7)], 2));
    assert!(!collapses(&vec![Measure::NotANumber, Measure::NotANumber], 2));
    assert!(collapses(&vec![Measure::NotANumber], 1));
}

#[test]
fn damage_ticks() {
    let mut t = DamageTicks::new();
    assert_eq!(t.on_life_change(false, true), TickAction::Nothing);
    assert_eq!(t.on_life_change(true, true), TickAction::Hit(0));
    assert_eq!(t.on_life_change(true, false), TickAction::Dot(1));
    assert_eq!(t.on_life_change(true, false), TickAction::AddToDot(1));
    assert_eq!(t.on_life_change(true, true), TickAction::Hit(2));
    assert_eq!(t.on_life_change(true, false), TickAction::AddToDot(1));
    t.dot_ended();
    assert_eq!(t.on_life_change(true, false), TickAction::Dot(3));
}
