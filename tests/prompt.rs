use van_binh::menu::Dish;
use van_binh::prompt::{is_yes, parse_dish};

#[test]
fn dish_names_are_found_inside_lines() {
    assert_eq!(parse_dish("chicken"), Some(Dish::ThaiChicken));
    assert_eq!(parse_dish("chicken wing"), Some(Dish::ThaiChicken));
    assert_eq!(parse_dish("spicy tofu please"), Some(Dish::Tofu));
    assert_eq!(parse_dish("fried rice"), Some(Dish::FriedRice));
}

#[test]
fn chicken_is_looked_for_first() {
    assert_eq!(parse_dish("tofu with chicken"), Some(Dish::ThaiChicken));
    assert_eq!(parse_dish("rice and tofu"), Some(Dish::Tofu));
}

#[test]
fn unknown_dishes_are_refused() {
    assert_eq!(parse_dish("soup"), None);
    assert_eq!(parse_dish("Chicken"), None);
    assert_eq!(parse_dish("chick"), None);
    assert_eq!(parse_dish(""), None);
}

#[test]
fn only_a_lone_y_is_yes() {
    assert!(is_yes("y"));
    assert!(!is_yes("Y"));
    assert!(!is_yes("yes"));
    assert!(!is_yes("n"));
    assert!(!is_yes(""));
    assert!(!is_yes(" y"));
}
