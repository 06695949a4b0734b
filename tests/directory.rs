use van_binh::directory::VanBinh;
use van_binh::menu::Dish;
use van_binh::order::Order;

fn chicken_and_tofu_to_go() -> Order {
    let mut order = Order::new();
    order.add_dish(Dish::ThaiChicken);
    order.add_dish(Dish::Tofu);
    order.set_takeaway();
    order
}

#[test]
fn saved_favorite_is_found() {
    let mut van_binh = VanBinh::new();
    let order = chicken_and_tofu_to_go();
    assert_eq!(order.total(), 37);
    van_binh.add_customer("Alice".to_string(), order);
    let customer = van_binh.get_saved_customer("Alice").expect("Alice was saved");
    assert_eq!(customer.name, "Alice");
    assert_eq!(customer.favorite_order, order);
    assert_eq!(customer.favorite_order.total(), 37);
}

#[test]
fn unsaved_name_is_not_found() {
    let mut van_binh = VanBinh::new();
    assert!(van_binh.get_saved_customer("Alice").is_none());
    van_binh.add_customer("Alice".to_string(), chicken_and_tofu_to_go());
    assert!(van_binh.get_saved_customer("Bob").is_none());
    assert!(van_binh.get_saved_customer("alice").is_none());
    assert!(van_binh.get_saved_customer("Alic").is_none());
    assert!(van_binh.get_saved_customer("").is_none());
}

#[test]
fn first_saved_customer_shadows_later_ones() {
    let mut van_binh = VanBinh::new();
    let first = chicken_and_tofu_to_go();
    let mut second = Order::new();
    second.add_dish(Dish::FriedRice);
    van_binh.add_customer("Alice".to_string(), first);
    van_binh.add_customer("Bob".to_string(), second);
    van_binh.add_customer("Alice".to_string(), second);
    assert_eq!(van_binh.get_saved_customer("Alice").unwrap().favorite_order, first);
    assert_eq!(van_binh.get_saved_customer("Bob").unwrap().favorite_order, second);
}

#[test]
fn saved_favorite_is_a_snapshot() {
    let mut van_binh = VanBinh::new();
    let mut current = Order::new();
    current.add_dish(Dish::Tofu);
    van_binh.add_customer("Carol".to_string(), current);
    current.add_dish(Dish::Tofu);
    let saved = van_binh.get_saved_customer("Carol").unwrap().favorite_order;
    assert_eq!(saved.dish_count(Dish::Tofu), 1);
    assert_eq!(current.dish_count(Dish::Tofu), 2);
}

#[test]
fn orders_count_starts_at_one_and_steps_by_one() {
    let mut van_binh = VanBinh::new();
    assert_eq!(van_binh.get_orders_count(), 1);
    van_binh.increase_orders_count();
    assert_eq!(van_binh.get_orders_count(), 2);
    van_binh.add_customer("Dan".to_string(), chicken_and_tofu_to_go());
    assert_eq!(van_binh.get_orders_count(), 2);
    van_binh.increase_orders_count();
    van_binh.increase_orders_count();
    assert_eq!(van_binh.get_orders_count(), 4);
}

#[test]
fn placing_orders_numbers_them() {
    let mut van_binh = VanBinh::new();
    let order = chicken_and_tofu_to_go();
    assert_eq!(van_binh.place_order(&order), Some(1));
    assert_eq!(van_binh.place_order(&order), Some(2));
    assert_eq!(van_binh.get_orders_count(), 3);
}

#[test]
fn empty_order_is_not_placed() {
    let mut van_binh = VanBinh::new();
    let mut empty = Order::new();
    empty.set_takeaway();
    assert_eq!(empty.items_count(), 0);
    assert_eq!(van_binh.place_order(&empty), None);
    assert_eq!(van_binh.get_orders_count(), 1);
    assert_eq!(van_binh.place_order(&chicken_and_tofu_to_go()), Some(1));
    assert_eq!(van_binh.place_order(&Order::new()), None);
    assert_eq!(van_binh.get_orders_count(), 2);
}
