use primer::restaurant::{add_to_waitlist, cook_order, eat_at_restaurant, seat_at_table, Breakfast};
use primer::structures::build_user;

#[test]
fn it_works() {
    assert_eq!(2 + 2, 4);
}

#[test]
fn summer_breakfast_takes_the_customers_toast() {
    let mut meal = Breakfast::summer("Rye");
    assert_eq!(meal.toast, "Rye");
    meal.toast = String::from("Wheat");
    assert_eq!(meal.toast, "Wheat");
}

#[test]
fn front_of_house_runs_through() {
    add_to_waitlist();
    seat_at_table();
    cook_order();
    eat_at_restaurant();
}

#[test]
fn built_users_start_fresh_and_active() {
    let user = build_user(String::from("test@test.com"), String::from("user123"));
    assert_eq!(user.email, "test@test.com");
    assert_eq!(user.username, "user123");
    assert!(user.is_active);
    assert_eq!(user.sign_in_count, 0);
}
