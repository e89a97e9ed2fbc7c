use verified_basics::enums::{route_based_on_ip_version, IpAddrKind};
use verified_basics::if_let_demo;
use verified_basics::match_demo;
use verified_basics::rectangles::Rectangle;
use verified_basics::structs::{update_email, User};

#[test]
fn rectangle_area_is_width_times_height() {
    let r1 = Rectangle { width: 30, height: 30 };
    assert_eq!(r1.area(), 900);
}

#[test]
fn rectangle_width_checks_for_nonzero() {
    let r1 = Rectangle { width: 30, height: 30 };
    assert!(r1.width());
    let flat = Rectangle { width: 0, height: 30 };
    assert!(!flat.width());
}

#[test]
fn bigger_rectangle_holds_the_smaller_one_only() {
    let r1 = Rectangle { width: 30, height: 30 };
    let r2 = Rectangle { width: 25, height: 25 };
    assert!(r1.can_hold(&r2));
    assert!(!r2.can_hold(&r1));
}

#[test]
fn rectangle_cannot_hold_one_of_equal_size() {
    let r1 = Rectangle { width: 30, height: 30 };
    assert!(!r1.can_hold(&r1));
}

#[test]
fn square_has_equal_sides() {
    let s1 = Rectangle::square(50);
    assert_eq!(s1, Rectangle { width: 50, height: 50 });
}

#[test]
fn update_email_replaces_only_the_email() {
    let user_1 = User {
        username: String::from("ioannispli"),
        email: String::from("johnplitharas@domain.com"),
        active: true,
    };
    let user_1 = update_email(String::from("johnplitharas@other_domain.com"), user_1);
    assert_eq!(user_1.email, "johnplitharas@other_domain.com");
    assert_eq!(user_1.username, "ioannispli");
    assert!(user_1.active);
}

#[test]
fn routing_names_the_ip_version() {
    assert_eq!(route_based_on_ip_version(IpAddrKind::V4), "IP version 4 used");
    assert_eq!(route_based_on_ip_version(IpAddrKind::V6), "IP version 6 used");
}

#[test]
fn alabama_existed_in_1819_and_alaska_in_1959() {
    assert!(if_let_demo::UsState::Alabama.existed_in(1819));
    assert!(!if_let_demo::UsState::Alabama.existed_in(1818));
    assert!(if_let_demo::UsState::Alaska.existed_in(1959));
    assert!(!if_let_demo::UsState::Alaska.existed_in(1900));
}

#[test]
fn state_names_match_their_variants() {
    assert_eq!(if_let_demo::UsState::Alabama.name(), "Alabama");
    assert_eq!(if_let_demo::UsState::Alaska.name(), "Alaska");
}

#[test]
fn old_state_quarter_is_described_as_old() {
    let coin = if_let_demo::Coin::Quarter(if_let_demo::UsState::Alabama);
    let description = if_let_demo::describe_state_quarter(coin);
    assert_eq!(
        description,
        Some(String::from("Alabama is pretty old, for America!"))
    );
}

#[test]
fn young_state_quarter_is_described_as_new() {
    let coin = if_let_demo::Coin::Quarter(if_let_demo::UsState::Alaska);
    let description = if_let_demo::describe_state_quarter(coin);
    assert_eq!(description, Some(String::from("Alaska is relatively new.")));
}

#[test]
fn penny_gets_no_description() {
    assert_eq!(if_let_demo::describe_state_quarter(if_let_demo::Coin::Peni), None);
}

#[test]
fn odd_description_agrees_with_the_let_else_one() {
    for coin in [
        if_let_demo::Coin::Quarter(if_let_demo::UsState::Alabama),
        if_let_demo::Coin::Quarter(if_let_demo::UsState::Alaska),
        if_let_demo::Coin::Peni,
    ] {
        assert_eq!(
            if_let_demo::describe_state_quarter_odd(coin),
            if_let_demo::describe_state_quarter(coin)
        );
    }
}

#[test]
fn greeting_uses_the_name_when_given() {
    let greeting = if_let_demo::greet_someone(Some(String::from("Ioannis")));
    assert_eq!(greeting, "Hello, Ioannis!");
}

#[test]
fn greeting_falls_back_without_a_name() {
    assert_eq!(if_let_demo::greet_someone(None), "No name provided.");
}

#[test]
fn coin_values_in_cents() {
    assert_eq!(match_demo::value_in_cents(match_demo::Coin::Penny), 1);
    assert_eq!(match_demo::value_in_cents(match_demo::Coin::Nickel), 5);
    assert_eq!(match_demo::value_in_cents(match_demo::Coin::Dime), 10);
    assert_eq!(
        match_demo::value_in_cents(match_demo::Coin::Quarter(match_demo::UsState::Alabama)),
        25
    );
}

#[test]
fn plus_one_increments_a_present_value() {
    assert_eq!(match_demo::plus_one(Some(5)), Some(6));
}

#[test]
fn plus_one_keeps_none() {
    assert_eq!(match_demo::plus_one(None), None);
}

#[test]
fn dice_outcomes_cover_wins_and_the_catch_all() {
    assert_eq!(match_demo::default_match(3), "You won with a 3");
    assert_eq!(match_demo::default_match(4), "You won with a 4 ");
    assert_eq!(match_demo::default_match(7), "You are out of game..");
}
