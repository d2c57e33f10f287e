use rust_basics::basics::{
    calculates_length, change, dangle, five, gives_ownership, plus_one, six, takes_and_gives_back,
};
use rust_basics::coins::{describe_state_quarter, value_in_cents, Coin, UsState};
use rust_basics::rectangle::{area1, area2, area3, Rectangle};
use rust_basics::restaurant::{Appetizer, Breakfast};
use rust_basics::user::build_user;

#[test]
fn rectangle_area_three_ways() {
    let r = Rectangle { width: 30, height: 50 };
    assert_eq!(area1(30, 50), 1500);
    assert_eq!(area2((30, 50)), 1500);
    assert_eq!(area3(&r), 1500);
    assert_eq!(r.area(), 1500);
}

#[test]
fn rectangle_change_width() {
    let mut r = Rectangle { width: 30, height: 40 };
    assert_eq!(r.area(), 1200);
    r.change_width(10);
    assert_eq!(r, Rectangle { width: 10, height: 40 });
    assert_eq!(r.area(), 400);
    assert!(r.width());
    r.change_width(0);
    assert!(!r.width());
}

#[test]
fn rectangle_can_hold() {
    let a = Rectangle { width: 30, height: 50 };
    let b = Rectangle { width: 10, height: 40 };
    let c = Rectangle { width: 60, height: 45 };
    assert!(a.can_hold(&b));
    assert!(!a.can_hold(&c));
    assert!(!a.can_hold(&a));
}

#[test]
fn rectangle_square() {
    assert_eq!(Rectangle::square(20), Rectangle { width: 20, height: 20 });
}

#[test]
fn rectangle_largest_area() {
    assert_eq!(area1(u32::MAX, 1), u32::MAX);
    assert_eq!(area1(65536, 65535), 4294901760);
}

#[test]
fn user_built_active() {
    let u = build_user(String::from("a@example.com"), String::from("ann"));
    assert!(u.active);
    assert_eq!(u.username, "ann");
    assert_eq!(u.email, "a@example.com");
    assert_eq!(u.sign_in_count, 1);
}

#[test]
fn coin_values() {
    assert_eq!(value_in_cents(Coin::Penny), 1);
    assert_eq!(value_in_cents(Coin::Nickel), 5);
    assert_eq!(value_in_cents(Coin::Dime), 10);
    assert_eq!(value_in_cents(Coin::Quarter(UsState::Alaska)), 25);
}

#[test]
fn state_existed_in() {
    assert!(UsState::Alabama.existed_in(1819));
    assert!(!UsState::Alabama.existed_in(1818));
    assert!(UsState::Alaska.existed_in(1959));
    assert!(!UsState::Alaska.existed_in(1900));
    assert_eq!(UsState::Alaska.name(), "Alaska");
}

#[test]
fn quarter_descriptions() {
    assert_eq!(
        describe_state_quarter(Coin::Quarter(UsState::Alabama)),
        Some(String::from("Alabama is pretty old, for America!"))
    );
    assert_eq!(
        describe_state_quarter(Coin::Quarter(UsState::Alaska)),
        Some(String::from("Alaska is relatively new."))
    );
    assert_eq!(describe_state_quarter(Coin::Dime), None);
}

#[test]
fn option_plus_one() {
    assert_eq!(rust_basics::coins::plus_one(Some(5)), Some(15));
    assert_eq!(rust_basics::coins::plus_one(Some(6)), Some(7));
    assert_eq!(rust_basics::coins::plus_one(Some(-1)), Some(0));
    assert_eq!(rust_basics::coins::plus_one(None), None);
}

#[test]
fn summer_breakfast() {
    let mut meal = Breakfast::summer("Rye");
    assert_eq!(meal.toast, "Rye");
    assert_eq!(meal.seasonal_fruit(), "peaches");
    assert_eq!(meal.order_line(), "I'd like Rye toast please");
    meal.toast = String::from("Wheat");
    assert_eq!(meal.order_line(), "I'd like Wheat toast please");
    assert_ne!(Appetizer::Soup, Appetizer::Salad);
}

#[test]
fn numbers() {
    assert_eq!(five(), 5);
    assert_eq!(six(), 8);
    assert_eq!(plus_one(41), 42);
    assert_eq!(plus_one(-1), 0);
}

#[test]
fn strings_borrowed_and_owned() {
    let s = String::from("hello");
    assert_eq!(calculates_length(&s), 5);
    assert_eq!(calculates_length(&String::from("héllo")), 6);
    let mut t = String::from("hello");
    change(&mut t);
    assert_eq!(t, "hello, world");
    assert_eq!(dangle(), "hello");
    assert_eq!(gives_ownership(), "yours");
    assert_eq!(takes_and_gives_back(String::from("back")), "back");
}
