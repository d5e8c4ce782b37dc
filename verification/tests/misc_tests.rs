use rustbook::advanced::{split_at_mut, Meters, Millimeters, Point, Wrapper};
use rustbook::appendix::match_in;
use rustbook::smart_pointers::MyBox;
use rustbook::by_example::{
    decorated_phone_number, get_phone_number, parse_first_item, EvenNumber, Job, Num,
    NoFirstElement, ParseFirstItemError, Person,
};
use rustbook::coins::{
    add_fancy_hat, describe_state_quarter, describe_state_quarter2, move_player, plus_one,
    remove_fancy_hat, uscoin_value_in_cents, value_in_cents, Coin, UsCoin, UsState,
};
use rustbook::flow::another_function;
use rustbook::generics::read_more::Summary2;
use rustbook::generics::{largest, longest, NewsArticle, Summary};
use rustbook::ownership::dangle;
use rustbook::restaurant::{eat_at_restaurant, Order};
use rustbook::shapes::{build_user, Rectangle};
use rustbook::title::extract_title;

#[test]
fn coin_values() {
    assert_eq!(value_in_cents(Coin::Penny), 1);
    assert_eq!(value_in_cents(Coin::Nickel), 5);
    assert_eq!(value_in_cents(Coin::Dime), 10);
    assert_eq!(value_in_cents(Coin::Quarter), 25);
    assert_eq!(uscoin_value_in_cents(&UsCoin::Quarter(UsState::Alaska)), 25);
    assert_eq!(uscoin_value_in_cents(&UsCoin::Dime), 10);
}

#[test]
fn states_and_quarters() {
    assert!(UsState::Alabama.existed_in(1900));
    assert!(!UsState::Alaska.existed_in(1900));
    assert!(UsState::Alaska.existed_in(1959));
    assert_eq!(
        describe_state_quarter(UsCoin::Quarter(UsState::Alabama)),
        Some("Alabama is pretty old, for America!".to_string())
    );
    assert_eq!(
        describe_state_quarter2(UsCoin::Quarter(UsState::Alaska)),
        Some("Alaska is relatively new.".to_string())
    );
    assert_eq!(describe_state_quarter(UsCoin::Penny), None);
    assert_eq!(describe_state_quarter2(UsCoin::Nickel), None);
}

#[test]
fn optional_numbers_and_dice() {
    assert_eq!(plus_one(Some(5)), Some(6));
    assert_eq!(plus_one(None), None);
    add_fancy_hat();
    remove_fancy_hat();
    move_player(9);
}

#[test]
fn restaurant_and_orders() {
    eat_at_restaurant();
    let order = Order { id: 7 };
    assert_eq!(order.id, 7);
}

#[test]
fn rectangles_and_users() {
    let rect = Rectangle::square(32);
    assert_eq!(rect.area(), 1024);
    assert!(rect.width());
    assert!(!Rectangle { width: 0, height: 3 }.width());
    let small = Rectangle { width: 10, height: 40 };
    assert!(!rect.can_hold(&small));
    assert!(rect.can_hold(&Rectangle { width: 10, height: 30 }));
    let user = build_user(String::from("john@example.com"), String::from("john"));
    assert!(user.active);
    assert_eq!(user.username, "john");
    assert_eq!(user.email, "john@example.com");
    assert_eq!(user.sign_in_count, 1);
}

#[test]
fn largest_and_longest() {
    let number_list = vec![34, 50, 25, 100, 65];
    assert_eq!(*largest(&number_list), 100);
    assert_eq!(*largest(&[-3, -1, -2]), -1);
    assert_eq!(longest("abcd", "xyz"), "abcd");
    assert_eq!(longest("ab", "xy"), "xy");
    assert_eq!(longest("é", "ab"), "ab");
    assert_eq!(longest("éé", "abc"), "éé");
}

#[test]
fn article_summaries() {
    let article = NewsArticle {
        headline: String::from("headline"),
        location: String::from("location"),
        author: String::from("author"),
        content: String::from("content"),
    };
    assert_eq!(Summary::summarize(&article), "headline, by author (location)");
    assert_eq!(Summary2::summarize(&article), "(Read more...)");
}

#[test]
fn points_and_lengths_add() {
    assert_eq!(Point { x: 1, y: 0 } + Point { x: 2, y: 3 }, Point { x: 3, y: 3 });
    let total = Millimeters(5) + Meters(2);
    assert_eq!(total.0, 2005);
}

#[test]
fn wrapper_shows_its_items() {
    let w = Wrapper(vec![String::from("hello"), String::from("world")]);
    assert_eq!(w.to_string(), "[hello, world]");
    assert_eq!(Wrapper(vec![]).to_string(), "[]");
    assert_eq!(Wrapper(vec![String::from("one")]).to_string(), "[one]");
}

#[test]
fn split_slices_are_independent() {
    let mut v = vec![1, 2, 3, 4, 5, 6];
    let (a, b) = split_at_mut(&mut v, 3);
    assert_eq!(a, &mut [1, 2, 3]);
    assert_eq!(b, &mut [4, 5, 6]);
    a[0] = 10;
    b[0] = 40;
    assert_eq!(v, vec![10, 2, 3, 40, 5, 6]);
    let (a, b) = split_at_mut(&mut v, 0);
    assert!(a.is_empty());
    assert_eq!(b.len(), 6);
}

#[test]
fn conversions_and_options() {
    assert_eq!(EvenNumber::try_from(8), Ok(EvenNumber(8)));
    assert_eq!(EvenNumber::try_from(5), Err(()));
    assert_eq!(EvenNumber::try_from(-4), Ok(EvenNumber(-4)));
    assert_eq!(EvenNumber::try_from(-3), Err(()));
    assert_eq!(parse_first_item(vec!["42", "x"]), Ok(42));
    assert_eq!(parse_first_item(vec![]), Err(ParseFirstItemError::NoFirstElement));
    assert_eq!(parse_first_item(vec!["zzz"]), Err(ParseFirstItemError::ParseError));
    assert_eq!(ParseFirstItemError::ParseError.message(), "parsing failed");
    assert_eq!(NoFirstElement.message(), "no first element");
    let person = Person { job: Some(Job { phone_number: Some(String::from("123")) }) };
    assert_eq!(get_phone_number(Some(person)), Some(String::from("123")));
    assert_eq!(get_phone_number(Some(Person { job: None })), None);
    assert_eq!(get_phone_number(None), None);
    assert_eq!(
        get_phone_number(Some(Person { job: Some(Job { phone_number: None }) })),
        None
    );
    assert_eq!(decorated_phone_number(Some(String::from("123"))), Some(String::from("+7123")));
    assert_eq!(decorated_phone_number(None), None);
}

#[test]
fn functions_and_ownership() {
    assert_eq!(another_function(42, 'h'), 4);
    assert_eq!(dangle(), "hello");
    assert!(match_in("foo", "foobar"));
    assert!(!match_in("baz", "foobar"));
    assert!(match_in("", ""));
    assert!(!match_in("foobarx", "foobar"));
}

#[test]
fn page_titles() {
    assert_eq!(
        extract_title("<html><head><TITLE>Rust Book</TITLE></head></html>"),
        Some(String::from("Rust Book"))
    );
    assert_eq!(extract_title("<title>a</title><title>b</title>"), Some(String::from("a")));
    assert_eq!(extract_title("<title></title>"), Some(String::new()));
    assert_eq!(extract_title("<title>two\nlines</title>"), None);
    assert_eq!(extract_title("no title here"), None);
}

#[test]
fn boxes_and_conversions() {
    let x = 5;
    let y = MyBox::new(x);
    assert_eq!(5, *y);
    let s = MyBox::new(String::from("hey"));
    assert_eq!(s.len(), 3);
    assert_eq!(Num::from(30), Num(30));
    let n: Num = 7.into();
    assert_eq!(n, Num(7));
}
