use verified_basics::borrowing::{dangle, greet_length, mutable_reference};
use verified_basics::ownership::{gives_ownership, take_and_give_back, the_string_type_demo};
use verified_basics::slice::{first_word, first_word_improved, mutable_slice};

#[test]
fn greet_length_counts_bytes() {
    let greet = String::from("Hello from Rust Programming Language!");
    assert_eq!(greet_length(&greet), 37);
}

#[test]
fn greet_length_counts_bytes_not_characters() {
    let greet = String::from("h\u{e9}llo");
    assert_eq!(greet_length(&greet), 6);
}

#[test]
fn mutable_reference_appends_bar_bar() {
    let mut s = String::from("foooo");
    mutable_reference(&mut s);
    assert_eq!(s, "foooo bar bar");
}

#[test]
fn dangle_hands_out_an_owned_hello() {
    assert_eq!(dangle(), "hello");
}

#[test]
fn string_type_demo_grows_foo_to_foo_bar() {
    assert_eq!(the_string_type_demo(), "Foo Bar");
}

#[test]
fn gives_ownership_hands_out_bar_string() {
    assert_eq!(gives_ownership(), "bar string");
}

#[test]
fn take_and_give_back_returns_the_same_value() {
    let s = String::from("hello");
    assert_eq!(take_and_give_back(s), "hello");
}

#[test]
fn first_word_stops_at_the_first_space() {
    let greet = String::from("Hello, world!");
    assert_eq!(first_word(&greet), "Hello,");
}

#[test]
fn first_word_of_a_single_word_is_the_whole_string() {
    let greet = String::from("Hello");
    assert_eq!(first_word(&greet), "Hello");
}

#[test]
fn first_word_improved_takes_a_slice() {
    assert_eq!(first_word_improved("To good to be true!"), "To");
    assert_eq!(first_word_improved(""), "");
    assert_eq!(first_word_improved(" leading"), "");
}

#[test]
fn mutable_slice_negates_every_element() {
    let mut numbers: [i32; 6] = [0, 1, 2, 3, 4, 5];
    mutable_slice(&mut numbers[..]);
    assert_eq!(numbers, [0, -1, -2, -3, -4, -5]);
}
