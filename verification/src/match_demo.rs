//! The `match` control-flow construct: sorting coins by value,
//! matching on an `Option`, and a catch-all arm.

use vstd::prelude::*;

verus! {

/// A state that a quarter can carry.
#[derive(Debug, Clone, Copy, PartialEq, Eq, Structural)]
pub enum UsState {
    Alabama,
    Alaska,
}

/// An American coin; quarters carry the state they were minted for.
#[derive(Debug, Clone, Copy, PartialEq, Eq, Structural)]
pub enum Coin {
    Penny,
    Nickel,
    Dime,
    Quarter(UsState),
}

/// The value of a coin in cents: one, five, ten, or twenty-five,
/// whatever state a quarter carries.
pub open spec fn spec_value_in_cents(coin: Coin) -> u8 {
    match coin {
        Coin::Penny => 1u8,
        Coin::Nickel => 5u8,
        Coin::Dime => 10u8,
        Coin::Quarter(_) => 25u8,
    }
}

/// Sorts a coin into its value in cents by matching each variant.
pub fn value_in_cents(coin: Coin) -> (cents: u8)
    ensures
        cents == spec_value_in_cents(coin),
{
    match coin {
        Coin::Penny => 1,
        Coin::Nickel => 5,
        Coin::Dime => 10,
        Coin::Quarter(_state) => 25,
    }
}

/// Adds one inside an `Option`: `None` stays `None`, and a present
/// value is incremented.
pub fn plus_one(x: Option<i32>) -> (incremented: Option<i32>)
    requires
        x matches Some(i) ==> i < i32::MAX,
    ensures
        x is None ==> incremented is None,
        x matches Some(i) ==> incremented == Some((i + 1) as i32),
{
    match x {
        None => None,
        Some(i) => Some(i + 1),
    }
}

/// The outcome line for a dice roll: three and four win, and the
/// catch-all arm loses the game.
pub fn default_match(dice: u8) -> (outcome: &'static str)
    ensures
        dice == 3 ==> outcome@ == "You won with a 3"@,
        dice == 4 ==> outcome@ == "You won with a 4 "@,
        dice != 3 && dice != 4 ==> outcome@ == "You are out of game.."@,
{
    match dice {
        3 => "You won with a 3",
        4 => "You won with a 4 ",
        _ => "You are out of game..",
    }
}

} // verus!
