//! Concise control flow with `if let` and `let ... else`: a coin that
//! may carry a state, a state that knows when it joined, and the two
//! ways of describing a state quarter.

use vstd::prelude::*;
use vstd::string::StringExecFns;

verus! {

/// A coin: either a quarter stamped with a state, or a penny.
#[derive(Debug, Clone, Copy, PartialEq, Eq, Structural)]
pub enum Coin {
    Quarter(UsState),
    Peni,
}

/// A state a quarter can be stamped with.
#[derive(Debug, Clone, Copy, PartialEq, Eq, Structural)]
pub enum UsState {
    Alabama,
    Alaska,
}

/// Whether `state` already existed in `year`: Alabama joined in 1819,
/// Alaska in 1959.
pub open spec fn spec_existed_in(state: UsState, year: u16) -> bool {
    match state {
        UsState::Alabama => year >= 1819,
        UsState::Alaska => year >= 1959,
    }
}

/// The name of the state, as its debug form prints it.
pub open spec fn state_name(state: UsState) -> Seq<char> {
    match state {
        UsState::Alabama => "Alabama"@,
        UsState::Alaska => "Alaska"@,
    }
}

/// The line describing the state on a quarter: old states get one
/// suffix, newer ones the other.
pub open spec fn quarter_description(state: UsState) -> Seq<char> {
    if spec_existed_in(state, 1900) {
        state_name(state) + " is pretty old, for America!"@
    } else {
        state_name(state) + " is relatively new."@
    }
}

impl UsState {
    /// Whether the state already existed in the given year.
    pub fn existed_in(&self, year: u16) -> (existed: bool)
        ensures
            existed == spec_existed_in(*self, year),
    {
        match self {
            UsState::Alabama => year >= 1819,
            UsState::Alaska => year >= 1959,
        }
    }

    /// The state's name.
    pub fn name(&self) -> (name: &'static str)
        ensures
            name@ == state_name(*self),
    {
        match self {
            UsState::Alabama => "Alabama",
            UsState::Alaska => "Alaska",
        }
    }
}

/// Describes the state on a quarter, using `let ... else` to bow out
/// early on any coin that is not a quarter.
pub fn describe_state_quarter(coin: Coin) -> (description: Option<String>)
    ensures
        coin matches Coin::Quarter(state) ==> description matches Some(d) && d@
            == quarter_description(state),
        coin is Peni ==> description is None,
{
    let Coin::Quarter(state) = coin else {
        return None;
    };
    if state.existed_in(1900) {
        Some(state.name().to_owned().concat(" is pretty old, for America!"))
    } else {
        Some(state.name().to_owned().concat(" is relatively new."))
    }
}

/// The same description, checking for a quarter with `if let` first
/// instead of `let ... else`.
pub fn describe_state_quarter_odd(coin: Coin) -> (description: Option<String>)
    ensures
        coin matches Coin::Quarter(state) ==> description matches Some(d) && d@
            == quarter_description(state),
        coin is Peni ==> description is None,
{
    let state: UsState = if let Coin::Quarter(state) = coin {
        state
    } else {
        return None;
    };
    if state.existed_in(1900) {
        Some(state.name().to_owned().concat(" is pretty old, for America!"))
    } else {
        Some(state.name().to_owned().concat(" is relatively new."))
    }
}

/// The greeting for an optional name: a personal one when a name is
/// given, a fixed line when none is.
pub fn greet_someone(name: Option<String>) -> (greeting: String)
    ensures
        name matches Some(n) ==> greeting@ == "Hello, "@ + n@ + "!"@,
        name is None ==> greeting@ == "No name provided."@,
{
    let Some(name) = name else {
        return "No name provided.".to_owned();
    };
    "Hello, ".to_owned().concat(name.as_str()).concat("!")
}

} // verus!
