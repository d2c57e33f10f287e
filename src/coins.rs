//! US coins, the states on state quarters, and what each is worth.

use vstd::prelude::*;
use vstd::string::StringExecFns;

verus! {

/// A state that can appear on a state quarter.
#[derive(Clone, Copy, Debug, PartialEq, Eq, Structural)]
pub enum UsState {
    Alabama,
    Alaska,
}

/// The year a state joined the union.
pub open spec fn admission_year(state: UsState) -> u16 {
    match state {
        UsState::Alabama => 1819,
        UsState::Alaska => 1959,
    }
}

/// The name of a state, as it is written.
pub open spec fn state_name(state: UsState) -> Seq<char> {
    match state {
        UsState::Alabama => "Alabama"@,
        UsState::Alaska => "Alaska"@,
    }
}

impl UsState {
    /// Whether the state already existed in `year`.
    pub fn existed_in(&self, year: u16) -> (r: bool)
        ensures
            r == (year >= admission_year(*self)),
    {
        match self {
            UsState::Alabama => year >= 1819,
            UsState::Alaska => year >= 1959,
        }
    }

    /// The name of the state.
    pub fn name(&self) -> (r: &'static str)
        ensures
            r@ == state_name(*self),
    {
        match self {
            UsState::Alabama => "Alabama",
            UsState::Alaska => "Alaska",
        }
    }
}

/// A US coin; a quarter names its state.
#[derive(Clone, Copy, Debug, PartialEq, Eq, Structural)]
pub enum Coin {
    Penny,
    Nickel,
    Dime,
    Quarter(UsState),
}

/// The worth of a coin in cents.
pub open spec fn cents(coin: Coin) -> u8 {
    match coin {
        Coin::Penny => 1,
        Coin::Nickel => 5,
        Coin::Dime => 10,
        Coin::Quarter(_) => 25,
    }
}

/// The worth of `coin` in cents.
pub fn value_in_cents(coin: Coin) -> (r: u8)
    ensures
        r == cents(coin),
{
    match coin {
        Coin::Penny => 1,
        Coin::Nickel => 5,
        Coin::Dime => 10,
        Coin::Quarter(_) => 25,
    }
}

/// The sentence that describes a quarter's state: old if the state existed in
/// 1900, new otherwise.
pub open spec fn quarter_description(state: UsState) -> Seq<char> {
    if 1900 >= admission_year(state) {
        state_name(state) + " is pretty old, for America!"@
    } else {
        state_name(state) + " is relatively new."@
    }
}

/// Describes the state of a quarter; any other coin gives `None`.
pub fn describe_state_quarter(coin: Coin) -> (r: Option<String>)
    ensures
        match coin {
            Coin::Quarter(state) => r.is_some() && r.unwrap()@ == quarter_description(state),
            _ => r.is_none(),
        },
{
    let Coin::Quarter(state) = coin else {
        return None;
    };
    let name = String::from_str(state.name());
    if state.existed_in(1900) {
        Some(name.concat(" is pretty old, for America!"))
    } else {
        Some(name.concat(" is relatively new."))
    }
}

/// Adds one to a present value, except that 5 becomes 15; `None` stays
/// `None`.
pub fn plus_one(x: Option<i32>) -> (r: Option<i32>)
    requires
        x != Some(i32::MAX),
    ensures
        r == match x {
            Some(5) => Some(15i32),
            Some(i) => Some((i + 1) as i32),
            None => None::<i32>,
        },
{
    match x {
        Some(5) => Some(5 + 10),
        None => None,
        Some(i) => Some(i + 1),
    }
}

} // verus!
