//! Enums and pattern matching: coins, states and optional numbers.

use vstd::prelude::*;

verus! {

/// The US coins.
#[derive(Debug, Clone, Copy, PartialEq, Eq, Structural)]
pub enum Coin {
    Penny,
    Nickel,
    Dime,
    Quarter,
}

/// The value of a coin in cents.
pub open spec fn cents(coin: Coin) -> u8 {
    match coin {
        Coin::Penny => 1,
        Coin::Nickel => 5,
        Coin::Dime => 10,
        Coin::Quarter => 25,
    }
}

/// The value of a coin in cents.
pub fn value_in_cents(coin: Coin) -> (r: u8)
    ensures
        r == cents(coin),
{
    match coin {
        Coin::Penny => 1,
        Coin::Nickel => 5,
        Coin::Dime => 10,
        Coin::Quarter => 25,
    }
}

/// The states whose designs the state quarters carry.
#[derive(Debug, Clone, Copy, PartialEq, Eq, Structural)]
pub enum UsState {
    Alabama,
    Alaska,
}

/// The year a state joined the union.
pub open spec fn admission_year(state: UsState) -> u16 {
    match state {
        UsState::Alabama => 1819,
        UsState::Alaska => 1959,
    }
}

/// The name of a state, as it is printed.
pub open spec fn state_name(state: UsState) -> Seq<char> {
    match state {
        UsState::Alabama => "Alabama"@,
        UsState::Alaska => "Alaska"@,
    }
}

impl UsState {
    /// Whether the state existed in `year`.
    pub fn existed_in(&self, year: u16) -> (r: bool)
        ensures
            r == (year >= admission_year(*self)),
    {
        match self {
            UsState::Alabama => year >= 1819,
            UsState::Alaska => year >= 1959,
        }
    }

    /// The name of the state, as it is printed.
    pub fn name(&self) -> (r: &'static str)
        ensures
            r@ == state_name(*self),
    {
        match self {
            UsState::Alabama => "Alabama",
            UsState::Alaska => "Alaska",
        }
    }
}

/// A US coin: quarters carry a state design.
#[derive(Debug, Clone, Copy, PartialEq, Eq, Structural)]
pub enum UsCoin {
    Penny,
    Nickel,
    Dime,
    Quarter(UsState),
}

/// The value of a US coin in cents; the state of a quarter does not change it.
pub fn uscoin_value_in_cents(coin: &UsCoin) -> (r: u8)
    ensures
        r == match *coin {
            UsCoin::Penny => 1u8,
            UsCoin::Nickel => 5u8,
            UsCoin::Dime => 10u8,
            UsCoin::Quarter(_) => 25u8,
        },
{
    match coin {
        UsCoin::Penny => 1,
        UsCoin::Nickel => 5,
        UsCoin::Dime => 10,
        UsCoin::Quarter(_) => 25,
    }
}

/// Adds one to the number, if there is one.
pub fn plus_one(x: Option<i32>) -> (r: Option<i32>)
    requires
        x matches Some(i) ==> i < i32::MAX,
    ensures
        match x {
            None => r is None,
            Some(i) => r == Some((i + 1) as i32),
        },
{
    match x {
        None => None,
        Some(i) => Some(i + 1),
    }
}

/// How a state quarter is described: states that existed in 1900 are old.
pub open spec fn quarter_description(state: UsState) -> Seq<char> {
    if admission_year(state) <= 1900 {
        state_name(state) + " is pretty old, for America!"@
    } else {
        state_name(state) + " is relatively new."@
    }
}

fn describe(state: UsState) -> (r: String)
    ensures
        r@ == quarter_description(state),
{
    let mut text = state.name().to_owned();
    if state.existed_in(1900) {
        text.append(" is pretty old, for America!");
    } else {
        text.append(" is relatively new.");
    }
    text
}

/// Describes the state of a quarter; other coins have no description.
pub fn describe_state_quarter(coin: UsCoin) -> (r: Option<String>)
    ensures
        match coin {
            UsCoin::Quarter(state) => r matches Some(s) && s@ == quarter_description(state),
            _ => r is None,
        },
{
    let state = if let UsCoin::Quarter(state) = coin {
        state
    } else {
        return None;
    };
    Some(describe(state))
}

/// Describes the state of a quarter, unwrapping the coin with `let ... else`.
pub fn describe_state_quarter2(coin: UsCoin) -> (r: Option<String>)
    ensures
        match coin {
            UsCoin::Quarter(state) => r matches Some(s) && s@ == quarter_description(state),
            _ => r is None,
        },
{
    let UsCoin::Quarter(state) = coin else {
        return None;
    };
    Some(describe(state))
}

/// A roll of 3 wins a fancy hat.
pub fn add_fancy_hat() {
}

/// A roll of 7 loses the fancy hat.
pub fn remove_fancy_hat() {
}

/// Any other roll moves the player that many spaces.
pub fn move_player(_other: i32) {
}

/// The years of admission: Alabama exists in every year from 1819 on, Alaska from 1959
/// on, and in no earlier year.
pub proof fn law_admission_years(state: UsState, year: u16)
    ensures
        state == UsState::Alabama ==> ((year >= admission_year(state)) <==> year >= 1819),
        state == UsState::Alaska ==> ((year >= admission_year(state)) <==> year >= 1959),
{
}

/// The quarter of a state admitted by 1900 is called old, the other one new: Alabama's is
/// old and Alaska's new.
pub proof fn law_quarter_age(state: UsState)
    ensures
        state == UsState::Alabama ==> quarter_description(state) == state_name(state)
            + " is pretty old, for America!"@,
        state == UsState::Alaska ==> quarter_description(state) == state_name(state)
            + " is relatively new."@,
{
}

} // verus!
