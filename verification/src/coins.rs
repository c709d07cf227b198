//! Enums and the `match` control flow construct: addresses, messages, coins.

use vstd::prelude::*;

verus! {

/// An IP address carrying its textual form in each variant.
#[derive(Debug)]
pub enum IpAddr {
    V4(String),
    V6(String),
}

/// A message, where each variant carries different data.
#[derive(Debug)]
pub enum Message {
    Quit,
    Move { x: i32, y: i32 },
    Write(String),
    ChangeColor(i32, i32, i32),
}

/// The states whose quarters the sorter distinguishes.
#[derive(Debug, Clone, Copy, PartialEq, Eq, Structural)]
pub enum UsState {
    Alabama,
    Alaska,
}

/// A coin to be sorted by value.
#[derive(Debug, Clone, Copy, PartialEq, Eq, Structural)]
pub enum Coin {
    Penny,
    Nickel,
    Dime,
    Quarter(UsState),
}

/// Each coin's value in cents.
pub open spec fn coin_value(coin: Coin) -> u8 {
    match coin {
        Coin::Penny => 1u8,
        Coin::Nickel => 5u8,
        Coin::Dime => 10u8,
        Coin::Quarter(_) => 25u8,
    }
}

/// Sorts a coin to its value in cents, like a coin-sorting machine.
pub fn value_in_cents(coin: Coin) -> (r: u8)
    ensures
        r == coin_value(coin),
{
    match coin {
        Coin::Penny => 1,
        Coin::Nickel => 5,
        Coin::Dime => 10,
        Coin::Quarter(_state) => 25,
    }
}

/// Adds one inside the `Option`, leaving `None` as it is.
pub fn plus_one(x: Option<i32>) -> (r: Option<i32>)
    requires
        x is Some ==> x->0 < i32::MAX,
    ensures
        match x {
            None => r is None,
            Some(i) => r == Some((i + 1) as i32),
        },
{
    match x {
        None => None,
        Some(i) => Some(i + 1),
    }
}

} // verus!
