//! Small enums: addresses, coins, and arithmetic on optional numbers.
use vstd::prelude::*;

verus! {

/// An IP address, either four octets or IPv6 text.
pub enum IpAddr {
    V4(u8, u8, u8, u8),
    V6(String),
}

#[derive(Debug, Clone, Copy, PartialEq, Eq, Structural)]
pub enum UsState {
    Alabama,
    Alaska,
}

#[derive(Debug, Clone, Copy, PartialEq, Eq, Structural)]
pub enum Coin {
    Penny,
    Nickel,
    Dime,
    Quarter(UsState),
}

/// What a coin is worth in cents.
pub open spec fn cents(coin: Coin) -> u8 {
    match coin {
        Coin::Penny => 1,
        Coin::Nickel => 5,
        Coin::Dime => 10,
        Coin::Quarter(_) => 25,
    }
}

/// What a coin is worth in cents.
pub fn value_in_cents(coin: Coin) -> (v: u8)
    ensures
        v == cents(coin),
{
    match coin {
        Coin::Penny => 1,
        Coin::Nickel => 5,
        Coin::Dime => 10,
        Coin::Quarter(_) => 25,
    }
}

/// Adds one to a present number and keeps an absent one absent; the number
/// must be below `i32::MAX`.
pub fn plus_one(x: Option<i32>) -> (r: Option<i32>)
    requires
        x matches Some(n) ==> n < i32::MAX,
    ensures
        r == match x {
            Some(n) => Some((n + 1) as i32),
            None => None::<i32>,
        },
{
    match x {
        None => None,
        Some(n) => Some(n + 1),
    }
}

} // verus!
