//! The failures the protocol reports, and how they read.

use vstd::prelude::*;
use vstd::string::*;

verus! {

/// The ten decimal digits.
pub open spec fn digit(d: nat) -> char
    recommends
        d < 10,
{
    seq!['0', '1', '2', '3', '4', '5', '6', '7', '8', '9'][d as int]
}

/// A number written in decimal, without leading zeros.
pub open spec fn decimal(n: nat) -> Seq<char>
    decreases n,
{
    if n < 10 {
        seq![digit(n)]
    } else {
        decimal(n / 10).push(digit(n % 10))
    }
}

/// One decimal digit as text.
fn digit_text(d: u128) -> (text: &'static str)
    requires
        d < 10,
    ensures
        text@ == seq![digit(d as nat)],
{
    proof {
        reveal_strlit("0");
        reveal_strlit("1");
        reveal_strlit("2");
        reveal_strlit("3");
        reveal_strlit("4");
        reveal_strlit("5");
        reveal_strlit("6");
        reveal_strlit("7");
        reveal_strlit("8");
        reveal_strlit("9");
    }
    let text: &'static str = if d == 0 {
        "0"
    } else if d == 1 {
        "1"
    } else if d == 2 {
        "2"
    } else if d == 3 {
        "3"
    } else if d == 4 {
        "4"
    } else if d == 5 {
        "5"
    } else if d == 6 {
        "6"
    } else if d == 7 {
        "7"
    } else if d == 8 {
        "8"
    } else {
        "9"
    };
    assert(text@ =~= seq![digit(d as nat)]);
    text
}

/// Appends a number in decimal to a text.
fn append_decimal(text: &mut String, n: u128)
    ensures
        final(text)@ == old(text)@ + decimal(n as nat),
    decreases n,
{
    if n >= 10 {
        append_decimal(text, n / 10);
    }
    text.append(digit_text(n % 10));
    assert(text@ =~= old(text)@ + decimal(n as nat));
}

/// The region is too small for its tick byte, lock and payload.
#[derive(Clone, Copy, Debug, PartialEq, Eq)]
pub struct CapacityError {
    shortfall: u128,
}

impl CapacityError {
    /// The number of bytes by which the region falls short.
    pub closed spec fn missing(&self) -> nat {
        self.shortfall as nat
    }

    /// An error for a region that lacks `shortfall` bytes.
    pub fn new(shortfall: u128) -> (e: CapacityError)
        ensures
            e.missing() == shortfall,
    {
        CapacityError { shortfall }
    }

    /// The number of bytes by which the region falls short.
    pub fn shortfall(&self) -> (n: u128)
        ensures
            n == self.missing(),
    {
        self.shortfall
    }

    /// The error in words, with the number of missing bytes in decimal.
    pub fn message(&self) -> (text: String)
        ensures
            text@ == "Shared memory not enough, "@ + decimal(self.missing())
                + " extra bytes needed"@,
    {
        let mut text = String::from_str("Shared memory not enough, ");
        append_decimal(&mut text, self.shortfall);
        text.append(" extra bytes needed");
        text
    }
}

/// The publisher has closed the region: the watched value is gone, and no
/// further write will come.
#[derive(Clone, Copy, Debug, PartialEq, Eq)]
pub struct Gone;

impl Gone {
    /// The error in words.
    pub fn message(&self) -> (text: String)
        ensures
            text@ == "watched value is gone"@,
    {
        String::from_str("watched value is gone")
    }
}

} // verus!
