//! Why an action was rejected.

use crate::types::{PlayerId, PropertyId};
use vstd::prelude::*;

verus! {

/// The reasons for which the game rejects an action, each with the player
/// or the property that it is about.
#[derive(Copy, Clone, Debug, PartialEq, Eq, Structural)]
pub enum ErrorKind {
    UnknownPlayer(PlayerId),
    UnknownProperty(PropertyId),
    /// The player does not own what the action disposes of.
    NotOwner(PlayerId),
    InsufficientFunds(PlayerId),
    PropertyAlreadyOwned(PropertyId),
    InvalidBuildingState(PropertyId),
    /// Kept for the day that turns are enforced: no rule gives it yet.
    NotPlayersTurn(PlayerId),
    /// The player gave up and plays no more.
    PlayerInactive(PlayerId),
    /// The player would pay a fine for a jail that the player is not in.
    NotInJail(PlayerId),
    /// An amount is negative, or the player would hold more than a balance
    /// or a hand of cards can count.
    AmountOutOfRange(PlayerId),
}

/// A rejection as text.
#[derive(Clone, Debug, PartialEq)]
pub struct StateError {
    pub message: String,
}

/// The character of a digit.
pub open spec fn digit(d: int) -> char {
    if d == 0 {
        '0'
    } else if d == 1 {
        '1'
    } else if d == 2 {
        '2'
    } else if d == 3 {
        '3'
    } else if d == 4 {
        '4'
    } else if d == 5 {
        '5'
    } else if d == 6 {
        '6'
    } else if d == 7 {
        '7'
    } else if d == 8 {
        '8'
    } else {
        '9'
    }
}

/// A natural number in decimal, without leading zeros.
pub open spec fn digits(n: nat) -> Seq<char>
    decreases n,
{
    if n < 10 {
        seq![digit(n as int)]
    } else {
        digits(n / 10).push(digit((n % 10) as int))
    }
}

/// An integer in decimal, with a minus sign where it is negative.
pub open spec fn decimal(n: int) -> Seq<char> {
    if n < 0 {
        seq!['-'] + digits((-n) as nat)
    } else {
        digits(n as nat)
    }
}

/// Puts a number between two pieces of text. The body hands the three to
/// `format!`, which writes an `i8` through its `Display`: in decimal, with a
/// minus sign where it is negative and no padding.
#[verifier::external_body]
fn numbered(before: &str, n: i8, after: &str) -> (s: String)
    ensures
        s@ == before@ + decimal(n as int) + after@,
{
    format!("{}{}{}", before, n, after)
}

impl ErrorKind {
    /// The number of the player or property that the rejection is about.
    pub open spec fn spec_subject(self) -> i8 {
        match self {
            ErrorKind::UnknownPlayer(p) => p.0,
            ErrorKind::UnknownProperty(q) => q.0,
            ErrorKind::NotOwner(p) => p.0,
            ErrorKind::InsufficientFunds(p) => p.0,
            ErrorKind::PropertyAlreadyOwned(q) => q.0,
            ErrorKind::InvalidBuildingState(q) => q.0,
            ErrorKind::NotPlayersTurn(p) => p.0,
            ErrorKind::PlayerInactive(p) => p.0,
            ErrorKind::NotInJail(p) => p.0,
            ErrorKind::AmountOutOfRange(p) => p.0,
        }
    }

    /// How the sentence starts, up to the number.
    pub open spec fn spec_opening(self) -> &'static str {
        match self {
            ErrorKind::UnknownProperty(_) => "property ",
            ErrorKind::PropertyAlreadyOwned(_) => "property ",
            ErrorKind::InvalidBuildingState(_) => "property ",
            _ => "player ",
        }
    }

    /// How the sentence ends, after the number.
    pub open spec fn spec_closing(self) -> &'static str {
        match self {
            ErrorKind::UnknownPlayer(_) => " is not a valid player",
            ErrorKind::UnknownProperty(_) => " is not a valid property",
            ErrorKind::NotOwner(_) => " is not the owner",
            ErrorKind::InsufficientFunds(_) => " has insufficient funds",
            ErrorKind::PropertyAlreadyOwned(_) => " is already owned",
            ErrorKind::InvalidBuildingState(_) => " is in an invalid building state",
            ErrorKind::NotPlayersTurn(_) => " is not on turn",
            ErrorKind::PlayerInactive(_) => " is inactive",
            ErrorKind::NotInJail(_) => " is not in jail",
            ErrorKind::AmountOutOfRange(_) => " has an amount out of range",
        }
    }

    /// The rejection as a sentence: for an unknown player 3,
    /// "player 3 is not a valid player".
    pub open spec fn spec_message(self) -> Seq<char> {
        self.spec_opening()@ + decimal(self.spec_subject() as int) + self.spec_closing()@
    }

    pub fn subject(&self) -> (n: i8)
        ensures
            n == self.spec_subject(),
    {
        match self {
            ErrorKind::UnknownPlayer(p) => p.0,
            ErrorKind::UnknownProperty(q) => q.0,
            ErrorKind::NotOwner(p) => p.0,
            ErrorKind::InsufficientFunds(p) => p.0,
            ErrorKind::PropertyAlreadyOwned(q) => q.0,
            ErrorKind::InvalidBuildingState(q) => q.0,
            ErrorKind::NotPlayersTurn(p) => p.0,
            ErrorKind::PlayerInactive(p) => p.0,
            ErrorKind::NotInJail(p) => p.0,
            ErrorKind::AmountOutOfRange(p) => p.0,
        }
    }

    fn opening(&self) -> (s: &'static str)
        ensures
            s == self.spec_opening(),
    {
        match self {
            ErrorKind::UnknownProperty(_) => "property ",
            ErrorKind::PropertyAlreadyOwned(_) => "property ",
            ErrorKind::InvalidBuildingState(_) => "property ",
            _ => "player ",
        }
    }

    fn closing(&self) -> (s: &'static str)
        ensures
            s == self.spec_closing(),
    {
        match self {
            ErrorKind::UnknownPlayer(_) => " is not a valid player",
            ErrorKind::UnknownProperty(_) => " is not a valid property",
            ErrorKind::NotOwner(_) => " is not the owner",
            ErrorKind::InsufficientFunds(_) => " has insufficient funds",
            ErrorKind::PropertyAlreadyOwned(_) => " is already owned",
            ErrorKind::InvalidBuildingState(_) => " is in an invalid building state",
            ErrorKind::NotPlayersTurn(_) => " is not on turn",
            ErrorKind::PlayerInactive(_) => " is inactive",
            ErrorKind::NotInJail(_) => " is not in jail",
            ErrorKind::AmountOutOfRange(_) => " has an amount out of range",
        }
    }

    /// The rejection as a sentence.
    pub fn message(&self) -> (s: String)
        ensures
            s@ == self.spec_message(),
    {
        numbered(self.opening(), self.subject(), self.closing())
    }

    /// The rejection as the error that `apply` returns.
    pub fn to_error(&self) -> (e: StateError)
        ensures
            e.message@ == self.spec_message(),
    {
        StateError { message: self.message() }
    }
}

impl StateError {
    pub fn new(message: &str) -> (e: StateError)
        ensures
            e.message@ == message@,
    {
        StateError { message: message.to_owned() }
    }

    /// The text of the error.
    pub fn description(&self) -> (s: &str)
        ensures
            s@ == self.message@,
    {
        self.message.as_str()
    }
}

} // verus!
