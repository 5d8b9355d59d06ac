//! The exchanges that a bot can trade on.

use crate::text::text_eq;
use vstd::prelude::*;

verus! {

/// The name under which Bybit is written.
pub const BYBIT: &'static str = "bybit";

#[derive(Clone, Copy, Debug, PartialEq, Eq, Structural)]
pub enum Exchange {
    Bybit,
}

impl Default for Exchange {
    fn default() -> (exchange: Self)
        ensures
            exchange == Exchange::Bybit,
    {
        Exchange::Bybit
    }
}

/// What `str::to_lowercase` makes of a text.
pub uninterp spec fn lowercase_of(s: Seq<char>) -> Seq<char>;

/// `str::to_lowercase`: the lowercase form of `s` by the rules of Unicode.
/// The result depends on the characters of `s` alone; the contract gives it
/// a name and says nothing else of it.
#[verifier::external_body]
fn lowercase(s: &str) -> (lower: String)
    ensures
        lower@ == lowercase_of(s@),
{
    s.to_lowercase()
}

impl Exchange {
    /// The exchange that a lowercase name stands for.
    pub open spec fn named(lower: Seq<char>) -> Option<Exchange> {
        if lower == BYBIT@ {
            Some(Exchange::Bybit)
        } else {
            None
        }
    }

    /// The exchange with this name, written in lowercase.
    pub fn from_lowercase(lower: &str) -> (exchange: Option<Self>)
        ensures
            exchange == Self::named(lower@),
    {
        if text_eq(lower, BYBIT) {
            Some(Exchange::Bybit)
        } else {
            None
        }
    }

    /// The exchange with this name, in whatever case it is written.
    pub fn from_str(s: &str) -> (exchange: Option<Self>)
        ensures
            exchange == Self::named(lowercase_of(s@)),
    {
        let lower = lowercase(s);
        Self::from_lowercase(lower.as_str())
    }

    /// The name of the exchange, in lowercase.
    pub fn as_str(&self) -> (name: &'static str)
        ensures
            name@ == BYBIT@,
            Self::named(name@) == Some(*self),
    {
        match self {
            Exchange::Bybit => BYBIT,
        }
    }
}

} // verus!
