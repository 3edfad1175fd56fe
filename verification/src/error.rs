//! The typed failures surfaced by the engine. Every failure is terminal for
//! the enclosing request: no operation mutates state before returning one.

use vstd::prelude::*;

verus! {

#[derive(Clone, Copy, Debug, PartialEq, Eq, Structural)]
pub enum ContractError {
    /// The referenced token id does not exist.
    NotFound,
    /// The authorization oracle denied the acting address.
    Unauthorized,
    /// A caller-supplied approval or operator expiration is already expired.
    Expired,
    /// A royalty percentage above 100 at configuration time, or royalty
    /// fields supplied at mint time.
    InvalidConfiguration,
    /// A mint request named a token id that already exists.
    Claimed,
}

} // verus!
