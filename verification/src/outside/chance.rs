//! Random choices, from `rand`.

use rand::seq::IteratorRandom;
use rand::RngExt;
use vstd::prelude::*;

verus! {

/// Calls `IteratorRandom::choose` on the items with the thread's generator
/// `rand::rng()`: one of the items, each equally likely, and `None` exactly
/// when there is none.
#[verifier::external_body]
pub(crate) fn choose_one<T>(items: Vec<T>) -> (r: Option<T>)
    ensures
        r is None <==> items@.len() == 0,
        r is Some ==> items@.contains(r->0),
{
    items.into_iter().choose(&mut rand::rng())
}

/// Samples `rand::distr::Alphanumeric` with the thread's generator: the
/// code of an ASCII letter or digit.
#[verifier::external_body]
pub(crate) fn random_alphanumeric() -> (r: u8)
    ensures
        0x30 <= r <= 0x39 || 0x41 <= r <= 0x5A || 0x61 <= r <= 0x7A,
{
    rand::rng().sample(rand::distr::Alphanumeric)
}

} // verus!
