//! The random choices the backend makes, through the `rand` crate. Nothing is stated of
//! which value comes out, only of the range it comes from.
use vstd::prelude::*;
use rand::Rng;
use rand::seq::SliceRandom;

verus! {

/// Calls `rand::Rng::gen_range(0..n)` on the thread-local generator, which returns a
/// number of `0..n` and panics when that range is empty.
#[verifier::external_body]
pub(crate) fn random_below(n: usize) -> (res: usize)
    requires
        n > 0,
    ensures
        res < n,
{
    rand::thread_rng().gen_range(0..n)
}

/// Calls `rand::seq::SliceRandom::choose` on the thread-local generator, which returns
/// `None` for an empty slice and otherwise one of its elements.
#[verifier::external_body]
pub(crate) fn random_choice<T>(items: &[T]) -> (res: Option<&T>)
    ensures
        res is None <==> items@.len() == 0,
        res matches Some(x) ==> exists|i: int| 0 <= i < items@.len() && items@[i] == *x,
{
    items.choose(&mut rand::thread_rng())
}

/// Calls `rand::seq::SliceRandom::shuffle` on the thread-local generator, which permutes
/// the elements in place.
#[verifier::external_body]
pub(crate) fn random_shuffle<T>(items: &mut Vec<T>)
    ensures
        final(items)@.to_multiset() == old(items)@.to_multiset(),
{
    items.as_mut_slice().shuffle(&mut rand::thread_rng())
}

/// Whether `c` is one of `A-Z`, `a-z`, `0-9`.
pub open spec fn is_ascii_alphanumeric(c: char) -> bool {
    ('A' <= c <= 'Z') || ('a' <= c <= 'z') || ('0' <= c <= '9')
}

/// Draws `len` characters from `rand::distributions::Alphanumeric` with the thread-local
/// generator; that distribution yields the bytes of `A-Za-z0-9`.
#[verifier::external_body]
pub(crate) fn random_alphanumeric(len: usize) -> (res: String)
    ensures
        res@.len() == len,
        forall|i: int| 0 <= i < len ==> is_ascii_alphanumeric(#[trigger] res@[i]),
{
    rand::thread_rng().sample_iter(&rand::distributions::Alphanumeric).take(len).map(char::from).collect()
}

} // verus!
