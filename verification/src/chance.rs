//! The random draws of the game, made with the thread-local generator of `rand`.

use rand::seq::SliceRandom;
use rand::Rng;
use vstd::prelude::*;

verus! {

/// Draws a number with `rand::Rng::gen_range` over the half-open range
/// `low..high`, on `rand::thread_rng()`. Trusted: the range must not be empty,
/// and the number drawn lies in it. Nothing is claimed of which number it is.
#[verifier::external_body]
pub(crate) fn draw_below(low: u32, high: u32) -> (n: u32)
    requires
        low < high,
    ensures
        low <= n < high,
{
    rand::thread_rng().gen_range(low..high)
}

/// Picks an item with `rand::seq::SliceRandom::choose`, on
/// `rand::thread_rng()`. Trusted: an empty list gives `None`; any other list
/// gives one of its items. Nothing is claimed of which item it is.
#[verifier::external_body]
pub(crate) fn choose_one<'a>(items: &'a Vec<String>) -> (pick: Option<&'a String>)
    ensures
        items@.len() == 0 ==> pick is None,
        items@.len() > 0 ==> pick is Some && items@.contains(*pick->0),
{
    items.choose(&mut rand::thread_rng())
}

} // verus!
