//! Session nonces: one random number per session, by which two peers that reconnect at the same
//! time settle who goes first.
use vstd::prelude::*;

verus! {

/// Calls `rand::random::<u64>`. Any value may come back, and a different one each time; nothing is
/// claimed of it. (The call panics where the system has no entropy to give, which no argument can
/// rule out.)
#[verifier::external_body]
fn random_u64() -> (n: u64) {
    rand::random::<u64>()
}

/// `n` is what a draw of a random number can bring.
pub closed spec fn is_draw(n: u64) -> bool {
    call_ensures(random_u64, (), n)
}

/// Draws a random number.
pub(crate) fn draw() -> (n: u64)
    ensures
        is_draw(n),
{
    random_u64()
}

/// A row of draws in which each but the last brought zero. The last brought another number, unless
/// more zeros came in a row than a machine can draw.
pub open spec fn is_row_of_draws(draws: Seq<u64>) -> bool {
    &&& draws.len() > 0
    &&& forall|i: int| 0 <= i < draws.len() ==> is_draw(#[trigger] draws[i])
    &&& forall|i: int| 0 <= i < draws.len() - 1 ==> #[trigger] draws[i] == 0
    &&& draws.last() != 0 || draws.len() == u64::MAX + 1
}

/// The nonce that a row of draws comes to: its last number, or 1 where even that is zero.
pub open spec fn nonce_of(draws: Seq<u64>) -> u64 {
    if draws.last() == 0 {
        1
    } else {
        draws.last()
    }
}

/// `n` is the nonce that some row of draws comes to.
pub open spec fn is_session_nonce(n: u64) -> bool {
    exists|draws: Seq<u64>| #[trigger] is_row_of_draws(draws) && n == nonce_of(draws)
}

/// A nonce for a receiver session, which is never zero: it is the first number drawn that is not.
///
/// The number of draws is bounded, by more than a machine can make, so that the loop ends.
pub fn nonzero_session_nonce() -> (n: u64)
    ensures
        n != 0,
        is_session_nonce(n),
{
    let mut n: u64 = draw();
    let mut draws_left: u64 = u64::MAX;
    let ghost mut draws: Seq<u64> = seq![n];
    while n == 0 && draws_left > 0
        invariant
            draws.len() + draws_left == u64::MAX + 1,
            draws.len() > 0,
            draws.last() == n,
            forall|i: int| 0 <= i < draws.len() ==> is_draw(#[trigger] draws[i]),
            forall|i: int| 0 <= i < draws.len() - 1 ==> #[trigger] draws[i] == 0,
        decreases draws_left,
    {
        n = draw();
        draws_left = draws_left - 1;
        proof {
            draws = draws.push(n);
        }
    }
    assert(is_row_of_draws(draws));
    if n == 0 {
        1
    } else {
        n
    }
}

/// What counts as a draw is what the random number generator gave.
proof fn law_draws_come_from_the_generator(n: u64)
    requires
        is_draw(n),
    ensures
        call_ensures(random_u64, (), n),
{
}

/// The nonce of a row of draws is the first number in it that is not zero: it was drawn, everything
/// before it was zero, and nothing comes after it.
pub proof fn law_nonce_is_the_first_nonzero_draw(draws: Seq<u64>, i: int)
    requires
        is_row_of_draws(draws),
        0 <= i < draws.len() <= u64::MAX,
    ensures
        nonce_of(draws) == draws.last(),
        is_draw(nonce_of(draws)),
        draws[i] != 0 <==> i == draws.len() - 1,
{
}

/// A receiver's nonce is never zero.
pub proof fn law_nonce_is_not_zero(n: u64)
    requires
        is_session_nonce(n),
    ensures
        n != 0,
{
}

} // verus!
