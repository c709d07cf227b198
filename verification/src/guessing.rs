//! The number-guessing game's core: a secret in a fixed range, a die roll,
//! and the comparison of a guess against the secret.

use rand::Rng;
use vstd::prelude::*;

verus! {

/// Relies on `rand::Rng::gen_range` on a `rand::rngs::ThreadRng`: the result
/// lies in the half-open range handed to it. Nothing else can be said of a
/// random draw.
#[verifier::external_body]
fn random_in(lo: u32, hi: u32) -> (r: u32)
    requires
        lo < hi,
    ensures
        lo <= r < hi,
{
    rand::thread_rng().gen_range(lo..hi)
}

/// A fresh secret for one round of the game, between 1 and 100.
pub fn secret_number() -> (r: u32)
    ensures
        1 <= r <= 100,
{
    random_in(1, 101)
}

/// One roll of a six-sided die.
pub fn roll_die() -> (r: u32)
    ensures
        1 <= r <= 6,
{
    random_in(1, 7)
}

/// How a guess compares against the secret.
#[derive(Debug, Clone, Copy, PartialEq, Eq, Structural)]
pub enum GuessOutcome {
    /// The guess is below the secret.
    TooSmall,
    /// The guess is above the secret.
    TooBig,
    /// The guess hits the secret: the round is won.
    Win,
}

/// Compares one guess against the secret.
pub fn evaluate_guess(guess: u32, secret: u32) -> (r: GuessOutcome)
    ensures
        r is TooSmall <==> guess < secret,
        r is TooBig <==> guess > secret,
        r is Win <==> guess == secret,
{
    if guess < secret {
        GuessOutcome::TooSmall
    } else if guess > secret {
        GuessOutcome::TooBig
    } else {
        GuessOutcome::Win
    }
}

} // verus!
