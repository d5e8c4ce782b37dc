use vstd::prelude::*;
use rand::rngs::ThreadRng;

use crate::parse::{decimal_u32, parse_u32, trim, trimmed};

verus! {

#[verifier::external_type_specification]
#[verifier::external_body]
pub struct ExThreadRng(ThreadRng);

/// `rand::rng`: a handle on the generator of the current thread, seeded by the operating
/// system. Nothing is promised of it.
#[verifier::external_body]
fn thread_rng() -> ThreadRng {
    rand::rng()
}

/// `Rng::random_range` over `low..=high`: its documentation promises a value in the range
/// and a panic only when the range is empty, which `requires` leaves out. Which value comes
/// is chance.
#[verifier::external_body]
fn random_between(rng: &mut ThreadRng, low: u32, high: u32) -> (r: u32)
    requires
        low <= high,
    ensures
        low <= r <= high,
{
    rand::Rng::random_range(rng, low..=high)
}

/// How a guess compares with the secret number.
#[derive(Debug, PartialEq, Eq, Structural, Clone, Copy)]
pub enum Verdict {
    TooSmall,
    TooBig,
    Correct,
}

/// The verdict on `guess` for the secret `secret`.
pub open spec fn verdict_of(guess: u32, secret: u32) -> Verdict {
    if guess < secret {
        Verdict::TooSmall
    } else if guess > secret {
        Verdict::TooBig
    } else {
        Verdict::Correct
    }
}

/// A secret number between 1 and 100, both included, drawn at random.
pub fn secret_number() -> (r: u32)
    ensures
        1 <= r <= 100,
{
    let mut rng = thread_rng();
    random_between(&mut rng, 1, 100)
}

/// Compares the guess with the secret number.
pub fn compare_guess(guess: u32, secret: u32) -> (r: Verdict)
    ensures
        r == verdict_of(guess, secret),
{
    if guess < secret {
        Verdict::TooSmall
    } else if guess > secret {
        Verdict::TooBig
    } else {
        Verdict::Correct
    }
}

/// The number a line typed by the player stands for: the line without surrounding white
/// space (the newline included), read as a `u32`. `None` when it is not such a number.
pub fn read_guess(line: &str) -> (r: Option<u32>)
    ensures
        r == decimal_u32(trimmed(line@)),
{
    parse_u32(trim(line))
}

/// One turn of the game: `None` when the line is not a number (the player is asked
/// again), else the verdict on the number.
pub fn check_guess(line: &str, secret: u32) -> (r: Option<Verdict>)
    ensures
        r == match decimal_u32(trimmed(line@)) {
            Some(guess) => Some(verdict_of(guess, secret)),
            None => None,
        },
{
    match read_guess(line) {
        Some(guess) => Some(compare_guess(guess, secret)),
        None => None,
    }
}

impl Verdict {
    /// What the game prints for this verdict.
    pub fn message(&self) -> (r: &'static str)
        ensures
            r@ == match *self {
                Verdict::TooSmall => "Too small!"@,
                Verdict::TooBig => "Too big!"@,
                Verdict::Correct => "Correct!"@,
            },
    {
        match self {
            Verdict::TooSmall => "Too small!",
            Verdict::TooBig => "Too big!",
            Verdict::Correct => "Correct!",
        }
    }
}

/// Only the secret itself is judged correct, and every other number is judged too small
/// or too big according to its side of the secret.
pub proof fn law_only_the_secret_is_correct(guess: u32, secret: u32)
    ensures
        (verdict_of(guess, secret) == Verdict::Correct) <==> guess == secret,
        (verdict_of(guess, secret) == Verdict::TooSmall) <==> guess < secret,
        (verdict_of(guess, secret) == Verdict::TooBig) <==> guess > secret,
{
}

} // verus!
