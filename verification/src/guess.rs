use rand::Rng;
use vstd::prelude::*;
use vstd::string::StringExecFns;

verus! {

/// The lowest number that can be the secret.
pub const LOWEST: u32 = 1;

/// The highest number that can be the secret.
pub const HIGHEST: u32 = 100;

/// How a guess stands to the secret number.
#[derive(Debug, Clone, Copy, PartialEq, Eq, Structural)]
pub enum Verdict {
    TooSmall,
    TooLarge,
    Correct,
}

/// What the game does with one line that the player typed.
#[derive(Debug, Clone, Copy, PartialEq, Eq, Structural)]
pub enum Reply {
    /// The line was no number: ask for another and say nothing.
    AskAgain,
    /// The line was a number: tell the player how it stands to the secret.
    Tell(Verdict),
}

/// `s` without the whitespace at its two ends, as `str::trim` gives it: whitespace
/// is what Unicode marks as White_Space, and is not written out here.
pub uninterp spec fn trimmed(s: Seq<char>) -> Seq<char>;

/// What `str::parse::<u32>` makes of `s`: the number that `s` spells in decimal
/// digits, or `None` where it spells none that fits.
pub uninterp spec fn parsed_u32(s: Seq<char>) -> Option<u32>;

/// How `guess` stands to `secret`.
pub open spec fn verdict_of(guess: u32, secret: u32) -> Verdict {
    if guess < secret {
        Verdict::TooSmall
    } else if guess > secret {
        Verdict::TooLarge
    } else {
        Verdict::Correct
    }
}

/// What the game answers to an entry that was read as `entry`.
pub open spec fn reply_of(entry: Option<u32>, secret: u32) -> Reply {
    match entry {
        Some(guess) => Reply::Tell(verdict_of(guess, secret)),
        None => Reply::AskAgain,
    }
}

/// `s` without leading and trailing whitespace, by `str::trim` of the standard
/// library. Nothing is proved of it: the contract only names what the call
/// returns, which depends on the characters of `s` alone.
#[verifier::external_body]
fn trim(s: &str) -> (r: &str)
    ensures
        r@ == trimmed(s@),
{
    s.trim()
}

/// The number that `s` spells, by `str::parse::<u32>` of the standard library,
/// with its error dropped. Nothing is proved of it: the contract only names what
/// the call returns, which depends on the characters of `s` alone.
#[verifier::external_body]
fn parse_u32(s: &str) -> (r: Option<u32>)
    ensures
        r == parsed_u32(s@),
{
    match s.parse::<u32>() {
        Ok(n) => Some(n),
        Err(_) => None,
    }
}

/// The generator of random numbers that the crate `rand` keeps for each thread.
#[verifier::external_type_specification]
#[verifier::external_body]
pub struct ExThreadRng(rand::rngs::ThreadRng);

/// The calling thread's generator, by `rand::thread_rng`. Nothing is claimed of it.
#[verifier::external_body]
fn thread_generator() -> (rng: rand::rngs::ThreadRng) {
    rand::thread_rng()
}

/// A number drawn by `Rng::gen_range` of the crate `rand` from an inclusive range.
/// The contract claims that the number lies within the two bounds, both included,
/// and nothing of which number it is. The call panics on an empty range, which
/// `requires` leaves out.
#[verifier::external_body]
fn sample_inclusive(rng: &mut rand::rngs::ThreadRng, low: u32, high: u32) -> (n: u32)
    requires
        low <= high,
    ensures
        low <= n <= high,
{
    rng.gen_range(low..=high)
}

/// Draws the secret number of a new game.
pub fn pick_secret() -> (secret: u32)
    ensures
        LOWEST <= secret <= HIGHEST,
{
    let mut rng = thread_generator();
    sample_inclusive(&mut rng, LOWEST, HIGHEST)
}

/// Compares a guess with the secret.
pub fn judge(guess: u32, secret: u32) -> (v: Verdict)
    ensures
        v == verdict_of(guess, secret),
{
    if guess < secret {
        Verdict::TooSmall
    } else if guess > secret {
        Verdict::TooLarge
    } else {
        Verdict::Correct
    }
}

/// The answer to an entry that has been read already.
pub fn reply_to(entry: Option<u32>, secret: u32) -> (r: Reply)
    ensures
        r == reply_of(entry, secret),
{
    match entry {
        Some(guess) => Reply::Tell(judge(guess, secret)),
        None => Reply::AskAgain,
    }
}

/// Reads the number that a typed line spells once the whitespace around it is
/// taken off.
pub fn read_guess(line: &str) -> (entry: Option<u32>)
    ensures
        entry == parsed_u32(trimmed(line@)),
{
    parse_u32(trim(line))
}

/// One turn of the game: reads the line and answers it.
pub fn turn(line: &str, secret: u32) -> (r: Reply)
    ensures
        r == reply_of(parsed_u32(trimmed(line@)), secret),
{
    reply_to(read_guess(line), secret)
}

impl Verdict {
    /// Whether the game is over after this verdict.
    pub fn ends_game(&self) -> (b: bool)
        ensures
            b == (*self == Verdict::Correct),
    {
        match self {
            Verdict::Correct => true,
            _ => false,
        }
    }

    /// What the player is told.
    pub fn message(&self) -> (r: String)
        ensures
            *self == Verdict::TooSmall ==> r@ == "Too Small"@,
            *self == Verdict::TooLarge ==> r@ == "Too Large"@,
            *self == Verdict::Correct ==> r@ == "Ayylmao"@,
    {
        match self {
            Verdict::TooSmall => String::from_str("Too Small"),
            Verdict::TooLarge => String::from_str("Too Large"),
            Verdict::Correct => String::from_str("Ayylmao"),
        }
    }
}

} // verus!
