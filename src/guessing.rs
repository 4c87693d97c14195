use vstd::prelude::*;
use rand::Rng;

verus! {

/// Relies on rand's `Rng::gen_range(low, high)` on the thread-local
/// generator: a value in `[low, high)`; it panics when `low >= high`.
#[verifier::external_body]
fn draw_in_range(low: i32, high: i32) -> (r: i32)
    requires
        low < high,
    ensures
        low <= r < high,
{
    rand::thread_rng().gen_range(low, high)
}

/// The number to be guessed, drawn at random from 1 to 100.
pub fn secret_number() -> (r: i32)
    ensures
        1 <= r <= 100,
{
    draw_in_range(1, 101)
}

/// How a guess compares with the secret.
#[derive(PartialEq, Eq, Structural, Clone, Copy, Debug)]
pub enum Verdict {
    TooSmall,
    TooBig,
    Win,
}

/// What the game does after reading one line.
#[derive(PartialEq, Eq, Structural, Clone, Copy, Debug)]
pub enum Step {
    /// The line held no number: ask again.
    AskAgain,
    /// The guess was judged; the game ends on a win.
    Judged(Verdict),
}

impl Verdict {
    /// Whether the game ends with this verdict.
    pub fn is_final(&self) -> (r: bool)
        ensures
            r == (*self == Verdict::Win),
    {
        match self {
            Verdict::Win => true,
            _ => false,
        }
    }

    /// The line shown to the player.
    pub fn message(&self) -> (r: &'static str)
        ensures
            r@ == verdict_line(*self),
    {
        match self {
            Verdict::TooSmall => "Too small!",
            Verdict::TooBig => "Too big!",
            Verdict::Win => "You win!",
        }
    }
}

/// The line shown for each verdict.
pub open spec fn verdict_line(v: Verdict) -> Seq<char> {
    match v {
        Verdict::TooSmall => "Too small!"@,
        Verdict::TooBig => "Too big!"@,
        Verdict::Win => "You win!"@,
    }
}

/// Compares a guess with the secret.
pub fn judge(guess: i32, secret: i32) -> (r: Verdict)
    ensures
        r == Verdict::TooSmall <==> guess < secret,
        r == Verdict::TooBig <==> guess > secret,
        r == Verdict::Win <==> guess == secret,
{
    if guess < secret {
        Verdict::TooSmall
    } else if guess > secret {
        Verdict::TooBig
    } else {
        Verdict::Win
    }
}

/// Decides the game's next step from the number read from the player's line,
/// if the line held one.
pub fn step(guess: Option<i32>, secret: i32) -> (r: Step)
    ensures
        match guess {
            None => r == Step::AskAgain,
            Some(g) => r == Step::Judged(
                if g < secret {
                    Verdict::TooSmall
                } else if g > secret {
                    Verdict::TooBig
                } else {
                    Verdict::Win
                },
            ),
        },
{
    match guess {
        None => Step::AskAgain,
        Some(g) => Step::Judged(judge(g, secret)),
    }
}

} // verus!
