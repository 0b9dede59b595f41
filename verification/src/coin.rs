//! Coin-toss certification: one pseudo-random draw is classified by parity
//! (even is head, odd is tail) and held against the user's guess. A matching
//! guess passes; a mismatch is a certification failure.

use vstd::prelude::*;

use crate::choice::Choice;
use crate::outcome::CertOutcome;

verus! {

/// The coin side a random draw stands for: even draws are heads,
/// odd draws are tails.
pub open spec fn spec_classify(draw: u32) -> Choice {
    if draw % 2 == 0 {
        Choice::Head
    } else {
        Choice::Tail
    }
}

/// How a guess fares against a draw: pass exactly when the guess names
/// the side the draw classifies to.
pub open spec fn spec_judge(guess: Choice, draw: u32) -> CertOutcome {
    if guess == spec_classify(draw) {
        CertOutcome::Pass
    } else {
        CertOutcome::Fail
    }
}

/// Classify one draw by parity.
pub fn classify(draw: u32) -> (c: Choice)
    ensures
        c == spec_classify(draw),
{
    if draw % 2 == 0 {
        Choice::Head
    } else {
        Choice::Tail
    }
}

/// Judge a guess against a draw.
pub fn judge(guess: Choice, draw: u32) -> (r: CertOutcome)
    ensures
        r == spec_judge(guess, draw),
{
    let side = classify(draw);
    if guess == side {
        CertOutcome::Pass
    } else {
        CertOutcome::Fail
    }
}

/// Classification is a function of the draw alone, so a guess equal to the
/// classification always passes and never aborts, whatever the draw was.
pub proof fn lemma_matching_guess_wins(draw: u32)
    ensures
        spec_judge(spec_classify(draw), draw) == CertOutcome::Pass,
{
}

/// A guess passes exactly when its parity convention holds of the draw:
/// heads on an even draw, tails on an odd one.
pub proof fn lemma_judge_by_parity(guess: Choice, draw: u32)
    ensures
        spec_judge(guess, draw) == CertOutcome::Pass <==> (draw % 2 == 0 <==> guess
            == Choice::Head),
{
}

/// Relies on rand::random: one uniformly drawn u32. Nothing is promised of
/// the value; every caller must hold for every outcome.
#[verifier::external_body]
fn random_u32() -> u32 {
    rand::random::<u32>()
}

/// Draw the server's coin and judge the guess against it. The outcome is
/// pinned to whatever draw came back, which is returned alongside it.
pub fn toss(guess: Choice) -> (r: (u32, CertOutcome))
    ensures
        r.1 == spec_judge(guess, r.0),
{
    let draw = random_u32();
    let outcome = judge(guess, draw);
    (draw, outcome)
}

} // verus!
