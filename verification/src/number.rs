//! Number certification: a user-supplied integer must equal a fixed
//! expected constant. A missing flag is an input error; a present but
//! wrong number is a certification failure.

use vstd::prelude::*;

use crate::outcome::CertOutcome;

verus! {

/// The one number the check certifies.
pub const EXPECTED_NUMBER: i32 = 5;

/// What the program decides from the optional `--number` flag:
/// no flag at all is a usage error (exit 1), a flag carrying the expected
/// number passes, any other number is a certification failure (abort).
#[derive(Clone, Copy, Debug, PartialEq, Eq, Structural)]
pub enum NumberDecision {
    MissingFlag,
    Pass(i32),
    Fail(i32),
}

pub open spec fn spec_number_decision(arg: Option<i32>) -> NumberDecision {
    match arg {
        Option::None => NumberDecision::MissingFlag,
        Option::Some(n) => if n == EXPECTED_NUMBER {
            NumberDecision::Pass(n)
        } else {
            NumberDecision::Fail(n)
        },
    }
}

/// Certify a number that was supplied: pass exactly on the expected constant.
pub fn certify_number(n: i32) -> (r: CertOutcome)
    ensures
        r == CertOutcome::Pass <==> n == EXPECTED_NUMBER,
        r == CertOutcome::Fail <==> n != EXPECTED_NUMBER,
{
    if n == EXPECTED_NUMBER {
        CertOutcome::Pass
    } else {
        CertOutcome::Fail
    }
}

/// The full decision on the optional flag, usage error included.
pub fn number_decision(arg: Option<i32>) -> (d: NumberDecision)
    ensures
        d == spec_number_decision(arg),
{
    match arg {
        Option::None => NumberDecision::MissingFlag,
        Option::Some(n) => {
            match certify_number(n) {
                CertOutcome::Pass => NumberDecision::Pass(n),
                CertOutcome::Fail => NumberDecision::Fail(n),
            }
        },
    }
}

} // verus!
