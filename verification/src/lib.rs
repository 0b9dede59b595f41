//! Certification functions: small, single-purpose checks whose pass/fail
//! outcome is the artifact of interest. The library holds the decision logic
//! of each check — price-feed normalization, coin-toss judging, fixed-number
//! and minutes-until-next-hour certification — with contracts stating exactly
//! when each check passes, fails, or rejects its input.

pub mod choice;
pub mod coin;
pub mod number;
pub mod outcome;
pub mod price;
pub mod text;
pub mod timing;
