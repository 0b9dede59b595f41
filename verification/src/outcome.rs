use vstd::prelude::*;

verus! {

/// The terminal outcome of a certification check. `Fail` stands for the
/// fatal assertion failure (process abort) that distinguishes a wrong but
/// well-formed input from a malformed one; the latter is reported through
/// each check's own input-error path, never through this type.
#[derive(Clone, Copy, Debug, PartialEq, Eq, Structural)]
pub enum CertOutcome {
    Pass,
    Fail,
}

} // verus!
