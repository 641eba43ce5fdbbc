//! The outcome oracle: a deterministic win/lose verdict from caller-supplied
//! entropy.
//!
//! The oracle performs no I/O; the entropy value comes from whatever external
//! time or parameter source the caller consults. Given that value the verdict
//! is a pure function: the residue of the entropy modulo 10 decides, with the
//! upper half of the residue space `{0..9}` winning.

use vstd::prelude::*;

verus! {

/// The win/lose verdict for a given entropy value: win exactly when the
/// (always non-negative) residue of `entropy` modulo 10 is 5, 6, 7, 8 or 9.
pub open spec fn spec_decide(entropy: i64) -> bool {
    entropy % 10 > 4
}

/// Decides the outcome of a play from the supplied entropy.
///
/// Pure and deterministic: equal entropy values give equal verdicts, and
/// the verdict depends only on the residue of the entropy modulo 10.
pub fn decide(entropy: i64) -> (won: bool)
    ensures
        won == spec_decide(entropy),
{
    match entropy.checked_rem_euclid(10) {
        Some(residue) => residue > 4,
        None => false,
    }
}

} // verus!
