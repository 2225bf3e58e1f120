//! Account addresses, modeled as plain 256-bit values.

use vstd::prelude::*;

verus! {

/// A 32-byte account address, held as two 128-bit halves so that equality
/// and set membership are plain integer comparisons.
#[derive(Clone, Copy, Debug, PartialEq, Eq, Structural)]
pub struct Address {
    pub hi: u128,
    pub lo: u128,
}

} // verus!
