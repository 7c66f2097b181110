//! Fixed limits of the registry.

use vstd::prelude::*;

verus! {

/// The most signer addresses one registry can hold.
pub const MAX_ORACLES: usize = 20;

} // verus!
