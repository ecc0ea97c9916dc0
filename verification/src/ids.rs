//! Fresh identifiers for records.

use vstd::prelude::*;

verus! {

/// The bits of an identifier that say how it was made.
pub const KIND_BITS: u128 = 0x0000_0000_0000_f000_c000_0000_0000_0000;

/// What the kind bits of a random identifier hold: version 4 of the
/// variant of RFC 9562.
pub const RANDOM_KIND: u128 = 0x0000_0000_0000_4000_8000_0000_0000_0000;

/// A fresh random identifier: `uuid::Uuid::new_v4`, as the 128 bits that
/// `Uuid::as_u128` gives. Trusted: the kind bits of every outcome are
/// those of a random identifier; the other bits come from the random
/// source of the operating system, and nothing is claimed of them. The
/// call panics where that source fails.
#[verifier::external_body]
pub(crate) fn new_id() -> (id: u128)
    ensures
        id & KIND_BITS == RANDOM_KIND,
{
    uuid::Uuid::new_v4().as_u128()
}

} // verus!
