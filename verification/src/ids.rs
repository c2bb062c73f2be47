//! Fresh random identifiers.

use vstd::prelude::*;
use crate::kernel_ipc::uuid_hyphenated;

verus! {

/// A new random identifier from `uuid::Uuid::new_v4`, rendered by its
/// `Display` impl, which writes the hyphenated form in lower-case hex
/// (uuid's `fmt.rs`). `new_v4` sets the version nibble to 4 (`v4.rs`), the
/// character at offset 14. Which identifier comes back is chance; nothing
/// here claims two calls differ.
#[verifier::external_body]
pub(crate) fn new_uuid_v4() -> (r: String)
    ensures
        uuid_hyphenated(r@),
        forall|i: int| 0 <= i < r@.len() ==> !('A' <= #[trigger] r@[i] && r@[i] <= 'F'),
        r@[14] == '4',
{
    uuid::Uuid::new_v4().to_string()
}

} // verus!
