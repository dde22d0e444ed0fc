//! Regions that are mappings of named shared memory.

use vstd::prelude::*;
use shared_memory::Shmem;
use crate::error::CapacityError;
use crate::layout::{Layout, LayoutView, TICK_LEN};

verus! {

/// `shared_memory::Shmem`, a mapping of a named segment into this process.
/// Nothing of what it holds is visible here.
#[verifier::external_type_specification]
#[verifier::external_body]
pub struct ExShmem(Shmem);

/// The number of bytes that a mapping spans, as `Shmem::len` reports it.
pub uninterp spec fn mapped_len(mem: Shmem) -> nat;

/// `Shmem::len`: the total size of the mapping in bytes, which the mapping
/// keeps from the time it was made.
#[verifier::external_body]
fn mapping_len(mem: &Shmem) -> (n: usize)
    ensures
        n == mapped_len(*mem),
{
    mem.len()
}

/// Lays out a mapping for a lock of `lock_len` bytes and a payload of
/// `payload_len` bytes, or says how many bytes are missing.
pub fn layout_of(mem: &Shmem, lock_len: usize, payload_len: usize) -> (r: Result<
    Layout,
    CapacityError,
>)
    ensures
        r is Ok <==> TICK_LEN + lock_len + payload_len <= mapped_len(*mem),
        r matches Ok(layout) ==> layout@ == (LayoutView {
            lock_len: lock_len as nat,
            payload_len: payload_len as nat,
        }),
        r matches Err(e) ==> e.missing() == TICK_LEN + lock_len + payload_len - mapped_len(*mem),
{
    Layout::new(mapping_len(mem), lock_len, payload_len)
}

} // verus!
