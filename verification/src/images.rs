//! Boot and storage images as plain byte buffers.
//!
//! The loader layer performs no byte-level validation: a boot image of any
//! length (even zero bytes) is accepted, and an absent storage image is a
//! valid configuration that stands for "no storage attached", not an error.

use vstd::prelude::*;

verus! {

/// The storage bytes to attach for an optional storage image: the image's
/// own bytes when one was provided, and an empty buffer when none was.
/// Attaching empty storage is a valid configuration, never an error.
pub fn storage_or_empty(storage: Option<Vec<u8>>) -> (r: Vec<u8>)
    ensures
        storage is Some ==> r@ == storage->Some_0@,
        storage is None ==> r@ == Seq::<u8>::empty(),
{
    match storage {
        Some(bytes) => bytes,
        None => Vec::new(),
    }
}

} // verus!
