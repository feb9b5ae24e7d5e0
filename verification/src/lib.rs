use vstd::prelude::*;

pub mod allowlist;
pub mod lifecycle;
pub mod parse;
pub mod camera;
pub mod protocol;
pub mod secure_store;
pub mod text;
pub mod wire;
pub mod worker;

verus! {

/// Upper bound in bytes on one protocol line; longer frames are rejected
/// before any parsing is attempted.
pub const MAX_LINE_BYTES: usize = 524288;

/// True iff a frame of `len` bytes exceeds the protocol's line ceiling.
pub fn frame_too_large(len: usize) -> (r: bool)
    ensures
        r == (len > MAX_LINE_BYTES),
{
    len > MAX_LINE_BYTES
}

} // verus!
