use vstd::prelude::*;

/// The reason record schema: decoding raw documents with defaults, and encoding.
pub mod codec;
/// Raw store documents, held as plain values.
pub mod document;
/// The fetch, clear and reinsert run, as a state machine driven from outside.
pub mod pipeline;
/// Batches: tolerant decoding of a fetch, and the documents of a bulk insert.
pub mod repository;

verus! {

/// The value that `isEnabled` takes when a raw document leaves it out.
pub fn default_is_enabled() -> (r: bool)
    ensures
        r == true,
{
    true
}

} // verus!
