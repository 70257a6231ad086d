//! Synchronization tokens.
//!
//! A token names one signal of the graphics device. The core never touches
//! the device object behind it; it only decides who waits on which token and
//! when.

use vstd::prelude::*;

verus! {

/// A CPU-waitable signal: the work of one submission has finished once a
/// wait on it returns.
#[derive(Clone, Copy, Debug, PartialEq, Eq, Structural)]
pub struct CompletionSignal {
    pub id: u64,
}

/// A GPU-side signal: a later submission that names it does not begin before
/// the producing submission has reached it. It is handed to one consumer.
#[derive(Clone, Copy, Debug, PartialEq, Eq, Structural)]
pub struct OrderingSignal {
    pub id: u64,
}

/// A completion signal supplied by the asset loader for an upload that was
/// still in flight when the frame began.
#[derive(Clone, Copy, Debug, PartialEq, Eq, Structural)]
pub struct UploadSignal {
    pub id: u64,
}

/// The signal of an optional slot as a sequence of length zero or one.
pub open spec fn slot_seq<T>(slot: Option<T>) -> Seq<T> {
    match slot {
        Some(s) => seq![s],
        None => Seq::empty(),
    }
}

} // verus!
