//! The two shared one-way signals of a session, `stop` and `paused`.
//!
//! They are plain atomic booleans, read from the capture callback and the
//! encoder and written by the recorder alone. A read tells what the flag held
//! at one moment and nothing about the next.

use vstd::prelude::*;
use std::sync::atomic::{AtomicBool, Ordering};
use std::sync::Arc;

verus! {

/// A fresh flag, lowered.
pub(crate) fn new_flag() -> (flag: Arc<AtomicBool>) {
    Arc::new(AtomicBool::new(false))
}

/// Reads the flag.
pub(crate) fn is_raised(flag: &AtomicBool) -> (raised: bool) {
    flag.load(Ordering::SeqCst)
}

/// Raises the flag.
pub(crate) fn raise(flag: &AtomicBool) {
    flag.store(true, Ordering::SeqCst)
}

/// Lowers the flag.
pub(crate) fn lower(flag: &AtomicBool) {
    flag.store(false, Ordering::SeqCst)
}

} // verus!
