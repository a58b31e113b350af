//! Color overrides that the embedding program may set: each is a shared
//! number, `UNSET` until set.

use vstd::prelude::*;
use std::sync::atomic::AtomicU32;
use std::sync::atomic::Ordering;

verus! {

/// The value of an override that was never set.
pub const UNSET: u32 = 0xffff_ffff;

/// An override's value, or `default` while it is unset.
pub fn or_value(v: u32, default: u32) -> (r: u32)
    ensures
        r == (if v == UNSET {
            default
        } else {
            v
        }),
{
    if v == UNSET {
        default
    } else {
        v
    }
}

/// The current value of the override `at`, or `default` while it is unset.
/// (What it holds is up to other threads; the result is `default` or a set
/// value.)
pub fn or(at: &AtomicU32, default: u32) -> (r: u32)
    ensures
        r == default || r != UNSET,
{
    let v = at.load(Ordering::Relaxed);
    or_value(v, default)
}

} // verus!
