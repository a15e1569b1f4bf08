//! Deterministic-simulation-testing (DST) hooks: property assertions, ghost state and read-only
//! observation.
//!
//! A build is in one of three modes ([`Mode`]), decided by whether the simulation platform's SDK is
//! enabled and whether debug assertions are on:
//!
//! 1. **SDK.** Assertions are forwarded to the platform; ghost state holds its value and
//!    observations run.
//! 2. **Debug.** Assertions are decided on the spot ([`assertion`]): an `always` property fails
//!    where its condition is false, an `unreachable` site fails where it is reached, and the
//!    existential ones cannot fail at a single site. Ghost state holds its value and observations
//!    run.
//! 3. **Release.** Nothing is left: assertions are not evaluated, ghost state is empty and neither
//!    initializers, mutators nor observers run.
//!
//! [`live`] is what ghost state is in the first two modes, [`erased`] what it is in the third. Both
//! have the same interface; the live one is also found at the crate root.
//!
//! Nothing here panics, short of what a caller's own closure or `Debug` impl does. A failed property
//! is a value, the text of the report, and it is up to the caller to raise it.

pub mod assertion;
pub mod erased;
pub mod live;
pub mod mode;

pub use assertion::{
    __dst_debug_existential, __dst_debug_invariant, __dst_debug_reachable, __dst_debug_unreachable,
    assert_always, assert_always_or_unreachable, assert_reachable, assert_sometimes,
    assert_unreachable,
};
pub use live::{__observe0, __observe1, __observe2, __observe3, __observe4, GhostState};
pub use mode::Mode;

use vstd::prelude::*;

verus! {

/// Prepares a process for emitting assertions. Without the SDK there is no assertion catalog to
/// register (a debug build decides its assertions inline), so there is nothing to do and nothing
/// that can fail; it is safe to call from every process and any number of times.
pub fn init()
    no_unwind
{
}

} // verus!
