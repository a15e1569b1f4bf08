//! Ghost state that holds nothing, and observations that do not run: release builds.
//!
//! No function here has a `requires`, so none can call the closure it is given: a closure that no
//! one may call is as good as any other.

use core::marker::PhantomData;
use vstd::prelude::*;

verus! {

/// The zero-sized counterpart of [`crate::live::GhostState`]: it remembers the type of the value
/// and nothing else.
#[derive(Debug, Copy, Eq, Ord, Hash)]
pub struct GhostState<T>(PhantomData<T>);

impl<T> GhostState<T> {
    /// The one value of the type.
    pub closed spec fn empty() -> Self {
        GhostState(PhantomData)
    }

    /// Creates ghost state. `init` is type-checked but never called and no `T` is constructed.
    #[allow(unused_variables)]
    pub fn new<F: Fn() -> T>(init: F) -> (state: Self)
        ensures
            state == Self::empty(),
        no_unwind
    {
        GhostState(PhantomData)
    }

    /// Does nothing: `f` is type-checked but never called.
    #[allow(unused_variables)]
    pub fn mutate<F: Fn(&mut T)>(&mut self, f: F)
        ensures
            *final(self) == *old(self),
        no_unwind
    {
    }
}

impl<T: Default> Default for GhostState<T> {
    fn default() -> (state: Self)
        ensures
            state == Self::empty(),
    {
        GhostState(PhantomData)
    }
}

impl<T: Clone> Clone for GhostState<T> {
    fn clone(&self) -> (state: Self)
        ensures
            state == *self,
    {
        GhostState(PhantomData)
    }
}

impl<T: PartialEq> PartialEq for GhostState<T> {
    fn eq(&self, other: &Self) -> (equal: bool) {
        true
    }
}

impl<T: PartialEq> vstd::std_specs::cmp::PartialEqSpecImpl for GhostState<T> {
    open spec fn obeys_eq_spec() -> bool {
        true
    }

    open spec fn eq_spec(&self, other: &Self) -> bool {
        true
    }
}

impl<T: PartialOrd> PartialOrd for GhostState<T> {
    fn partial_cmp(&self, other: &Self) -> (order: Option<core::cmp::Ordering>) {
        Some(core::cmp::Ordering::Equal)
    }
}

impl<T: PartialOrd> vstd::std_specs::cmp::PartialOrdSpecImpl for GhostState<T> {
    open spec fn obeys_partial_cmp_spec() -> bool {
        true
    }

    open spec fn partial_cmp_spec(&self, other: &Self) -> Option<core::cmp::Ordering> {
        Some(core::cmp::Ordering::Equal)
    }
}

/// Type-checks a read-only observation that reads no ghost state, and does not run it.
#[allow(unused_variables)]
pub fn __observe0<F: Fn()>(f: F)
    no_unwind
{
}

/// Type-checks a read-only observation of one ghost state, and does not run it.
#[allow(unused_variables)]
pub fn __observe1<T0, F: Fn(&T0)>(m0: &GhostState<T0>, f: F)
    no_unwind
{
}

/// Type-checks a read-only observation of two ghost states, and does not run it.
#[allow(unused_variables)]
pub fn __observe2<T0, T1, F: Fn(&T0, &T1)>(m0: &GhostState<T0>, m1: &GhostState<T1>, f: F)
    no_unwind
{
}

/// Type-checks a read-only observation of three ghost states, and does not run it.
#[allow(unused_variables)]
pub fn __observe3<T0, T1, T2, F: Fn(&T0, &T1, &T2)>(
    m0: &GhostState<T0>,
    m1: &GhostState<T1>,
    m2: &GhostState<T2>,
    f: F,
)
    no_unwind
{
}

/// Type-checks a read-only observation of four ghost states, and does not run it.
#[allow(unused_variables)]
pub fn __observe4<T0, T1, T2, T3, F: Fn(&T0, &T1, &T2, &T3)>(
    m0: &GhostState<T0>,
    m1: &GhostState<T1>,
    m2: &GhostState<T2>,
    m3: &GhostState<T3>,
    f: F,
)
    no_unwind
{
}

/// Erased ghost state carries no information: any two are the same, however they were made and
/// whatever was done to them.
pub proof fn law_carries_nothing<T>(a: GhostState<T>, b: GhostState<T>)
    ensures
        a == b,
{
}

/// Creating and mutating erased state asks nothing of the closure, not even that it may be called:
/// a call is in order whatever the closure requires.
pub proof fn law_state_asks_nothing<T, I: Fn() -> T, M: Fn(&mut T)>(init: I, m: M)
    ensures
        call_requires(GhostState::<T>::new::<I>, (init,)),
        forall|state: &mut GhostState<T>| #[trigger]
            call_requires(GhostState::<T>::mutate::<M>, (state, m)),
{
}

/// Nor does an erased observation ask anything of its observer.
pub proof fn law_observation_asks_nothing<
    T0,
    T1,
    T2,
    T3,
    F0: Fn(),
    F1: Fn(&T0),
    F2: Fn(&T0, &T1),
    F3: Fn(&T0, &T1, &T2),
    F4: Fn(&T0, &T1, &T2, &T3),
>(
    m0: &GhostState<T0>,
    m1: &GhostState<T1>,
    m2: &GhostState<T2>,
    m3: &GhostState<T3>,
    f0: F0,
    f1: F1,
    f2: F2,
    f3: F3,
    f4: F4,
)
    ensures
        call_requires(__observe0::<F0>, (f0,)),
        call_requires(__observe1::<T0, F1>, (m0, f1)),
        call_requires(__observe2::<T0, T1, F2>, (m0, m1, f2)),
        call_requires(__observe3::<T0, T1, T2, F3>, (m0, m1, m2, f3)),
        call_requires(__observe4::<T0, T1, T2, T3, F4>, (m0, m1, m2, m3, f4)),
{
}

/// A mutation leaves erased state as it was.
pub proof fn law_mutate_changes_nothing<T, M: Fn(&mut T)>(m: M)
    ensures
        forall|state: &mut GhostState<T>| #[trigger]
            call_ensures(GhostState::<T>::mutate::<M>, (state, m), ()) ==> *final(state) == *state,
{
}

/// All erased states are equal, and none comes before another, whatever `T` makes of its values.
pub proof fn law_all_are_equal<T: PartialOrd>(
    a: &GhostState<T>,
    b: &GhostState<T>,
    equal: bool,
    differ: bool,
    order: Option<core::cmp::Ordering>,
    less: bool,
    greater: bool,
)
    requires
        call_ensures(GhostState::<T>::eq, (a, b), equal),
        call_ensures(GhostState::<T>::ne, (a, b), differ),
        call_ensures(GhostState::<T>::partial_cmp, (a, b), order),
        call_ensures(GhostState::<T>::lt, (a, b), less),
        call_ensures(GhostState::<T>::gt, (a, b), greater),
    ensures
        equal,
        !differ,
        order == Some(core::cmp::Ordering::Equal),
        !less,
        !greater,
{
}

} // verus!
