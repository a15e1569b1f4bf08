//! Ghost state that holds its value, and observations that run: SDK and debug builds.

use vstd::prelude::*;
use vstd::std_specs::cmp::{PartialEqSpec, PartialOrdSpec};

verus! {

/// Auxiliary *ghost state* that exists only to express properties: its inner `T` can be read only
/// by an observation (`__observe1` and its kin) and mutated only through [`GhostState::mutate`].
/// Its view is the value it holds.
#[derive(Debug, Copy, Eq, Ord, Hash)]
pub struct GhostState<T>(T);

impl<T> View for GhostState<T> {
    type V = T;

    closed spec fn view(&self) -> T {
        self.0
    }
}

/// Whether `f`, applied to a reference to `before`, may leave `after` there. `end` is what becomes of
/// a reference, `|value| *final(value)`, which a contract can speak of and a spec function cannot.
pub open spec fn leaves<T, F: Fn(&mut T)>(
    f: F,
    end: spec_fn(&mut T) -> T,
    before: T,
    after: T,
) -> bool {
    exists|value: &mut T|
        {
            &&& *value == before
            &&& end(value) == after
            &&& #[trigger] call_ensures(f, (value,), ())
        }
}

impl<T> GhostState<T> {
    /// Creates ghost state, initializing the inner `T` with `init`. `init` is read-only (an `Fn`).
    pub fn new<F: Fn() -> T>(init: F) -> (state: Self)
        requires
            call_requires(init, ()),
        ensures
            call_ensures(init, (), state@),
    {
        GhostState(init())
    }

    /// The sole mutator. `f` gets `&mut T`; everything it captures is read-only (`Fn`). It is
    /// applied to the held value, and what it leaves there is the value held from then on.
    pub fn mutate<F: Fn(&mut T)>(&mut self, f: F)
        requires
            forall|value: &mut T| *value == old(self)@ ==> #[trigger] call_requires(f, (value,)),
        ensures
            leaves(f, |value: &mut T| *final(value), old(self)@, final(self)@),
    {
        f(&mut self.0)
    }

    // Private: the only readers are the observation functions below, so there is no public way to
    // obtain a `&T`.
    fn inner(&self) -> (value: &T)
        ensures
            *value == self@,
    {
        &self.0
    }
}

impl<T: Default> Default for GhostState<T> {
    fn default() -> (state: Self)
        ensures
            call_ensures(T::default, (), state@),
    {
        GhostState(T::default())
    }
}

impl<T: Clone> Clone for GhostState<T> {
    fn clone(&self) -> (state: Self)
        ensures
            cloned(self@, state@),
            call_ensures(T::clone, (&self@,), state@),
    {
        GhostState(self.0.clone())
    }
}

impl<T: PartialEq> PartialEq for GhostState<T> {
    fn eq(&self, other: &Self) -> (equal: bool)
        ensures
            call_ensures(T::eq, (&self@, &other@), equal),
    {
        self.0.eq(&other.0)
    }
}

impl<T: PartialEq> vstd::std_specs::cmp::PartialEqSpecImpl for GhostState<T> {
    open spec fn obeys_eq_spec() -> bool {
        T::obeys_eq_spec()
    }

    open spec fn eq_spec(&self, other: &Self) -> bool {
        self@.eq_spec(&other@)
    }
}

impl<T: PartialOrd> PartialOrd for GhostState<T> {
    fn partial_cmp(&self, other: &Self) -> (order: Option<core::cmp::Ordering>)
        ensures
            call_ensures(T::partial_cmp, (&self@, &other@), order),
    {
        self.0.partial_cmp(&other.0)
    }
}

impl<T: PartialOrd> vstd::std_specs::cmp::PartialOrdSpecImpl for GhostState<T> {
    open spec fn obeys_partial_cmp_spec() -> bool {
        T::obeys_partial_cmp_spec()
    }

    open spec fn partial_cmp_spec(&self, other: &Self) -> Option<core::cmp::Ordering> {
        self@.partial_cmp_spec(&other@)
    }
}

/// Runs a read-only observation that reads no ghost state.
pub fn __observe0<F: Fn()>(f: F)
    requires
        call_requires(f, ()),
    ensures
        call_ensures(f, (), ()),
{
    f()
}

/// Runs a read-only observation on the value of one ghost state.
pub fn __observe1<T0, F: Fn(&T0)>(m0: &GhostState<T0>, f: F)
    requires
        call_requires(f, (&m0@,)),
    ensures
        call_ensures(f, (&m0@,), ()),
{
    f(m0.inner())
}

/// Runs a read-only observation on the values of two ghost states, in order.
pub fn __observe2<T0, T1, F: Fn(&T0, &T1)>(m0: &GhostState<T0>, m1: &GhostState<T1>, f: F)
    requires
        call_requires(f, (&m0@, &m1@)),
    ensures
        call_ensures(f, (&m0@, &m1@), ()),
{
    f(m0.inner(), m1.inner())
}

/// Runs a read-only observation on the values of three ghost states, in order.
pub fn __observe3<T0, T1, T2, F: Fn(&T0, &T1, &T2)>(
    m0: &GhostState<T0>,
    m1: &GhostState<T1>,
    m2: &GhostState<T2>,
    f: F,
)
    requires
        call_requires(f, (&m0@, &m1@, &m2@)),
    ensures
        call_ensures(f, (&m0@, &m1@, &m2@), ()),
{
    f(m0.inner(), m1.inner(), m2.inner())
}

/// Runs a read-only observation on the values of four ghost states, in order.
pub fn __observe4<T0, T1, T2, T3, F: Fn(&T0, &T1, &T2, &T3)>(
    m0: &GhostState<T0>,
    m1: &GhostState<T1>,
    m2: &GhostState<T2>,
    m3: &GhostState<T3>,
    f: F,
)
    requires
        call_requires(f, (&m0@, &m1@, &m2@, &m3@)),
    ensures
        call_ensures(f, (&m0@, &m1@, &m2@, &m3@), ()),
{
    f(m0.inner(), m1.inner(), m2.inner(), m3.inner())
}

/// What an observation reads of fresh ghost state is what `init` gave: where `init` can only give
/// `value`, an observer of the new state was handed `value`.
pub proof fn law_observation_reads_init<T, I: Fn() -> T, F: Fn(&T)>(
    state: GhostState<T>,
    init: I,
    value: T,
    f: F,
)
    requires
        call_ensures(init, (), state@),
        forall|t: T| #[trigger] call_ensures(init, (), t) ==> t == value,
        call_ensures(f, (&state@,), ()),
    ensures
        state@ == value,
        call_ensures(f, (&value,), ()),
{
}

/// What is read after a mutation is what the mutation wrote: where `m` can only turn `from` into
/// `to`, a state that held `from` holds `to`, and an observer is handed that. (`end` is as in
/// [`leaves`].)
pub proof fn law_observation_reads_mutation<T, M: Fn(&mut T), F: Fn(&T)>(
    before: GhostState<T>,
    after: GhostState<T>,
    m: M,
    end: spec_fn(&mut T) -> T,
    from: T,
    to: T,
    f: F,
)
    requires
        before@ == from,
        leaves(m, end, before@, after@),
        forall|t: T| #[trigger] leaves(m, end, from, t) ==> t == to,
        call_ensures(f, (&after@,), ()),
    ensures
        after@ == to,
        call_ensures(f, (&to,), ()),
{
}

/// Ghost state holds what the last of any number of mutations left, each of which started from what
/// the one before it left, and every reading of it is handed that value. The mutations, which may be
/// of different types, are given by what they may do to a value, as [`GhostState::mutate`] ensures
/// it of each: `mutations[i](v, t)` is `leaves(m, |value| *final(value), v, t)` for the mutator `m`
/// of that step. `states[i]` is the state after `i` of them and `values[i]` the value that the
/// initializer and these mutations can only come to.
pub proof fn law_observation_reads_history<T, I: Fn() -> T, F: Fn(&T), G: Fn(&T)>(
    init: I,
    mutations: Seq<spec_fn(T, T) -> bool>,
    states: Seq<GhostState<T>>,
    values: Seq<T>,
    first: F,
    second: G,
)
    requires
        states.len() == values.len() == mutations.len() + 1,
        call_ensures(init, (), states[0]@),
        forall|t: T| #[trigger] call_ensures(init, (), t) ==> t == values[0],
        forall|i: int|
            0 <= i < mutations.len() ==> (#[trigger] mutations[i])(states[i]@, states[i + 1]@),
        forall|i: int, t: T|
            0 <= i < mutations.len() && #[trigger] mutations[i](values[i], t) ==> t == values[i
                + 1],
        call_ensures(first, (&states.last()@,), ()),
        call_ensures(second, (&states.last()@,), ()),
    ensures
        forall|i: int| 0 <= i < states.len() ==> (#[trigger] states[i])@ == values[i],
        call_ensures(first, (&values.last(),), ()),
        call_ensures(second, (&values.last(),), ()),
{
    assert forall|i: int| 0 <= i < states.len() implies (#[trigger] states[i])@ == values[i] by {
        lemma_history(mutations, states, values, i);
    }
}

proof fn lemma_history<T>(
    mutations: Seq<spec_fn(T, T) -> bool>,
    states: Seq<GhostState<T>>,
    values: Seq<T>,
    i: int,
)
    requires
        states.len() == values.len() == mutations.len() + 1,
        states[0]@ == values[0],
        forall|i: int|
            0 <= i < mutations.len() ==> (#[trigger] mutations[i])(states[i]@, states[i + 1]@),
        forall|i: int, t: T|
            0 <= i < mutations.len() && #[trigger] mutations[i](values[i], t) ==> t == values[i
                + 1],
        0 <= i < states.len(),
    ensures
        states[i]@ == values[i],
    decreases i,
{
    if i > 0 {
        lemma_history(mutations, states, values, i - 1);
        assert(mutations[i - 1](states[i - 1]@, states[i]@));
    }
}

/// The same for mutators of one type, straight from what [`GhostState::new`] and
/// [`GhostState::mutate`] ensure: what is read in the end is what the last mutator can only leave,
/// having started from what the one before it left. (`end` is as in [`leaves`].)
pub proof fn law_observation_reads_last_mutator<T, I: Fn() -> T, M: Fn(&mut T), F: Fn(&T)>(
    init: I,
    mutators: Seq<M>,
    end: spec_fn(&mut T) -> T,
    states: Seq<GhostState<T>>,
    values: Seq<T>,
    f: F,
)
    requires
        states.len() == values.len() == mutators.len() + 1,
        call_ensures(init, (), states[0]@),
        forall|t: T| #[trigger] call_ensures(init, (), t) ==> t == values[0],
        forall|i: int|
            0 <= i < mutators.len() ==> leaves(
                #[trigger] mutators[i],
                end,
                states[i]@,
                states[i + 1]@,
            ),
        forall|i: int, t: T|
            0 <= i < mutators.len() && #[trigger] leaves(mutators[i], end, values[i], t) ==> t
                == values[i + 1],
        call_ensures(f, (&states.last()@,), ()),
    ensures
        states.last()@ == values.last(),
        call_ensures(f, (&values.last(),), ()),
{
    let mutations = Seq::new(
        mutators.len(),
        |i: int| |v: T, t: T| leaves(mutators[i], end, v, t),
    );
    law_observation_reads_history(init, mutations, states, values, f, f);
}

/// A call of [`GhostState::mutate`] is a call of `m` on the held value: there is a reference that
/// started at what the state held, ended at what the state holds, and was handed to `m`.
pub proof fn law_mutate_calls_mutator<T, M: Fn(&mut T)>(m: M)
    ensures
        forall|state: &mut GhostState<T>| #[trigger]
            call_ensures(GhostState::<T>::mutate::<M>, (state, m), ()) ==> exists|value: &mut T|
                {
                    &&& *value == state@
                    &&& *final(value) == final(state)@
                    &&& #[trigger] call_ensures(m, (value,), ())
                },
{
}

/// Where `m` turns `from` into `to` and into nothing else, a state that held `from` holds `to` after
/// a call of [`GhostState::mutate`] with it.
pub proof fn law_mutate_keeps_what_mutator_leaves<T, M: Fn(&mut T)>(m: M, from: T, to: T)
    requires
        forall|value: &mut T|
            *value == from && #[trigger] call_ensures(m, (value,), ()) ==> *final(value) == to,
    ensures
        forall|state: &mut GhostState<T>| #[trigger]
            call_ensures(GhostState::<T>::mutate::<M>, (state, m), ()) && state@ == from
                ==> final(state)@ == to,
{
}

/// From closure to closure: where `init` gives only `from` and `m` turns `from` only into `to`, a
/// state that was created with `init` and mutated with `m` hands `to` to its observer.
pub proof fn law_new_mutate_observe<T, I: Fn() -> T, M: Fn(&mut T), F: Fn(&T)>(
    init: I,
    m: M,
    f: F,
    from: T,
    to: T,
)
    requires
        forall|t: T| #[trigger] call_ensures(init, (), t) ==> t == from,
        forall|value: &mut T|
            *value == from && #[trigger] call_ensures(m, (value,), ()) ==> *final(value) == to,
    ensures
        forall|state: &mut GhostState<T>|
            {
                &&& call_ensures(GhostState::<T>::new::<I>, (init,), *state)
                &&& #[trigger] call_ensures(GhostState::<T>::mutate::<M>, (state, m), ())
                &&& call_ensures(__observe1::<T, F>, (final(state), f), ())
            } ==> call_ensures(f, (&to,), ()),
{
}

/// A new state holds a value that `init` gave.
pub proof fn law_new_calls_init<T, I: Fn() -> T>(init: I, state: GhostState<T>)
    requires
        call_ensures(GhostState::<T>::new::<I>, (init,), state),
    ensures
        call_ensures(init, (), state@),
{
}

/// Two states that were created with an initializer that gives only one value hold the same.
pub proof fn law_new_is_as_deterministic_as_init<T, I: Fn() -> T>(
    init: I,
    a: GhostState<T>,
    b: GhostState<T>,
)
    requires
        call_ensures(GhostState::<T>::new::<I>, (init,), a),
        call_ensures(GhostState::<T>::new::<I>, (init,), b),
        forall|s: T, t: T|
            call_ensures(init, (), s) && call_ensures(init, (), t) ==> s == t,
    ensures
        a@ == b@,
{
}

/// An observation without ghost state runs.
pub proof fn law_observe0_runs<F: Fn()>(f: F)
    requires
        call_ensures(__observe0::<F>, (f,), ()),
    ensures
        call_ensures(f, (), ()),
{
}

/// An observation of one state is handed its value.
pub proof fn law_observe1_reads<T0, F: Fn(&T0)>(m0: &GhostState<T0>, f: F)
    requires
        call_ensures(__observe1::<T0, F>, (m0, f), ()),
    ensures
        call_ensures(f, (&m0@,), ()),
{
}

/// An observation of two states is handed their values, each in its place.
pub proof fn law_observe2_reads<T0, T1, F: Fn(&T0, &T1)>(
    m0: &GhostState<T0>,
    m1: &GhostState<T1>,
    f: F,
)
    requires
        call_ensures(__observe2::<T0, T1, F>, (m0, m1, f), ()),
    ensures
        call_ensures(f, (&m0@, &m1@), ()),
{
}

/// An observation of three states is handed their values, each in its place.
pub proof fn law_observe3_reads<T0, T1, T2, F: Fn(&T0, &T1, &T2)>(
    m0: &GhostState<T0>,
    m1: &GhostState<T1>,
    m2: &GhostState<T2>,
    f: F,
)
    requires
        call_ensures(__observe3::<T0, T1, T2, F>, (m0, m1, m2, f), ()),
    ensures
        call_ensures(f, (&m0@, &m1@, &m2@), ()),
{
}

/// An observation of four states is handed their values, each in its place.
pub proof fn law_observe4_reads<T0, T1, T2, T3, F: Fn(&T0, &T1, &T2, &T3)>(
    m0: &GhostState<T0>,
    m1: &GhostState<T1>,
    m2: &GhostState<T2>,
    m3: &GhostState<T3>,
    f: F,
)
    requires
        call_ensures(__observe4::<T0, T1, T2, T3, F>, (m0, m1, m2, m3, f), ()),
    ensures
        call_ensures(f, (&m0@, &m1@, &m2@, &m3@), ()),
{
}

/// A default state holds a default value.
pub proof fn law_default_holds_default<T: Default>(state: GhostState<T>)
    requires
        call_ensures(GhostState::<T>::default, (), state),
    ensures
        call_ensures(T::default, (), state@),
{
}

/// A clone holds a clone of the value.
pub proof fn law_clone_holds_clone<T: Clone>(state: &GhostState<T>, copy: GhostState<T>)
    requires
        call_ensures(GhostState::<T>::clone, (state,), copy),
    ensures
        call_ensures(T::clone, (&state@,), copy@),
{
}

/// Two states are equal where their values are: `==` on them answers what `==` on the values
/// answers, whatever that is, and so does `!=`.
pub proof fn law_equality_is_of_values<T: PartialEq>(
    a: &GhostState<T>,
    b: &GhostState<T>,
    equal: bool,
    differ: bool,
)
    requires
        call_ensures(GhostState::<T>::eq, (a, b), equal),
        call_ensures(GhostState::<T>::ne, (a, b), differ),
    ensures
        call_ensures(T::eq, (&a@, &b@), equal),
        call_ensures(T::eq, (&a@, &b@), !differ),
        T::obeys_eq_spec() ==> (equal <==> a@.eq_spec(&b@)),
        T::obeys_eq_spec() ==> (differ <==> !a@.eq_spec(&b@)),
{
}

/// What `==` means for two states in contracts is what it means for their values.
pub proof fn law_eq_spec_is_of_values<T: PartialEq>(a: GhostState<T>, b: GhostState<T>)
    ensures
        GhostState::<T>::obeys_eq_spec() <==> T::obeys_eq_spec(),
        a.eq_spec(&b) <==> a@.eq_spec(&b@),
{
}

/// Two states are ordered as their values are: comparing them answers what comparing the values
/// answers, whatever that is.
pub proof fn law_order_is_of_values<T: PartialOrd>(
    a: &GhostState<T>,
    b: &GhostState<T>,
    order: Option<core::cmp::Ordering>,
)
    requires
        call_ensures(GhostState::<T>::partial_cmp, (a, b), order),
    ensures
        call_ensures(T::partial_cmp, (&a@, &b@), order),
        T::obeys_partial_cmp_spec() ==> {
            &&& order == Some(core::cmp::Ordering::Less) <==> a@.partial_cmp_spec(&b@) == Some(
                core::cmp::Ordering::Less,
            )
            &&& order == Some(core::cmp::Ordering::Equal) <==> a@.partial_cmp_spec(&b@) == Some(
                core::cmp::Ordering::Equal,
            )
            &&& order == Some(core::cmp::Ordering::Greater) <==> a@.partial_cmp_spec(&b@) == Some(
                core::cmp::Ordering::Greater,
            )
            &&& order is None <==> a@.partial_cmp_spec(&b@) is None
        },
{
}

/// What the order of two states means in contracts is what it means for their values.
pub proof fn law_order_spec_is_of_values<T: PartialOrd>(a: GhostState<T>, b: GhostState<T>)
    ensures
        GhostState::<T>::obeys_partial_cmp_spec() <==> T::obeys_partial_cmp_spec(),
        a.partial_cmp_spec(&b) == Some(core::cmp::Ordering::Less) <==> a@.partial_cmp_spec(&b@)
            == Some(core::cmp::Ordering::Less),
        a.partial_cmp_spec(&b) == Some(core::cmp::Ordering::Equal) <==> a@.partial_cmp_spec(&b@)
            == Some(core::cmp::Ordering::Equal),
        a.partial_cmp_spec(&b) == Some(core::cmp::Ordering::Greater) <==> a@.partial_cmp_spec(&b@)
            == Some(core::cmp::Ordering::Greater),
        a.partial_cmp_spec(&b) is None <==> a@.partial_cmp_spec(&b@) is None,
{
}

/// The four comparisons of two states read the order of the values.
pub proof fn law_comparisons_are_of_values<T: PartialOrd>(
    a: &GhostState<T>,
    b: &GhostState<T>,
    less: bool,
    at_most: bool,
    greater: bool,
    at_least: bool,
)
    requires
        T::obeys_partial_cmp_spec(),
        call_ensures(GhostState::<T>::lt, (a, b), less),
        call_ensures(GhostState::<T>::le, (a, b), at_most),
        call_ensures(GhostState::<T>::gt, (a, b), greater),
        call_ensures(GhostState::<T>::ge, (a, b), at_least),
    ensures
        less <==> a@.partial_cmp_spec(&b@) == Some(core::cmp::Ordering::Less),
        at_most <==> a@.partial_cmp_spec(&b@) == Some(core::cmp::Ordering::Less)
            || a@.partial_cmp_spec(&b@) == Some(core::cmp::Ordering::Equal),
        greater <==> a@.partial_cmp_spec(&b@) == Some(core::cmp::Ordering::Greater),
        at_least <==> a@.partial_cmp_spec(&b@) == Some(core::cmp::Ordering::Greater)
            || a@.partial_cmp_spec(&b@) == Some(core::cmp::Ordering::Equal),
{
}

/// Each of the four comparisons of two states comes of one comparison of the values, also where
/// nothing is known of how values of the type compare.
pub proof fn law_comparisons_compare_values<T: PartialOrd>(
    a: &GhostState<T>,
    b: &GhostState<T>,
    answer: bool,
)
    ensures
        call_ensures(GhostState::<T>::lt, (a, b), answer) ==> exists|
            o: Option<core::cmp::Ordering>,
        | #[trigger]
            call_ensures(T::partial_cmp, (&a@, &b@), o) && (answer <==> o == Some(
                core::cmp::Ordering::Less,
            )),
        call_ensures(GhostState::<T>::le, (a, b), answer) ==> exists|
            o: Option<core::cmp::Ordering>,
        | #[trigger]
            call_ensures(T::partial_cmp, (&a@, &b@), o) && (answer <==> o == Some(
                core::cmp::Ordering::Less,
            ) || o == Some(core::cmp::Ordering::Equal)),
        call_ensures(GhostState::<T>::gt, (a, b), answer) ==> exists|
            o: Option<core::cmp::Ordering>,
        | #[trigger]
            call_ensures(T::partial_cmp, (&a@, &b@), o) && (answer <==> o == Some(
                core::cmp::Ordering::Greater,
            )),
        call_ensures(GhostState::<T>::ge, (a, b), answer) ==> exists|
            o: Option<core::cmp::Ordering>,
        | #[trigger]
            call_ensures(T::partial_cmp, (&a@, &b@), o) && (answer <==> o == Some(
                core::cmp::Ordering::Greater,
            ) || o == Some(core::cmp::Ordering::Equal)),
{
}

} // verus!
