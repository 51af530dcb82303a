//! Vectors of a fixed number of components, with arithmetic that works on
//! each component by itself.

use vstd::prelude::*;

use crate::direction::{Angle, Projection};

pub mod add;
pub mod div;
pub mod mul;
pub mod rem;
pub mod sub;
pub mod unary;

verus! {

/// `N` components of type `T` in a fixed order.
#[derive(Debug, Clone, Copy, PartialEq, Eq)]
pub struct Vector<T, const N: usize>([T; N]);

impl<T, const N: usize> View for Vector<T, N> {
    type V = Seq<T>;

    /// The components in order.
    closed spec fn view(&self) -> Seq<T> {
        self.0@
    }
}

impl<T, const N: usize> Vector<T, N> {
    /// The vector whose components are `components`, where there is one. It
    /// exists for every sequence of `N` components.
    pub closed spec fn from_seq(components: Seq<T>) -> Self {
        choose|v: Self| v@ == components
    }

    /// The vector of the components `cs`.
    pub fn new(cs: [T; N]) -> (v: Self)
        ensures
            v@ == cs@,
    {
        Self(cs)
    }

    /// A vector has exactly `N` components.
    pub proof fn lemma_len(self)
        ensures
            self@.len() == N,
    {
    }

    /// A vector is nothing more than its components.
    pub proof fn lemma_view_determines(a: Self, b: Self)
        requires
            a@ == b@,
        ensures
            a == b,
    {
        assert(a.0 =~= b.0);
    }

    /// Every sequence of `N` components is the view of one vector.
    pub proof fn lemma_from_seq(components: Seq<T>)
        requires
            components.len() == N,
        ensures
            Self::from_seq(components)@ == components,
    {
        let cs = array_of::<T, N>(components, N as nat);
        assert(Vector(cs)@ =~= components);
    }
}

/// An array whose first `filled` items are those of `items`.
proof fn array_of<T, const N: usize>(items: Seq<T>, filled: nat) -> (a: [T; N])
    requires
        items.len() == N,
        filled <= N,
    ensures
        forall|i: int| 0 <= i < filled ==> a@[i] == items[i],
    decreases filled,
{
    if filled == 0 {
        arbitrary()
    } else {
        let before = array_of::<T, N>(items, (filled - 1) as nat);
        vstd::array::spec_array_update(before, filled - 1, items[filled - 1])
    }
}

impl<T, const N: usize> std::ops::Index<usize> for Vector<T, N> {
    type Output = T;

    /// The component at position `index`, which is below `N`.
    fn index(&self, index: usize) -> (component: &T)
        ensures
            *component == self@[index as int],
    {
        &self.0[index]
    }
}

impl<T, const N: usize> vstd::std_specs::core::IndexSpecImpl<usize> for Vector<T, N> {
    open spec fn index_req(&self, index: &usize) -> bool {
        *index < N
    }
}

impl<T, const N: usize> std::ops::IndexMut<usize> for Vector<T, N> {
    /// The component at position `index`, which is below `N`, to be written
    /// to. No other component changes.
    fn index_mut(&mut self, index: usize) -> (component: &mut T)
        requires
            index < N,
        ensures
            *component == old(self)@[index as int],
            final(self)@ == old(self)@.update(index as int, *final(component)),
    {
        &mut self.0[index]
    }
}

/// Calls `<[T; N]>::map` of the standard library, which applies `f` to each
/// item of `items` in order and returns the results in the same order. Taken
/// on trust: every item of the result is what some call of `f` on the item at
/// the same position returned.
#[verifier::external_body]
pub(crate) fn map_array<T, O, F: Fn(T) -> O, const N: usize>(items: [T; N], f: F) -> (out: [O; N])
    requires
        forall|i: int| 0 <= i < N ==> call_requires(f, (#[trigger] items@[i],)),
    ensures
        forall|i: int| 0 <= i < N ==> call_ensures(f, (items@[i],), #[trigger] out@[i]),
{
    items.map(f)
}

impl Vector<Projection, 2> {
    /// The point of the unit circle at `angle`: its cosine, then its sine.
    pub fn unit(angle: Angle) -> (v: Self)
        ensures
            v@ == seq![angle.cos(), angle.sin()],
    {
        proof {
            use_type_invariant(angle);
        }
        let v = Self::new([angle.cos(), angle.sin()]);
        assert(v@ =~= seq![angle.cos(), angle.sin()]);
        v
    }
}

} // verus!
