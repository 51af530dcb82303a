//! Addition on vectors: a scalar added to every component, and two vectors of
//! integers added component by component.

use vstd::prelude::*;
use vstd::std_specs::ops::AddSpec;

use crate::vector::{map_array, Vector};

verus! {

/// Whether `scalar` can be added to every item of `a`.
pub open spec fn scalar_sums_defined<T, U, O>(a: Seq<T>, scalar: U) -> bool where
    T: std::ops::Add<U, Output = O>,
 {
    forall|i: int| 0 <= i < a.len() ==> (#[trigger] a[i]).add_req(scalar)
}

/// Each item of `a` plus `scalar`.
pub open spec fn scalar_sums<T, U, O>(a: Seq<T>, scalar: U) -> Seq<O> where
    T: std::ops::Add<U, Output = O>,
 {
    Seq::new(a.len(), |i: int| a[i].add_spec(scalar))
}

/// Whether each item of `a` can be added to the item of `b` at its position.
pub open spec fn sums_defined<T>(a: Seq<T>, b: Seq<T>) -> bool where
    T: std::ops::Add<T, Output = T>,
 {
    forall|i: int| 0 <= i < a.len() ==> (#[trigger] a[i]).add_req(b[i])
}

/// Each item of `a` plus the item of `b` at its position.
pub open spec fn sums<T>(a: Seq<T>, b: Seq<T>) -> Seq<T> where T: std::ops::Add<T, Output = T> {
    Seq::new(a.len(), |i: int| a[i].add_spec(b[i]))
}

impl<T, U, O, const N: usize> std::ops::Add<U> for Vector<T, N> where
    U: Copy,
    T: std::ops::Add<U, Output = O>,
 {
    type Output = Vector<O, N>;

    /// Adds `other` to every component. `other` can be added to each of them.
    fn add(self, other: U) -> (out: Vector<O, N>)
        ensures
            out@.len() == N,
            forall|i: int|
                0 <= i < N ==> call_ensures(
                    <T as std::ops::Add<U>>::add,
                    (self@[i], other),
                    #[trigger] out@[i],
                ),
            T::obeys_add_spec() ==> out@ == scalar_sums::<T, U, O>(self@, other),
    {
        proof {
            self.lemma_len();
        }
        let add_other = |c: T| -> (o: O)
            requires
                c.add_req(other),
            ensures
                call_ensures(<T as std::ops::Add<U>>::add, (c, other), o),
                T::obeys_add_spec() ==> o == c.add_spec(other)
            { c + other };
        let out = Vector(map_array(self.0, add_other));
        proof {
            if T::obeys_add_spec() {
                let expected = scalar_sums::<T, U, O>(self@, other);
                assert(out@ =~= expected);
                Vector::<O, N>::lemma_from_seq(expected);
                Vector::lemma_view_determines(out, Vector::<O, N>::from_seq(expected));
            }
        }
        out
    }
}

impl<T, U, O, const N: usize> vstd::std_specs::ops::AddSpecImpl<U> for Vector<T, N> where
    U: Copy,
    T: std::ops::Add<U, Output = O>,
 {
    open spec fn obeys_add_spec() -> bool {
        T::obeys_add_spec()
    }

    open spec fn add_req(self, other: U) -> bool {
        scalar_sums_defined::<T, U, O>(self@, other)
    }

    open spec fn add_spec(self, other: U) -> Vector<O, N> {
        Vector::<O, N>::from_seq(scalar_sums::<T, U, O>(self@, other))
    }
}

/// Adds two vectors component by component.
fn add_componentwise<T, const N: usize>(a: Vector<T, N>, b: Vector<T, N>) -> (out: Vector<T, N>) where
    T: Copy + std::ops::Add<T, Output = T>,

    requires
        sums_defined(a@, b@),
    ensures
        out@.len() == N,
        T::obeys_add_spec() ==> out@ == sums(a@, b@),
        T::obeys_add_spec() ==> out == Vector::<T, N>::from_seq(sums(a@, b@)),
{
    proof {
        a.lemma_len();
        b.lemma_len();
    }
    let mut cs = a.0;
    let mut i: usize = 0;
    while i < N
        invariant
            i <= N,
            a@.len() == N,
            b@.len() == N,
            sums_defined(a@, b@),
            forall|j: int| i <= j < N ==> cs@[j] == a@[j],
            T::obeys_add_spec() ==> forall|j: int| 0 <= j < i ==> cs@[j] == a@[j].add_spec(b@[j]),
        decreases N - i,
    {
        cs[i] = cs[i] + b.0[i];
        i += 1;
    }
    let out = Vector(cs);
    proof {
        if T::obeys_add_spec() {
            let expected = sums(a@, b@);
            assert(out@ =~= expected);
            Vector::lemma_view_determines(out, Vector::<T, N>::from_seq(expected));
        }
    }
    out
}

impl<const N: usize> std::ops::Add for Vector<u8, N> {
    type Output = Vector<u8, N>;

    /// Adds component by component. No sum leaves the range of `u8`.
    fn add(self, other: Self) -> (out: Self)
        ensures
            out@ == sums(self@, other@),
    {
        add_componentwise(self, other)
    }
}

impl<const N: usize> vstd::std_specs::ops::AddSpecImpl for Vector<u8, N> {
    open spec fn obeys_add_spec() -> bool {
        true
    }

    open spec fn add_req(self, other: Self) -> bool {
        sums_defined(self@, other@)
    }

    open spec fn add_spec(self, other: Self) -> Self {
        Self::from_seq(sums(self@, other@))
    }
}

impl<const N: usize> std::ops::Add for Vector<u16, N> {
    type Output = Vector<u16, N>;

    /// Adds component by component. No sum leaves the range of `u16`.
    fn add(self, other: Self) -> (out: Self)
        ensures
            out@ == sums(self@, other@),
    {
        add_componentwise(self, other)
    }
}

impl<const N: usize> vstd::std_specs::ops::AddSpecImpl for Vector<u16, N> {
    open spec fn obeys_add_spec() -> bool {
        true
    }

    open spec fn add_req(self, other: Self) -> bool {
        sums_defined(self@, other@)
    }

    open spec fn add_spec(self, other: Self) -> Self {
        Self::from_seq(sums(self@, other@))
    }
}

impl<const N: usize> std::ops::Add for Vector<u32, N> {
    type Output = Vector<u32, N>;

    /// Adds component by component. No sum leaves the range of `u32`.
    fn add(self, other: Self) -> (out: Self)
        ensures
            out@ == sums(self@, other@),
    {
        add_componentwise(self, other)
    }
}

impl<const N: usize> vstd::std_specs::ops::AddSpecImpl for Vector<u32, N> {
    open spec fn obeys_add_spec() -> bool {
        true
    }

    open spec fn add_req(self, other: Self) -> bool {
        sums_defined(self@, other@)
    }

    open spec fn add_spec(self, other: Self) -> Self {
        Self::from_seq(sums(self@, other@))
    }
}

impl<const N: usize> std::ops::Add for Vector<u64, N> {
    type Output = Vector<u64, N>;

    /// Adds component by component. No sum leaves the range of `u64`.
    fn add(self, other: Self) -> (out: Self)
        ensures
            out@ == sums(self@, other@),
    {
        add_componentwise(self, other)
    }
}

impl<const N: usize> vstd::std_specs::ops::AddSpecImpl for Vector<u64, N> {
    open spec fn obeys_add_spec() -> bool {
        true
    }

    open spec fn add_req(self, other: Self) -> bool {
        sums_defined(self@, other@)
    }

    open spec fn add_spec(self, other: Self) -> Self {
        Self::from_seq(sums(self@, other@))
    }
}

impl<const N: usize> std::ops::Add for Vector<u128, N> {
    type Output = Vector<u128, N>;

    /// Adds component by component. No sum leaves the range of `u128`.
    fn add(self, other: Self) -> (out: Self)
        ensures
            out@ == sums(self@, other@),
    {
        add_componentwise(self, other)
    }
}

impl<const N: usize> vstd::std_specs::ops::AddSpecImpl for Vector<u128, N> {
    open spec fn obeys_add_spec() -> bool {
        true
    }

    open spec fn add_req(self, other: Self) -> bool {
        sums_defined(self@, other@)
    }

    open spec fn add_spec(self, other: Self) -> Self {
        Self::from_seq(sums(self@, other@))
    }
}

impl<const N: usize> std::ops::Add for Vector<usize, N> {
    type Output = Vector<usize, N>;

    /// Adds component by component. No sum leaves the range of `usize`.
    fn add(self, other: Self) -> (out: Self)
        ensures
            out@ == sums(self@, other@),
    {
        add_componentwise(self, other)
    }
}

impl<const N: usize> vstd::std_specs::ops::AddSpecImpl for Vector<usize, N> {
    open spec fn obeys_add_spec() -> bool {
        true
    }

    open spec fn add_req(self, other: Self) -> bool {
        sums_defined(self@, other@)
    }

    open spec fn add_spec(self, other: Self) -> Self {
        Self::from_seq(sums(self@, other@))
    }
}

impl<const N: usize> std::ops::Add for Vector<i8, N> {
    type Output = Vector<i8, N>;

    /// Adds component by component. No sum leaves the range of `i8`.
    fn add(self, other: Self) -> (out: Self)
        ensures
            out@ == sums(self@, other@),
    {
        add_componentwise(self, other)
    }
}

impl<const N: usize> vstd::std_specs::ops::AddSpecImpl for Vector<i8, N> {
    open spec fn obeys_add_spec() -> bool {
        true
    }

    open spec fn add_req(self, other: Self) -> bool {
        sums_defined(self@, other@)
    }

    open spec fn add_spec(self, other: Self) -> Self {
        Self::from_seq(sums(self@, other@))
    }
}

impl<const N: usize> std::ops::Add for Vector<i16, N> {
    type Output = Vector<i16, N>;

    /// Adds component by component. No sum leaves the range of `i16`.
    fn add(self, other: Self) -> (out: Self)
        ensures
            out@ == sums(self@, other@),
    {
        add_componentwise(self, other)
    }
}

impl<const N: usize> vstd::std_specs::ops::AddSpecImpl for Vector<i16, N> {
    open spec fn obeys_add_spec() -> bool {
        true
    }

    open spec fn add_req(self, other: Self) -> bool {
        sums_defined(self@, other@)
    }

    open spec fn add_spec(self, other: Self) -> Self {
        Self::from_seq(sums(self@, other@))
    }
}

impl<const N: usize> std::ops::Add for Vector<i32, N> {
    type Output = Vector<i32, N>;

    /// Adds component by component. No sum leaves the range of `i32`.
    fn add(self, other: Self) -> (out: Self)
        ensures
            out@ == sums(self@, other@),
    {
        add_componentwise(self, other)
    }
}

impl<const N: usize> vstd::std_specs::ops::AddSpecImpl for Vector<i32, N> {
    open spec fn obeys_add_spec() -> bool {
        true
    }

    open spec fn add_req(self, other: Self) -> bool {
        sums_defined(self@, other@)
    }

    open spec fn add_spec(self, other: Self) -> Self {
        Self::from_seq(sums(self@, other@))
    }
}

impl<const N: usize> std::ops::Add for Vector<i64, N> {
    type Output = Vector<i64, N>;

    /// Adds component by component. No sum leaves the range of `i64`.
    fn add(self, other: Self) -> (out: Self)
        ensures
            out@ == sums(self@, other@),
    {
        add_componentwise(self, other)
    }
}

impl<const N: usize> vstd::std_specs::ops::AddSpecImpl for Vector<i64, N> {
    open spec fn obeys_add_spec() -> bool {
        true
    }

    open spec fn add_req(self, other: Self) -> bool {
        sums_defined(self@, other@)
    }

    open spec fn add_spec(self, other: Self) -> Self {
        Self::from_seq(sums(self@, other@))
    }
}

impl<const N: usize> std::ops::Add for Vector<i128, N> {
    type Output = Vector<i128, N>;

    /// Adds component by component. No sum leaves the range of `i128`.
    fn add(self, other: Self) -> (out: Self)
        ensures
            out@ == sums(self@, other@),
    {
        add_componentwise(self, other)
    }
}

impl<const N: usize> vstd::std_specs::ops::AddSpecImpl for Vector<i128, N> {
    open spec fn obeys_add_spec() -> bool {
        true
    }

    open spec fn add_req(self, other: Self) -> bool {
        sums_defined(self@, other@)
    }

    open spec fn add_spec(self, other: Self) -> Self {
        Self::from_seq(sums(self@, other@))
    }
}

impl<const N: usize> std::ops::Add for Vector<isize, N> {
    type Output = Vector<isize, N>;

    /// Adds component by component. No sum leaves the range of `isize`.
    fn add(self, other: Self) -> (out: Self)
        ensures
            out@ == sums(self@, other@),
    {
        add_componentwise(self, other)
    }
}

impl<const N: usize> vstd::std_specs::ops::AddSpecImpl for Vector<isize, N> {
    open spec fn obeys_add_spec() -> bool {
        true
    }

    open spec fn add_req(self, other: Self) -> bool {
        sums_defined(self@, other@)
    }

    open spec fn add_spec(self, other: Self) -> Self {
        Self::from_seq(sums(self@, other@))
    }
}

} // verus!
