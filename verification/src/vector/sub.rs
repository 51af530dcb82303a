//! Subtraction on vectors: a scalar taken from every component, and two vectors
//! of integers subtracted component by component.

use vstd::prelude::*;
use vstd::std_specs::ops::SubSpec;

use crate::vector::{map_array, Vector};

verus! {

/// Whether `scalar` can be taken from every item of `a`.
pub open spec fn scalar_differences_defined<T, U, O>(a: Seq<T>, scalar: U) -> bool where
    T: std::ops::Sub<U, Output = O>,
 {
    forall|i: int| 0 <= i < a.len() ==> (#[trigger] a[i]).sub_req(scalar)
}

/// Each item of `a` minus `scalar`.
pub open spec fn scalar_differences<T, U, O>(a: Seq<T>, scalar: U) -> Seq<O> where
    T: std::ops::Sub<U, Output = O>,
 {
    Seq::new(a.len(), |i: int| a[i].sub_spec(scalar))
}

/// Whether the item of `b` at its position can be taken from each item of `a`.
pub open spec fn differences_defined<T>(a: Seq<T>, b: Seq<T>) -> bool where
    T: std::ops::Sub<T, Output = T>,
 {
    forall|i: int| 0 <= i < a.len() ==> (#[trigger] a[i]).sub_req(b[i])
}

/// Each item of `a` minus the item of `b` at its position.
pub open spec fn differences<T>(a: Seq<T>, b: Seq<T>) -> Seq<T> where T: std::ops::Sub<T, Output = T> {
    Seq::new(a.len(), |i: int| a[i].sub_spec(b[i]))
}

impl<T, U, O, const N: usize> std::ops::Sub<U> for Vector<T, N> where
    U: Copy,
    T: std::ops::Sub<U, Output = O>,
 {
    type Output = Vector<O, N>;

    /// Takes `other` from every component. `other` can be taken from each of
    /// them.
    fn sub(self, other: U) -> (out: Vector<O, N>)
        ensures
            out@.len() == N,
            forall|i: int|
                0 <= i < N ==> call_ensures(
                    <T as std::ops::Sub<U>>::sub,
                    (self@[i], other),
                    #[trigger] out@[i],
                ),
            T::obeys_sub_spec() ==> out@ == scalar_differences::<T, U, O>(self@, other),
    {
        proof {
            self.lemma_len();
        }
        let subtract_other = |c: T| -> (o: O)
            requires
                c.sub_req(other),
            ensures
                call_ensures(<T as std::ops::Sub<U>>::sub, (c, other), o),
                T::obeys_sub_spec() ==> o == c.sub_spec(other)
            { c - other };
        let out = Vector(map_array(self.0, subtract_other));
        proof {
            if T::obeys_sub_spec() {
                let expected = scalar_differences::<T, U, O>(self@, other);
                assert(out@ =~= expected);
                Vector::<O, N>::lemma_from_seq(expected);
                Vector::lemma_view_determines(out, Vector::<O, N>::from_seq(expected));
            }
        }
        out
    }
}

impl<T, U, O, const N: usize> vstd::std_specs::ops::SubSpecImpl<U> for Vector<T, N> where
    U: Copy,
    T: std::ops::Sub<U, Output = O>,
 {
    open spec fn obeys_sub_spec() -> bool {
        T::obeys_sub_spec()
    }

    open spec fn sub_req(self, other: U) -> bool {
        scalar_differences_defined::<T, U, O>(self@, other)
    }

    open spec fn sub_spec(self, other: U) -> Vector<O, N> {
        Vector::<O, N>::from_seq(scalar_differences::<T, U, O>(self@, other))
    }
}

/// Subtracts two vectors component by component.
fn sub_componentwise<T, const N: usize>(a: Vector<T, N>, b: Vector<T, N>) -> (out: Vector<T, N>) where
    T: Copy + std::ops::Sub<T, Output = T>,

    requires
        differences_defined(a@, b@),
    ensures
        out@.len() == N,
        T::obeys_sub_spec() ==> out@ == differences(a@, b@),
        T::obeys_sub_spec() ==> out == Vector::<T, N>::from_seq(differences(a@, b@)),
{
    proof {
        a.lemma_len();
        b.lemma_len();
    }
    let mut cs = a.0;
    let mut i: usize = 0;
    while i < N
        invariant
            i <= N,
            a@.len() == N,
            b@.len() == N,
            differences_defined(a@, b@),
            forall|j: int| i <= j < N ==> cs@[j] == a@[j],
            T::obeys_sub_spec() ==> forall|j: int| 0 <= j < i ==> cs@[j] == a@[j].sub_spec(b@[j]),
        decreases N - i,
    {
        cs[i] = cs[i] - b.0[i];
        i += 1;
    }
    let out = Vector(cs);
    proof {
        if T::obeys_sub_spec() {
            let expected = differences(a@, b@);
            assert(out@ =~= expected);
            Vector::lemma_view_determines(out, Vector::<T, N>::from_seq(expected));
        }
    }
    out
}

impl<const N: usize> std::ops::Sub for Vector<u8, N> {
    type Output = Vector<u8, N>;

    /// Subtracts component by component. No difference leaves the range of
    /// `u8`.
    fn sub(self, other: Self) -> (out: Self)
        ensures
            out@ == differences(self@, other@),
    {
        sub_componentwise(self, other)
    }
}

impl<const N: usize> vstd::std_specs::ops::SubSpecImpl for Vector<u8, N> {
    open spec fn obeys_sub_spec() -> bool {
        true
    }

    open spec fn sub_req(self, other: Self) -> bool {
        differences_defined(self@, other@)
    }

    open spec fn sub_spec(self, other: Self) -> Self {
        Self::from_seq(differences(self@, other@))
    }
}

impl<const N: usize> std::ops::Sub for Vector<u16, N> {
    type Output = Vector<u16, N>;

    /// Subtracts component by component. No difference leaves the range of
    /// `u16`.
    fn sub(self, other: Self) -> (out: Self)
        ensures
            out@ == differences(self@, other@),
    {
        sub_componentwise(self, other)
    }
}

impl<const N: usize> vstd::std_specs::ops::SubSpecImpl for Vector<u16, N> {
    open spec fn obeys_sub_spec() -> bool {
        true
    }

    open spec fn sub_req(self, other: Self) -> bool {
        differences_defined(self@, other@)
    }

    open spec fn sub_spec(self, other: Self) -> Self {
        Self::from_seq(differences(self@, other@))
    }
}

impl<const N: usize> std::ops::Sub for Vector<u32, N> {
    type Output = Vector<u32, N>;

    /// Subtracts component by component. No difference leaves the range of
    /// `u32`.
    fn sub(self, other: Self) -> (out: Self)
        ensures
            out@ == differences(self@, other@),
    {
        sub_componentwise(self, other)
    }
}

impl<const N: usize> vstd::std_specs::ops::SubSpecImpl for Vector<u32, N> {
    open spec fn obeys_sub_spec() -> bool {
        true
    }

    open spec fn sub_req(self, other: Self) -> bool {
        differences_defined(self@, other@)
    }

    open spec fn sub_spec(self, other: Self) -> Self {
        Self::from_seq(differences(self@, other@))
    }
}

impl<const N: usize> std::ops::Sub for Vector<u64, N> {
    type Output = Vector<u64, N>;

    /// Subtracts component by component. No difference leaves the range of
    /// `u64`.
    fn sub(self, other: Self) -> (out: Self)
        ensures
            out@ == differences(self@, other@),
    {
        sub_componentwise(self, other)
    }
}

impl<const N: usize> vstd::std_specs::ops::SubSpecImpl for Vector<u64, N> {
    open spec fn obeys_sub_spec() -> bool {
        true
    }

    open spec fn sub_req(self, other: Self) -> bool {
        differences_defined(self@, other@)
    }

    open spec fn sub_spec(self, other: Self) -> Self {
        Self::from_seq(differences(self@, other@))
    }
}

impl<const N: usize> std::ops::Sub for Vector<u128, N> {
    type Output = Vector<u128, N>;

    /// Subtracts component by component. No difference leaves the range of
    /// `u128`.
    fn sub(self, other: Self) -> (out: Self)
        ensures
            out@ == differences(self@, other@),
    {
        sub_componentwise(self, other)
    }
}

impl<const N: usize> vstd::std_specs::ops::SubSpecImpl for Vector<u128, N> {
    open spec fn obeys_sub_spec() -> bool {
        true
    }

    open spec fn sub_req(self, other: Self) -> bool {
        differences_defined(self@, other@)
    }

    open spec fn sub_spec(self, other: Self) -> Self {
        Self::from_seq(differences(self@, other@))
    }
}

impl<const N: usize> std::ops::Sub for Vector<usize, N> {
    type Output = Vector<usize, N>;

    /// Subtracts component by component. No difference leaves the range of
    /// `usize`.
    fn sub(self, other: Self) -> (out: Self)
        ensures
            out@ == differences(self@, other@),
    {
        sub_componentwise(self, other)
    }
}

impl<const N: usize> vstd::std_specs::ops::SubSpecImpl for Vector<usize, N> {
    open spec fn obeys_sub_spec() -> bool {
        true
    }

    open spec fn sub_req(self, other: Self) -> bool {
        differences_defined(self@, other@)
    }

    open spec fn sub_spec(self, other: Self) -> Self {
        Self::from_seq(differences(self@, other@))
    }
}

impl<const N: usize> std::ops::Sub for Vector<i8, N> {
    type Output = Vector<i8, N>;

    /// Subtracts component by component. No difference leaves the range of
    /// `i8`.
    fn sub(self, other: Self) -> (out: Self)
        ensures
            out@ == differences(self@, other@),
    {
        sub_componentwise(self, other)
    }
}

impl<const N: usize> vstd::std_specs::ops::SubSpecImpl for Vector<i8, N> {
    open spec fn obeys_sub_spec() -> bool {
        true
    }

    open spec fn sub_req(self, other: Self) -> bool {
        differences_defined(self@, other@)
    }

    open spec fn sub_spec(self, other: Self) -> Self {
        Self::from_seq(differences(self@, other@))
    }
}

impl<const N: usize> std::ops::Sub for Vector<i16, N> {
    type Output = Vector<i16, N>;

    /// Subtracts component by component. No difference leaves the range of
    /// `i16`.
    fn sub(self, other: Self) -> (out: Self)
        ensures
            out@ == differences(self@, other@),
    {
        sub_componentwise(self, other)
    }
}

impl<const N: usize> vstd::std_specs::ops::SubSpecImpl for Vector<i16, N> {
    open spec fn obeys_sub_spec() -> bool {
        true
    }

    open spec fn sub_req(self, other: Self) -> bool {
        differences_defined(self@, other@)
    }

    open spec fn sub_spec(self, other: Self) -> Self {
        Self::from_seq(differences(self@, other@))
    }
}

impl<const N: usize> std::ops::Sub for Vector<i32, N> {
    type Output = Vector<i32, N>;

    /// Subtracts component by component. No difference leaves the range of
    /// `i32`.
    fn sub(self, other: Self) -> (out: Self)
        ensures
            out@ == differences(self@, other@),
    {
        sub_componentwise(self, other)
    }
}

impl<const N: usize> vstd::std_specs::ops::SubSpecImpl for Vector<i32, N> {
    open spec fn obeys_sub_spec() -> bool {
        true
    }

    open spec fn sub_req(self, other: Self) -> bool {
        differences_defined(self@, other@)
    }

    open spec fn sub_spec(self, other: Self) -> Self {
        Self::from_seq(differences(self@, other@))
    }
}

impl<const N: usize> std::ops::Sub for Vector<i64, N> {
    type Output = Vector<i64, N>;

    /// Subtracts component by component. No difference leaves the range of
    /// `i64`.
    fn sub(self, other: Self) -> (out: Self)
        ensures
            out@ == differences(self@, other@),
    {
        sub_componentwise(self, other)
    }
}

impl<const N: usize> vstd::std_specs::ops::SubSpecImpl for Vector<i64, N> {
    open spec fn obeys_sub_spec() -> bool {
        true
    }

    open spec fn sub_req(self, other: Self) -> bool {
        differences_defined(self@, other@)
    }

    open spec fn sub_spec(self, other: Self) -> Self {
        Self::from_seq(differences(self@, other@))
    }
}

impl<const N: usize> std::ops::Sub for Vector<i128, N> {
    type Output = Vector<i128, N>;

    /// Subtracts component by component. No difference leaves the range of
    /// `i128`.
    fn sub(self, other: Self) -> (out: Self)
        ensures
            out@ == differences(self@, other@),
    {
        sub_componentwise(self, other)
    }
}

impl<const N: usize> vstd::std_specs::ops::SubSpecImpl for Vector<i128, N> {
    open spec fn obeys_sub_spec() -> bool {
        true
    }

    open spec fn sub_req(self, other: Self) -> bool {
        differences_defined(self@, other@)
    }

    open spec fn sub_spec(self, other: Self) -> Self {
        Self::from_seq(differences(self@, other@))
    }
}

impl<const N: usize> std::ops::Sub for Vector<isize, N> {
    type Output = Vector<isize, N>;

    /// Subtracts component by component. No difference leaves the range of
    /// `isize`.
    fn sub(self, other: Self) -> (out: Self)
        ensures
            out@ == differences(self@, other@),
    {
        sub_componentwise(self, other)
    }
}

impl<const N: usize> vstd::std_specs::ops::SubSpecImpl for Vector<isize, N> {
    open spec fn obeys_sub_spec() -> bool {
        true
    }

    open spec fn sub_req(self, other: Self) -> bool {
        differences_defined(self@, other@)
    }

    open spec fn sub_spec(self, other: Self) -> Self {
        Self::from_seq(differences(self@, other@))
    }
}

} // verus!
