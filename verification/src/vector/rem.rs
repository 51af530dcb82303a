//! Remainders on vectors: of every component divided by a scalar, and of two
//! vectors of integers divided component by component.

use vstd::prelude::*;
use vstd::std_specs::ops::RemSpec;

use crate::vector::{map_array, Vector};

verus! {

/// Whether every item of `a` has a remainder modulo `scalar`.
pub open spec fn scalar_remainders_defined<T, U, O>(a: Seq<T>, scalar: U) -> bool where
    T: std::ops::Rem<U, Output = O>,
 {
    forall|i: int| 0 <= i < a.len() ==> (#[trigger] a[i]).rem_req(scalar)
}

/// The remainder of each item of `a` divided by `scalar`.
pub open spec fn scalar_remainders<T, U, O>(a: Seq<T>, scalar: U) -> Seq<O> where
    T: std::ops::Rem<U, Output = O>,
 {
    Seq::new(a.len(), |i: int| a[i].rem_spec(scalar))
}

/// Whether each item of `a` has a remainder modulo the item of `b` at its
/// position.
pub open spec fn remainders_defined<T>(a: Seq<T>, b: Seq<T>) -> bool where
    T: std::ops::Rem<T, Output = T>,
 {
    forall|i: int| 0 <= i < a.len() ==> (#[trigger] a[i]).rem_req(b[i])
}

/// The remainder of each item of `a` divided by the item of `b` at its
/// position.
pub open spec fn remainders<T>(a: Seq<T>, b: Seq<T>) -> Seq<T> where T: std::ops::Rem<T, Output = T> {
    Seq::new(a.len(), |i: int| a[i].rem_spec(b[i]))
}

impl<T, U, O, const N: usize> std::ops::Rem<U> for Vector<T, N> where
    U: Copy,
    T: std::ops::Rem<U, Output = O>,
 {
    type Output = Vector<O, N>;

    /// The remainder of every component divided by `other`. Each of them can
    /// be divided by it.
    fn rem(self, other: U) -> (out: Vector<O, N>)
        ensures
            out@.len() == N,
            forall|i: int|
                0 <= i < N ==> call_ensures(
                    <T as std::ops::Rem<U>>::rem,
                    (self@[i], other),
                    #[trigger] out@[i],
                ),
            T::obeys_rem_spec() ==> out@ == scalar_remainders::<T, U, O>(self@, other),
    {
        proof {
            self.lemma_len();
        }
        let remainder_by_other = |c: T| -> (o: O)
            requires
                c.rem_req(other),
            ensures
                call_ensures(<T as std::ops::Rem<U>>::rem, (c, other), o),
                T::obeys_rem_spec() ==> o == c.rem_spec(other)
            { c % other };
        let out = Vector(map_array(self.0, remainder_by_other));
        proof {
            if T::obeys_rem_spec() {
                let expected = scalar_remainders::<T, U, O>(self@, other);
                assert(out@ =~= expected);
                Vector::<O, N>::lemma_from_seq(expected);
                Vector::lemma_view_determines(out, Vector::<O, N>::from_seq(expected));
            }
        }
        out
    }
}

impl<T, U, O, const N: usize> vstd::std_specs::ops::RemSpecImpl<U> for Vector<T, N> where
    U: Copy,
    T: std::ops::Rem<U, Output = O>,
 {
    open spec fn obeys_rem_spec() -> bool {
        T::obeys_rem_spec()
    }

    open spec fn rem_req(self, other: U) -> bool {
        scalar_remainders_defined::<T, U, O>(self@, other)
    }

    open spec fn rem_spec(self, other: U) -> Vector<O, N> {
        Vector::<O, N>::from_seq(scalar_remainders::<T, U, O>(self@, other))
    }
}

/// The remainders of two vectors divided component by component.
fn rem_componentwise<T, const N: usize>(a: Vector<T, N>, b: Vector<T, N>) -> (out: Vector<T, N>) where
    T: Copy + std::ops::Rem<T, Output = T>,

    requires
        remainders_defined(a@, b@),
    ensures
        out@.len() == N,
        T::obeys_rem_spec() ==> out@ == remainders(a@, b@),
        T::obeys_rem_spec() ==> out == Vector::<T, N>::from_seq(remainders(a@, b@)),
{
    proof {
        a.lemma_len();
        b.lemma_len();
    }
    let mut cs = a.0;
    let mut i: usize = 0;
    while i < N
        invariant
            i <= N,
            a@.len() == N,
            b@.len() == N,
            remainders_defined(a@, b@),
            forall|j: int| i <= j < N ==> cs@[j] == a@[j],
            T::obeys_rem_spec() ==> forall|j: int| 0 <= j < i ==> cs@[j] == a@[j].rem_spec(b@[j]),
        decreases N - i,
    {
        cs[i] = cs[i] % b.0[i];
        i += 1;
    }
    let out = Vector(cs);
    proof {
        if T::obeys_rem_spec() {
            let expected = remainders(a@, b@);
            assert(out@ =~= expected);
            Vector::lemma_view_determines(out, Vector::<T, N>::from_seq(expected));
        }
    }
    out
}

impl<const N: usize> std::ops::Rem for Vector<u8, N> {
    type Output = Vector<u8, N>;

    /// The remainders of dividing component by component. No divisor is zero.
    fn rem(self, other: Self) -> (out: Self)
        ensures
            out@ == remainders(self@, other@),
    {
        rem_componentwise(self, other)
    }
}

impl<const N: usize> vstd::std_specs::ops::RemSpecImpl for Vector<u8, N> {
    open spec fn obeys_rem_spec() -> bool {
        true
    }

    open spec fn rem_req(self, other: Self) -> bool {
        remainders_defined(self@, other@)
    }

    open spec fn rem_spec(self, other: Self) -> Self {
        Self::from_seq(remainders(self@, other@))
    }
}

impl<const N: usize> std::ops::Rem for Vector<u16, N> {
    type Output = Vector<u16, N>;

    /// The remainders of dividing component by component. No divisor is zero.
    fn rem(self, other: Self) -> (out: Self)
        ensures
            out@ == remainders(self@, other@),
    {
        rem_componentwise(self, other)
    }
}

impl<const N: usize> vstd::std_specs::ops::RemSpecImpl for Vector<u16, N> {
    open spec fn obeys_rem_spec() -> bool {
        true
    }

    open spec fn rem_req(self, other: Self) -> bool {
        remainders_defined(self@, other@)
    }

    open spec fn rem_spec(self, other: Self) -> Self {
        Self::from_seq(remainders(self@, other@))
    }
}

impl<const N: usize> std::ops::Rem for Vector<u32, N> {
    type Output = Vector<u32, N>;

    /// The remainders of dividing component by component. No divisor is zero.
    fn rem(self, other: Self) -> (out: Self)
        ensures
            out@ == remainders(self@, other@),
    {
        rem_componentwise(self, other)
    }
}

impl<const N: usize> vstd::std_specs::ops::RemSpecImpl for Vector<u32, N> {
    open spec fn obeys_rem_spec() -> bool {
        true
    }

    open spec fn rem_req(self, other: Self) -> bool {
        remainders_defined(self@, other@)
    }

    open spec fn rem_spec(self, other: Self) -> Self {
        Self::from_seq(remainders(self@, other@))
    }
}

impl<const N: usize> std::ops::Rem for Vector<u64, N> {
    type Output = Vector<u64, N>;

    /// The remainders of dividing component by component. No divisor is zero.
    fn rem(self, other: Self) -> (out: Self)
        ensures
            out@ == remainders(self@, other@),
    {
        rem_componentwise(self, other)
    }
}

impl<const N: usize> vstd::std_specs::ops::RemSpecImpl for Vector<u64, N> {
    open spec fn obeys_rem_spec() -> bool {
        true
    }

    open spec fn rem_req(self, other: Self) -> bool {
        remainders_defined(self@, other@)
    }

    open spec fn rem_spec(self, other: Self) -> Self {
        Self::from_seq(remainders(self@, other@))
    }
}

impl<const N: usize> std::ops::Rem for Vector<u128, N> {
    type Output = Vector<u128, N>;

    /// The remainders of dividing component by component. No divisor is zero.
    fn rem(self, other: Self) -> (out: Self)
        ensures
            out@ == remainders(self@, other@),
    {
        rem_componentwise(self, other)
    }
}

impl<const N: usize> vstd::std_specs::ops::RemSpecImpl for Vector<u128, N> {
    open spec fn obeys_rem_spec() -> bool {
        true
    }

    open spec fn rem_req(self, other: Self) -> bool {
        remainders_defined(self@, other@)
    }

    open spec fn rem_spec(self, other: Self) -> Self {
        Self::from_seq(remainders(self@, other@))
    }
}

impl<const N: usize> std::ops::Rem for Vector<usize, N> {
    type Output = Vector<usize, N>;

    /// The remainders of dividing component by component. No divisor is zero.
    fn rem(self, other: Self) -> (out: Self)
        ensures
            out@ == remainders(self@, other@),
    {
        rem_componentwise(self, other)
    }
}

impl<const N: usize> vstd::std_specs::ops::RemSpecImpl for Vector<usize, N> {
    open spec fn obeys_rem_spec() -> bool {
        true
    }

    open spec fn rem_req(self, other: Self) -> bool {
        remainders_defined(self@, other@)
    }

    open spec fn rem_spec(self, other: Self) -> Self {
        Self::from_seq(remainders(self@, other@))
    }
}

impl<const N: usize> std::ops::Rem for Vector<i8, N> {
    type Output = Vector<i8, N>;

    /// The remainders of dividing component by component, with the sign of the
    /// dividend. No divisor is zero, and no quotient leaves the range of
    /// `i8`.
    fn rem(self, other: Self) -> (out: Self)
        ensures
            out@ == remainders(self@, other@),
    {
        rem_componentwise(self, other)
    }
}

impl<const N: usize> vstd::std_specs::ops::RemSpecImpl for Vector<i8, N> {
    open spec fn obeys_rem_spec() -> bool {
        true
    }

    open spec fn rem_req(self, other: Self) -> bool {
        remainders_defined(self@, other@)
    }

    open spec fn rem_spec(self, other: Self) -> Self {
        Self::from_seq(remainders(self@, other@))
    }
}

impl<const N: usize> std::ops::Rem for Vector<i16, N> {
    type Output = Vector<i16, N>;

    /// The remainders of dividing component by component, with the sign of the
    /// dividend. No divisor is zero, and no quotient leaves the range of
    /// `i16`.
    fn rem(self, other: Self) -> (out: Self)
        ensures
            out@ == remainders(self@, other@),
    {
        rem_componentwise(self, other)
    }
}

impl<const N: usize> vstd::std_specs::ops::RemSpecImpl for Vector<i16, N> {
    open spec fn obeys_rem_spec() -> bool {
        true
    }

    open spec fn rem_req(self, other: Self) -> bool {
        remainders_defined(self@, other@)
    }

    open spec fn rem_spec(self, other: Self) -> Self {
        Self::from_seq(remainders(self@, other@))
    }
}

impl<const N: usize> std::ops::Rem for Vector<i32, N> {
    type Output = Vector<i32, N>;

    /// The remainders of dividing component by component, with the sign of the
    /// dividend. No divisor is zero, and no quotient leaves the range of
    /// `i32`.
    fn rem(self, other: Self) -> (out: Self)
        ensures
            out@ == remainders(self@, other@),
    {
        rem_componentwise(self, other)
    }
}

impl<const N: usize> vstd::std_specs::ops::RemSpecImpl for Vector<i32, N> {
    open spec fn obeys_rem_spec() -> bool {
        true
    }

    open spec fn rem_req(self, other: Self) -> bool {
        remainders_defined(self@, other@)
    }

    open spec fn rem_spec(self, other: Self) -> Self {
        Self::from_seq(remainders(self@, other@))
    }
}

impl<const N: usize> std::ops::Rem for Vector<i64, N> {
    type Output = Vector<i64, N>;

    /// The remainders of dividing component by component, with the sign of the
    /// dividend. No divisor is zero, and no quotient leaves the range of
    /// `i64`.
    fn rem(self, other: Self) -> (out: Self)
        ensures
            out@ == remainders(self@, other@),
    {
        rem_componentwise(self, other)
    }
}

impl<const N: usize> vstd::std_specs::ops::RemSpecImpl for Vector<i64, N> {
    open spec fn obeys_rem_spec() -> bool {
        true
    }

    open spec fn rem_req(self, other: Self) -> bool {
        remainders_defined(self@, other@)
    }

    open spec fn rem_spec(self, other: Self) -> Self {
        Self::from_seq(remainders(self@, other@))
    }
}

impl<const N: usize> std::ops::Rem for Vector<i128, N> {
    type Output = Vector<i128, N>;

    /// The remainders of dividing component by component, with the sign of the
    /// dividend. No divisor is zero, and no quotient leaves the range of
    /// `i128`.
    fn rem(self, other: Self) -> (out: Self)
        ensures
            out@ == remainders(self@, other@),
    {
        rem_componentwise(self, other)
    }
}

impl<const N: usize> vstd::std_specs::ops::RemSpecImpl for Vector<i128, N> {
    open spec fn obeys_rem_spec() -> bool {
        true
    }

    open spec fn rem_req(self, other: Self) -> bool {
        remainders_defined(self@, other@)
    }

    open spec fn rem_spec(self, other: Self) -> Self {
        Self::from_seq(remainders(self@, other@))
    }
}

impl<const N: usize> std::ops::Rem for Vector<isize, N> {
    type Output = Vector<isize, N>;

    /// The remainders of dividing component by component, with the sign of the
    /// dividend. No divisor is zero, and no quotient leaves the range of
    /// `isize`.
    fn rem(self, other: Self) -> (out: Self)
        ensures
            out@ == remainders(self@, other@),
    {
        rem_componentwise(self, other)
    }
}

impl<const N: usize> vstd::std_specs::ops::RemSpecImpl for Vector<isize, N> {
    open spec fn obeys_rem_spec() -> bool {
        true
    }

    open spec fn rem_req(self, other: Self) -> bool {
        remainders_defined(self@, other@)
    }

    open spec fn rem_spec(self, other: Self) -> Self {
        Self::from_seq(remainders(self@, other@))
    }
}

} // verus!
