//! Division on vectors: every component divided by a scalar, and two vectors
//! of integers divided component by component.

use vstd::prelude::*;
use vstd::std_specs::ops::DivSpec;

use crate::vector::{map_array, Vector};

verus! {

/// Whether every item of `a` can be divided by `scalar`.
pub open spec fn scalar_quotients_defined<T, U, O>(a: Seq<T>, scalar: U) -> bool where
    T: std::ops::Div<U, Output = O>,
 {
    forall|i: int| 0 <= i < a.len() ==> (#[trigger] a[i]).div_req(scalar)
}

/// Each item of `a` divided by `scalar`.
pub open spec fn scalar_quotients<T, U, O>(a: Seq<T>, scalar: U) -> Seq<O> where
    T: std::ops::Div<U, Output = O>,
 {
    Seq::new(a.len(), |i: int| a[i].div_spec(scalar))
}

/// Whether each item of `a` can be divided by the item of `b` at its position.
pub open spec fn quotients_defined<T>(a: Seq<T>, b: Seq<T>) -> bool where
    T: std::ops::Div<T, Output = T>,
 {
    forall|i: int| 0 <= i < a.len() ==> (#[trigger] a[i]).div_req(b[i])
}

/// Each item of `a` divided by the item of `b` at its position.
pub open spec fn quotients<T>(a: Seq<T>, b: Seq<T>) -> Seq<T> where T: std::ops::Div<T, Output = T> {
    Seq::new(a.len(), |i: int| a[i].div_spec(b[i]))
}

impl<T, U, O, const N: usize> std::ops::Div<U> for Vector<T, N> where
    U: Copy,
    T: std::ops::Div<U, Output = O>,
 {
    type Output = Vector<O, N>;

    /// Divides every component by `other`. Each of them can be divided by it.
    fn div(self, other: U) -> (out: Vector<O, N>)
        ensures
            out@.len() == N,
            forall|i: int|
                0 <= i < N ==> call_ensures(
                    <T as std::ops::Div<U>>::div,
                    (self@[i], other),
                    #[trigger] out@[i],
                ),
            T::obeys_div_spec() ==> out@ == scalar_quotients::<T, U, O>(self@, other),
    {
        proof {
            self.lemma_len();
        }
        let divide_by_other = |c: T| -> (o: O)
            requires
                c.div_req(other),
            ensures
                call_ensures(<T as std::ops::Div<U>>::div, (c, other), o),
                T::obeys_div_spec() ==> o == c.div_spec(other)
            { c / other };
        let out = Vector(map_array(self.0, divide_by_other));
        proof {
            if T::obeys_div_spec() {
                let expected = scalar_quotients::<T, U, O>(self@, other);
                assert(out@ =~= expected);
                Vector::<O, N>::lemma_from_seq(expected);
                Vector::lemma_view_determines(out, Vector::<O, N>::from_seq(expected));
            }
        }
        out
    }
}

impl<T, U, O, const N: usize> vstd::std_specs::ops::DivSpecImpl<U> for Vector<T, N> where
    U: Copy,
    T: std::ops::Div<U, Output = O>,
 {
    open spec fn obeys_div_spec() -> bool {
        T::obeys_div_spec()
    }

    open spec fn div_req(self, other: U) -> bool {
        scalar_quotients_defined::<T, U, O>(self@, other)
    }

    open spec fn div_spec(self, other: U) -> Vector<O, N> {
        Vector::<O, N>::from_seq(scalar_quotients::<T, U, O>(self@, other))
    }
}

/// Divides two vectors component by component.
fn div_componentwise<T, const N: usize>(a: Vector<T, N>, b: Vector<T, N>) -> (out: Vector<T, N>) where
    T: Copy + std::ops::Div<T, Output = T>,

    requires
        quotients_defined(a@, b@),
    ensures
        out@.len() == N,
        T::obeys_div_spec() ==> out@ == quotients(a@, b@),
        T::obeys_div_spec() ==> out == Vector::<T, N>::from_seq(quotients(a@, b@)),
{
    proof {
        a.lemma_len();
        b.lemma_len();
    }
    let mut cs = a.0;
    let mut i: usize = 0;
    while i < N
        invariant
            i <= N,
            a@.len() == N,
            b@.len() == N,
            quotients_defined(a@, b@),
            forall|j: int| i <= j < N ==> cs@[j] == a@[j],
            T::obeys_div_spec() ==> forall|j: int| 0 <= j < i ==> cs@[j] == a@[j].div_spec(b@[j]),
        decreases N - i,
    {
        cs[i] = cs[i] / b.0[i];
        i += 1;
    }
    let out = Vector(cs);
    proof {
        if T::obeys_div_spec() {
            let expected = quotients(a@, b@);
            assert(out@ =~= expected);
            Vector::lemma_view_determines(out, Vector::<T, N>::from_seq(expected));
        }
    }
    out
}

impl<const N: usize> std::ops::Div for Vector<u8, N> {
    type Output = Vector<u8, N>;

    /// Divides component by component, rounding down. No divisor is zero.
    fn div(self, other: Self) -> (out: Self)
        ensures
            out@ == quotients(self@, other@),
    {
        div_componentwise(self, other)
    }
}

impl<const N: usize> vstd::std_specs::ops::DivSpecImpl for Vector<u8, N> {
    open spec fn obeys_div_spec() -> bool {
        true
    }

    open spec fn div_req(self, other: Self) -> bool {
        quotients_defined(self@, other@)
    }

    open spec fn div_spec(self, other: Self) -> Self {
        Self::from_seq(quotients(self@, other@))
    }
}

impl<const N: usize> std::ops::Div for Vector<u16, N> {
    type Output = Vector<u16, N>;

    /// Divides component by component, rounding down. No divisor is zero.
    fn div(self, other: Self) -> (out: Self)
        ensures
            out@ == quotients(self@, other@),
    {
        div_componentwise(self, other)
    }
}

impl<const N: usize> vstd::std_specs::ops::DivSpecImpl for Vector<u16, N> {
    open spec fn obeys_div_spec() -> bool {
        true
    }

    open spec fn div_req(self, other: Self) -> bool {
        quotients_defined(self@, other@)
    }

    open spec fn div_spec(self, other: Self) -> Self {
        Self::from_seq(quotients(self@, other@))
    }
}

impl<const N: usize> std::ops::Div for Vector<u32, N> {
    type Output = Vector<u32, N>;

    /// Divides component by component, rounding down. No divisor is zero.
    fn div(self, other: Self) -> (out: Self)
        ensures
            out@ == quotients(self@, other@),
    {
        div_componentwise(self, other)
    }
}

impl<const N: usize> vstd::std_specs::ops::DivSpecImpl for Vector<u32, N> {
    open spec fn obeys_div_spec() -> bool {
        true
    }

    open spec fn div_req(self, other: Self) -> bool {
        quotients_defined(self@, other@)
    }

    open spec fn div_spec(self, other: Self) -> Self {
        Self::from_seq(quotients(self@, other@))
    }
}

impl<const N: usize> std::ops::Div for Vector<u64, N> {
    type Output = Vector<u64, N>;

    /// Divides component by component, rounding down. No divisor is zero.
    fn div(self, other: Self) -> (out: Self)
        ensures
            out@ == quotients(self@, other@),
    {
        div_componentwise(self, other)
    }
}

impl<const N: usize> vstd::std_specs::ops::DivSpecImpl for Vector<u64, N> {
    open spec fn obeys_div_spec() -> bool {
        true
    }

    open spec fn div_req(self, other: Self) -> bool {
        quotients_defined(self@, other@)
    }

    open spec fn div_spec(self, other: Self) -> Self {
        Self::from_seq(quotients(self@, other@))
    }
}

impl<const N: usize> std::ops::Div for Vector<u128, N> {
    type Output = Vector<u128, N>;

    /// Divides component by component, rounding down. No divisor is zero.
    fn div(self, other: Self) -> (out: Self)
        ensures
            out@ == quotients(self@, other@),
    {
        div_componentwise(self, other)
    }
}

impl<const N: usize> vstd::std_specs::ops::DivSpecImpl for Vector<u128, N> {
    open spec fn obeys_div_spec() -> bool {
        true
    }

    open spec fn div_req(self, other: Self) -> bool {
        quotients_defined(self@, other@)
    }

    open spec fn div_spec(self, other: Self) -> Self {
        Self::from_seq(quotients(self@, other@))
    }
}

impl<const N: usize> std::ops::Div for Vector<usize, N> {
    type Output = Vector<usize, N>;

    /// Divides component by component, rounding down. No divisor is zero.
    fn div(self, other: Self) -> (out: Self)
        ensures
            out@ == quotients(self@, other@),
    {
        div_componentwise(self, other)
    }
}

impl<const N: usize> vstd::std_specs::ops::DivSpecImpl for Vector<usize, N> {
    open spec fn obeys_div_spec() -> bool {
        true
    }

    open spec fn div_req(self, other: Self) -> bool {
        quotients_defined(self@, other@)
    }

    open spec fn div_spec(self, other: Self) -> Self {
        Self::from_seq(quotients(self@, other@))
    }
}

impl<const N: usize> std::ops::Div for Vector<i8, N> {
    type Output = Vector<i8, N>;

    /// Divides component by component, rounding towards zero. No divisor is
    /// zero, and no quotient leaves the range of `i8`.
    fn div(self, other: Self) -> (out: Self)
        ensures
            out@ == quotients(self@, other@),
    {
        div_componentwise(self, other)
    }
}

impl<const N: usize> vstd::std_specs::ops::DivSpecImpl for Vector<i8, N> {
    open spec fn obeys_div_spec() -> bool {
        true
    }

    open spec fn div_req(self, other: Self) -> bool {
        quotients_defined(self@, other@)
    }

    open spec fn div_spec(self, other: Self) -> Self {
        Self::from_seq(quotients(self@, other@))
    }
}

impl<const N: usize> std::ops::Div for Vector<i16, N> {
    type Output = Vector<i16, N>;

    /// Divides component by component, rounding towards zero. No divisor is
    /// zero, and no quotient leaves the range of `i16`.
    fn div(self, other: Self) -> (out: Self)
        ensures
            out@ == quotients(self@, other@),
    {
        div_componentwise(self, other)
    }
}

impl<const N: usize> vstd::std_specs::ops::DivSpecImpl for Vector<i16, N> {
    open spec fn obeys_div_spec() -> bool {
        true
    }

    open spec fn div_req(self, other: Self) -> bool {
        quotients_defined(self@, other@)
    }

    open spec fn div_spec(self, other: Self) -> Self {
        Self::from_seq(quotients(self@, other@))
    }
}

impl<const N: usize> std::ops::Div for Vector<i32, N> {
    type Output = Vector<i32, N>;

    /// Divides component by component, rounding towards zero. No divisor is
    /// zero, and no quotient leaves the range of `i32`.
    fn div(self, other: Self) -> (out: Self)
        ensures
            out@ == quotients(self@, other@),
    {
        div_componentwise(self, other)
    }
}

impl<const N: usize> vstd::std_specs::ops::DivSpecImpl for Vector<i32, N> {
    open spec fn obeys_div_spec() -> bool {
        true
    }

    open spec fn div_req(self, other: Self) -> bool {
        quotients_defined(self@, other@)
    }

    open spec fn div_spec(self, other: Self) -> Self {
        Self::from_seq(quotients(self@, other@))
    }
}

impl<const N: usize> std::ops::Div for Vector<i64, N> {
    type Output = Vector<i64, N>;

    /// Divides component by component, rounding towards zero. No divisor is
    /// zero, and no quotient leaves the range of `i64`.
    fn div(self, other: Self) -> (out: Self)
        ensures
            out@ == quotients(self@, other@),
    {
        div_componentwise(self, other)
    }
}

impl<const N: usize> vstd::std_specs::ops::DivSpecImpl for Vector<i64, N> {
    open spec fn obeys_div_spec() -> bool {
        true
    }

    open spec fn div_req(self, other: Self) -> bool {
        quotients_defined(self@, other@)
    }

    open spec fn div_spec(self, other: Self) -> Self {
        Self::from_seq(quotients(self@, other@))
    }
}

impl<const N: usize> std::ops::Div for Vector<i128, N> {
    type Output = Vector<i128, N>;

    /// Divides component by component, rounding towards zero. No divisor is
    /// zero, and no quotient leaves the range of `i128`.
    fn div(self, other: Self) -> (out: Self)
        ensures
            out@ == quotients(self@, other@),
    {
        div_componentwise(self, other)
    }
}

impl<const N: usize> vstd::std_specs::ops::DivSpecImpl for Vector<i128, N> {
    open spec fn obeys_div_spec() -> bool {
        true
    }

    open spec fn div_req(self, other: Self) -> bool {
        quotients_defined(self@, other@)
    }

    open spec fn div_spec(self, other: Self) -> Self {
        Self::from_seq(quotients(self@, other@))
    }
}

impl<const N: usize> std::ops::Div for Vector<isize, N> {
    type Output = Vector<isize, N>;

    /// Divides component by component, rounding towards zero. No divisor is
    /// zero, and no quotient leaves the range of `isize`.
    fn div(self, other: Self) -> (out: Self)
        ensures
            out@ == quotients(self@, other@),
    {
        div_componentwise(self, other)
    }
}

impl<const N: usize> vstd::std_specs::ops::DivSpecImpl for Vector<isize, N> {
    open spec fn obeys_div_spec() -> bool {
        true
    }

    open spec fn div_req(self, other: Self) -> bool {
        quotients_defined(self@, other@)
    }

    open spec fn div_spec(self, other: Self) -> Self {
        Self::from_seq(quotients(self@, other@))
    }
}

} // verus!
