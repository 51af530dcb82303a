//! Multiplication on vectors: every component times a scalar, and two vectors
//! of integers multiplied component by component.

use vstd::prelude::*;
use vstd::std_specs::ops::MulSpec;

use crate::vector::{map_array, Vector};

verus! {

/// Whether every item of `a` can be multiplied by `scalar`.
pub open spec fn scalar_products_defined<T, U, O>(a: Seq<T>, scalar: U) -> bool where
    T: std::ops::Mul<U, Output = O>,
 {
    forall|i: int| 0 <= i < a.len() ==> (#[trigger] a[i]).mul_req(scalar)
}

/// Each item of `a` times `scalar`.
pub open spec fn scalar_products<T, U, O>(a: Seq<T>, scalar: U) -> Seq<O> where
    T: std::ops::Mul<U, Output = O>,
 {
    Seq::new(a.len(), |i: int| a[i].mul_spec(scalar))
}

/// Whether each item of `a` can be multiplied by the item of `b` at its
/// position.
pub open spec fn products_defined<T>(a: Seq<T>, b: Seq<T>) -> bool where
    T: std::ops::Mul<T, Output = T>,
 {
    forall|i: int| 0 <= i < a.len() ==> (#[trigger] a[i]).mul_req(b[i])
}

/// Each item of `a` times the item of `b` at its position.
pub open spec fn products<T>(a: Seq<T>, b: Seq<T>) -> Seq<T> where T: std::ops::Mul<T, Output = T> {
    Seq::new(a.len(), |i: int| a[i].mul_spec(b[i]))
}

impl<T, U, O, const N: usize> std::ops::Mul<U> for Vector<T, N> where
    U: Copy,
    T: std::ops::Mul<U, Output = O>,
 {
    type Output = Vector<O, N>;

    /// Multiplies every component by `other`. Each of them can be multiplied
    /// by it.
    fn mul(self, other: U) -> (out: Vector<O, N>)
        ensures
            out@.len() == N,
            forall|i: int|
                0 <= i < N ==> call_ensures(
                    <T as std::ops::Mul<U>>::mul,
                    (self@[i], other),
                    #[trigger] out@[i],
                ),
            T::obeys_mul_spec() ==> out@ == scalar_products::<T, U, O>(self@, other),
    {
        proof {
            self.lemma_len();
        }
        let multiply_by_other = |c: T| -> (o: O)
            requires
                c.mul_req(other),
            ensures
                call_ensures(<T as std::ops::Mul<U>>::mul, (c, other), o),
                T::obeys_mul_spec() ==> o == c.mul_spec(other)
            { c * other };
        let out = Vector(map_array(self.0, multiply_by_other));
        proof {
            if T::obeys_mul_spec() {
                let expected = scalar_products::<T, U, O>(self@, other);
                assert(out@ =~= expected);
                Vector::<O, N>::lemma_from_seq(expected);
                Vector::lemma_view_determines(out, Vector::<O, N>::from_seq(expected));
            }
        }
        out
    }
}

impl<T, U, O, const N: usize> vstd::std_specs::ops::MulSpecImpl<U> for Vector<T, N> where
    U: Copy,
    T: std::ops::Mul<U, Output = O>,
 {
    open spec fn obeys_mul_spec() -> bool {
        T::obeys_mul_spec()
    }

    open spec fn mul_req(self, other: U) -> bool {
        scalar_products_defined::<T, U, O>(self@, other)
    }

    open spec fn mul_spec(self, other: U) -> Vector<O, N> {
        Vector::<O, N>::from_seq(scalar_products::<T, U, O>(self@, other))
    }
}

/// Multiplies two vectors component by component.
fn mul_componentwise<T, const N: usize>(a: Vector<T, N>, b: Vector<T, N>) -> (out: Vector<T, N>) where
    T: Copy + std::ops::Mul<T, Output = T>,

    requires
        products_defined(a@, b@),
    ensures
        out@.len() == N,
        T::obeys_mul_spec() ==> out@ == products(a@, b@),
        T::obeys_mul_spec() ==> out == Vector::<T, N>::from_seq(products(a@, b@)),
{
    proof {
        a.lemma_len();
        b.lemma_len();
    }
    let mut cs = a.0;
    let mut i: usize = 0;
    while i < N
        invariant
            i <= N,
            a@.len() == N,
            b@.len() == N,
            products_defined(a@, b@),
            forall|j: int| i <= j < N ==> cs@[j] == a@[j],
            T::obeys_mul_spec() ==> forall|j: int| 0 <= j < i ==> cs@[j] == a@[j].mul_spec(b@[j]),
        decreases N - i,
    {
        cs[i] = cs[i] * b.0[i];
        i += 1;
    }
    let out = Vector(cs);
    proof {
        if T::obeys_mul_spec() {
            let expected = products(a@, b@);
            assert(out@ =~= expected);
            Vector::lemma_view_determines(out, Vector::<T, N>::from_seq(expected));
        }
    }
    out
}

impl<const N: usize> std::ops::Mul for Vector<u8, N> {
    type Output = Vector<u8, N>;

    /// Multiplies component by component. No product leaves the range of
    /// `u8`.
    fn mul(self, other: Self) -> (out: Self)
        ensures
            out@ == products(self@, other@),
    {
        mul_componentwise(self, other)
    }
}

impl<const N: usize> vstd::std_specs::ops::MulSpecImpl for Vector<u8, N> {
    open spec fn obeys_mul_spec() -> bool {
        true
    }

    open spec fn mul_req(self, other: Self) -> bool {
        products_defined(self@, other@)
    }

    open spec fn mul_spec(self, other: Self) -> Self {
        Self::from_seq(products(self@, other@))
    }
}

impl<const N: usize> std::ops::Mul for Vector<u16, N> {
    type Output = Vector<u16, N>;

    /// Multiplies component by component. No product leaves the range of
    /// `u16`.
    fn mul(self, other: Self) -> (out: Self)
        ensures
            out@ == products(self@, other@),
    {
        mul_componentwise(self, other)
    }
}

impl<const N: usize> vstd::std_specs::ops::MulSpecImpl for Vector<u16, N> {
    open spec fn obeys_mul_spec() -> bool {
        true
    }

    open spec fn mul_req(self, other: Self) -> bool {
        products_defined(self@, other@)
    }

    open spec fn mul_spec(self, other: Self) -> Self {
        Self::from_seq(products(self@, other@))
    }
}

impl<const N: usize> std::ops::Mul for Vector<u32, N> {
    type Output = Vector<u32, N>;

    /// Multiplies component by component. No product leaves the range of
    /// `u32`.
    fn mul(self, other: Self) -> (out: Self)
        ensures
            out@ == products(self@, other@),
    {
        mul_componentwise(self, other)
    }
}

impl<const N: usize> vstd::std_specs::ops::MulSpecImpl for Vector<u32, N> {
    open spec fn obeys_mul_spec() -> bool {
        true
    }

    open spec fn mul_req(self, other: Self) -> bool {
        products_defined(self@, other@)
    }

    open spec fn mul_spec(self, other: Self) -> Self {
        Self::from_seq(products(self@, other@))
    }
}

impl<const N: usize> std::ops::Mul for Vector<u64, N> {
    type Output = Vector<u64, N>;

    /// Multiplies component by component. No product leaves the range of
    /// `u64`.
    fn mul(self, other: Self) -> (out: Self)
        ensures
            out@ == products(self@, other@),
    {
        mul_componentwise(self, other)
    }
}

impl<const N: usize> vstd::std_specs::ops::MulSpecImpl for Vector<u64, N> {
    open spec fn obeys_mul_spec() -> bool {
        true
    }

    open spec fn mul_req(self, other: Self) -> bool {
        products_defined(self@, other@)
    }

    open spec fn mul_spec(self, other: Self) -> Self {
        Self::from_seq(products(self@, other@))
    }
}

impl<const N: usize> std::ops::Mul for Vector<u128, N> {
    type Output = Vector<u128, N>;

    /// Multiplies component by component. No product leaves the range of
    /// `u128`.
    fn mul(self, other: Self) -> (out: Self)
        ensures
            out@ == products(self@, other@),
    {
        mul_componentwise(self, other)
    }
}

impl<const N: usize> vstd::std_specs::ops::MulSpecImpl for Vector<u128, N> {
    open spec fn obeys_mul_spec() -> bool {
        true
    }

    open spec fn mul_req(self, other: Self) -> bool {
        products_defined(self@, other@)
    }

    open spec fn mul_spec(self, other: Self) -> Self {
        Self::from_seq(products(self@, other@))
    }
}

impl<const N: usize> std::ops::Mul for Vector<usize, N> {
    type Output = Vector<usize, N>;

    /// Multiplies component by component. No product leaves the range of
    /// `usize`.
    fn mul(self, other: Self) -> (out: Self)
        ensures
            out@ == products(self@, other@),
    {
        mul_componentwise(self, other)
    }
}

impl<const N: usize> vstd::std_specs::ops::MulSpecImpl for Vector<usize, N> {
    open spec fn obeys_mul_spec() -> bool {
        true
    }

    open spec fn mul_req(self, other: Self) -> bool {
        products_defined(self@, other@)
    }

    open spec fn mul_spec(self, other: Self) -> Self {
        Self::from_seq(products(self@, other@))
    }
}

impl<const N: usize> std::ops::Mul for Vector<i8, N> {
    type Output = Vector<i8, N>;

    /// Multiplies component by component. No product leaves the range of
    /// `i8`.
    fn mul(self, other: Self) -> (out: Self)
        ensures
            out@ == products(self@, other@),
    {
        mul_componentwise(self, other)
    }
}

impl<const N: usize> vstd::std_specs::ops::MulSpecImpl for Vector<i8, N> {
    open spec fn obeys_mul_spec() -> bool {
        true
    }

    open spec fn mul_req(self, other: Self) -> bool {
        products_defined(self@, other@)
    }

    open spec fn mul_spec(self, other: Self) -> Self {
        Self::from_seq(products(self@, other@))
    }
}

impl<const N: usize> std::ops::Mul for Vector<i16, N> {
    type Output = Vector<i16, N>;

    /// Multiplies component by component. No product leaves the range of
    /// `i16`.
    fn mul(self, other: Self) -> (out: Self)
        ensures
            out@ == products(self@, other@),
    {
        mul_componentwise(self, other)
    }
}

impl<const N: usize> vstd::std_specs::ops::MulSpecImpl for Vector<i16, N> {
    open spec fn obeys_mul_spec() -> bool {
        true
    }

    open spec fn mul_req(self, other: Self) -> bool {
        products_defined(self@, other@)
    }

    open spec fn mul_spec(self, other: Self) -> Self {
        Self::from_seq(products(self@, other@))
    }
}

impl<const N: usize> std::ops::Mul for Vector<i32, N> {
    type Output = Vector<i32, N>;

    /// Multiplies component by component. No product leaves the range of
    /// `i32`.
    fn mul(self, other: Self) -> (out: Self)
        ensures
            out@ == products(self@, other@),
    {
        mul_componentwise(self, other)
    }
}

impl<const N: usize> vstd::std_specs::ops::MulSpecImpl for Vector<i32, N> {
    open spec fn obeys_mul_spec() -> bool {
        true
    }

    open spec fn mul_req(self, other: Self) -> bool {
        products_defined(self@, other@)
    }

    open spec fn mul_spec(self, other: Self) -> Self {
        Self::from_seq(products(self@, other@))
    }
}

impl<const N: usize> std::ops::Mul for Vector<i64, N> {
    type Output = Vector<i64, N>;

    /// Multiplies component by component. No product leaves the range of
    /// `i64`.
    fn mul(self, other: Self) -> (out: Self)
        ensures
            out@ == products(self@, other@),
    {
        mul_componentwise(self, other)
    }
}

impl<const N: usize> vstd::std_specs::ops::MulSpecImpl for Vector<i64, N> {
    open spec fn obeys_mul_spec() -> bool {
        true
    }

    open spec fn mul_req(self, other: Self) -> bool {
        products_defined(self@, other@)
    }

    open spec fn mul_spec(self, other: Self) -> Self {
        Self::from_seq(products(self@, other@))
    }
}

impl<const N: usize> std::ops::Mul for Vector<i128, N> {
    type Output = Vector<i128, N>;

    /// Multiplies component by component. No product leaves the range of
    /// `i128`.
    fn mul(self, other: Self) -> (out: Self)
        ensures
            out@ == products(self@, other@),
    {
        mul_componentwise(self, other)
    }
}

impl<const N: usize> vstd::std_specs::ops::MulSpecImpl for Vector<i128, N> {
    open spec fn obeys_mul_spec() -> bool {
        true
    }

    open spec fn mul_req(self, other: Self) -> bool {
        products_defined(self@, other@)
    }

    open spec fn mul_spec(self, other: Self) -> Self {
        Self::from_seq(products(self@, other@))
    }
}

impl<const N: usize> std::ops::Mul for Vector<isize, N> {
    type Output = Vector<isize, N>;

    /// Multiplies component by component. No product leaves the range of
    /// `isize`.
    fn mul(self, other: Self) -> (out: Self)
        ensures
            out@ == products(self@, other@),
    {
        mul_componentwise(self, other)
    }
}

impl<const N: usize> vstd::std_specs::ops::MulSpecImpl for Vector<isize, N> {
    open spec fn obeys_mul_spec() -> bool {
        true
    }

    open spec fn mul_req(self, other: Self) -> bool {
        products_defined(self@, other@)
    }

    open spec fn mul_spec(self, other: Self) -> Self {
        Self::from_seq(products(self@, other@))
    }
}

} // verus!
