//! Negation and complement on vectors, applied to every component.

use vstd::prelude::*;
use vstd::std_specs::ops::{NegSpec, NotSpec};

use crate::vector::{map_array, Vector};

verus! {

/// Whether every item of `a` can be negated.
pub open spec fn negations_defined<T, O>(a: Seq<T>) -> bool where T: std::ops::Neg<Output = O> {
    forall|i: int| 0 <= i < a.len() ==> (#[trigger] a[i]).neg_req()
}

/// Each item of `a`, negated.
pub open spec fn negations<T, O>(a: Seq<T>) -> Seq<O> where T: std::ops::Neg<Output = O> {
    Seq::new(a.len(), |i: int| a[i].neg_spec())
}

/// Whether every item of `a` has a complement.
pub open spec fn complements_defined<T, O>(a: Seq<T>) -> bool where T: std::ops::Not<Output = O> {
    forall|i: int| 0 <= i < a.len() ==> (#[trigger] a[i]).not_req()
}

/// The complement of each item of `a`.
pub open spec fn complements<T, O>(a: Seq<T>) -> Seq<O> where T: std::ops::Not<Output = O> {
    Seq::new(a.len(), |i: int| a[i].not_spec())
}

impl<T, O, const N: usize> std::ops::Neg for Vector<T, N> where
    T: std::ops::Neg<Output = O>,
 {
    type Output = Vector<O, N>;

    /// Negates every component. Each of them can be negated.
    fn neg(self) -> (out: Vector<O, N>)
        ensures
            out@.len() == N,
            forall|i: int|
                0 <= i < N ==> call_ensures(
                    <T as std::ops::Neg>::neg,
                    (self@[i],),
                    #[trigger] out@[i],
                ),
            T::obeys_neg_spec() ==> out@ == negations::<T, O>(self@),
    {
        proof {
            self.lemma_len();
        }
        let negate = |c: T| -> (o: O)
            requires
                c.neg_req(),
            ensures
                call_ensures(<T as std::ops::Neg>::neg, (c,), o),
                T::obeys_neg_spec() ==> o == c.neg_spec()
            { std::ops::Neg::neg(c) };
        let out = Vector(map_array(self.0, negate));
        proof {
            if T::obeys_neg_spec() {
                let expected = negations::<T, O>(self@);
                assert(out@ =~= expected);
                Vector::<O, N>::lemma_from_seq(expected);
                Vector::lemma_view_determines(out, Vector::<O, N>::from_seq(expected));
            }
        }
        out
    }
}

impl<T, O, const N: usize> vstd::std_specs::ops::NegSpecImpl for Vector<T, N> where
    T: std::ops::Neg<Output = O>,
 {
    open spec fn obeys_neg_spec() -> bool {
        T::obeys_neg_spec()
    }

    open spec fn neg_req(self) -> bool {
        negations_defined::<T, O>(self@)
    }

    open spec fn neg_spec(self) -> Vector<O, N> {
        Vector::<O, N>::from_seq(negations::<T, O>(self@))
    }
}

impl<T, O, const N: usize> std::ops::Not for Vector<T, N> where
    T: std::ops::Not<Output = O>,
 {
    type Output = Vector<O, N>;

    /// Takes the complement of every component. Each of them has one.
    fn not(self) -> (out: Vector<O, N>)
        ensures
            out@.len() == N,
            forall|i: int|
                0 <= i < N ==> call_ensures(
                    <T as std::ops::Not>::not,
                    (self@[i],),
                    #[trigger] out@[i],
                ),
            T::obeys_not_spec() ==> out@ == complements::<T, O>(self@),
    {
        proof {
            self.lemma_len();
        }
        let complement = |c: T| -> (o: O)
            requires
                c.not_req(),
            ensures
                call_ensures(<T as std::ops::Not>::not, (c,), o),
                T::obeys_not_spec() ==> o == c.not_spec()
            { std::ops::Not::not(c) };
        let out = Vector(map_array(self.0, complement));
        proof {
            if T::obeys_not_spec() {
                let expected = complements::<T, O>(self@);
                assert(out@ =~= expected);
                Vector::<O, N>::lemma_from_seq(expected);
                Vector::lemma_view_determines(out, Vector::<O, N>::from_seq(expected));
            }
        }
        out
    }
}

impl<T, O, const N: usize> vstd::std_specs::ops::NotSpecImpl for Vector<T, N> where
    T: std::ops::Not<Output = O>,
 {
    open spec fn obeys_not_spec() -> bool {
        T::obeys_not_spec()
    }

    open spec fn not_req(self) -> bool {
        complements_defined::<T, O>(self@)
    }

    open spec fn not_spec(self) -> Vector<O, N> {
        Vector::<O, N>::from_seq(complements::<T, O>(self@))
    }
}

} // verus!
