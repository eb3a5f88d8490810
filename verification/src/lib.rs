//! A list that is guaranteed to hold at least one element.
//!
//! `NonEmpty<T>` stores a mandatory head value apart from the (possibly
//! empty) tail vector, so a value with zero elements is not representable.
//! The only runtime check in the whole library is the fallible conversion
//! from an ordinary, possibly empty, vector.

use vstd::prelude::*;

verus! {

use vstd::std_specs::cmp::PartialEqSpec;

/// Non-empty list data type: a mandatory head followed by an ordered,
/// possibly empty, tail.
#[derive(Debug)]
pub struct NonEmpty<T>(pub T, pub Vec<T>);

impl<T> View for NonEmpty<T> {
    type V = Seq<T>;

    /// A `NonEmpty<T>` abstracts to the flattened sequence: the head
    /// followed by the tail elements, in order.
    open spec fn view(&self) -> Seq<T> {
        seq![self.0] + self.1@
    }
}

impl<T> NonEmpty<T> {
    /// Turns a non-empty list into a `Vec` holding the head followed by
    /// every tail element, in order. Total: it cannot fail.
    pub fn into(self) -> (r: Vec<T>)
        ensures
            r@ == self@,
            r@.len() == 1 + self.1@.len(),
    {
        let NonEmpty(head, mut tail) = self;
        let mut r: Vec<T> = Vec::new();
        r.push(head);
        r.append(&mut tail);
        proof {
            assert(r@ =~= self@);
        }
        r
    }
}

impl<T: PartialEq> PartialEq for NonEmpty<T> {
    /// Equality comparison: structural, available whenever the element type
    /// itself supports equality. Two lists are equal iff their heads are
    /// equal and their tails are equal element-wise, in order.
    fn eq(&self, other: &Self) -> bool {
        self.0 == other.0 && self.1 == other.1
    }
}

impl<T: PartialEq> vstd::std_specs::cmp::PartialEqSpecImpl for NonEmpty<T> {
    open spec fn obeys_eq_spec() -> bool {
        <T as vstd::std_specs::cmp::PartialEqSpec>::obeys_eq_spec()
    }

    open spec fn eq_spec(&self, other: &Self) -> bool {
        self.0.eq_spec(&other.0) && vstd::std_specs::cmp::PartialEqSpec::eq_spec(
            &self.1,
            &other.1,
        )
    }
}

impl<T: Default> Default for NonEmpty<T> {
    /// Default value: the singleton list holding the element type's own
    /// default, with an empty tail. Defined exactly when `T` has a default.
    fn default() -> (r: Self)
        ensures
            r.1@ == Seq::<T>::empty(),
            r@ == seq![r.0],
            call_ensures(T::default, (), r.0),
    {
        let r = NonEmpty(T::default(), Vec::new());
        proof {
            assert(r@ =~= seq![r.0]);
        }
        r
    }
}

/// Error arisen when given an empty vector: a non-empty list cannot be
/// built from a source with zero elements. It carries no data; its
/// identity is the signal.
#[derive(Debug, PartialEq, Eq, Structural, Clone, Copy)]
pub struct EmptyVecError;

impl<T> NonEmpty<T> {
    /// Turns a vec into a non-empty list: the head is the first element of
    /// the input, the tail is every remaining element, in order. Fails with
    /// `EmptyVecError` exactly when the input is empty.
    pub fn try_from(v: Vec<T>) -> (r: Result<NonEmpty<T>, EmptyVecError>)
        ensures
            r is Ok <==> v@.len() > 0,
            v@.len() == 0 ==> r == Err::<NonEmpty<T>, EmptyVecError>(EmptyVecError),
            r matches Ok(ne) ==> ne.0 == v@[0] && ne.1@ == v@.skip(1) && ne@ == v@,
    {
        let mut src = v;
        if src.len() == 0 {
            Err(EmptyVecError)
        } else {
            let ghost orig = src@;
            let head = src.remove(0);
            let r = NonEmpty(head, src);
            proof {
                assert(r.1@ =~= orig.skip(1));
                assert(r@ =~= orig);
            }
            Ok(r)
        }
    }
}

/// The flattened sequence of a non-empty list never has length zero.
pub proof fn lemma_never_empty<T>(ne: &NonEmpty<T>)
    ensures
        ne@.len() >= 1,
{
}

/// Round-trip law: a list built from a non-empty sequence (head = first
/// element, tail = the rest, as the fallible construction guarantees)
/// flattens back to that sequence exactly, preserving order and length.
pub proof fn lemma_round_trip<T>(v: Seq<T>, ne: NonEmpty<T>)
    requires
        v.len() >= 1,
        ne.0 == v[0],
        ne.1@ == v.skip(1),
    ensures
        ne@ == v,
{
    assert(ne@ =~= v);
}

/// Equality is structural: two lists compare equal exactly when their heads
/// are equal under the element type's own equality and their tails have the
/// same length with every corresponding pair equal.
pub proof fn lemma_eq_structural<T: PartialEq>(a: &NonEmpty<T>, b: &NonEmpty<T>)
    ensures
        a.eq_spec(b) <==> (a.0.eq_spec(&b.0) && a.1@.len() == b.1@.len() && (forall|i: int|
            0 <= i < a.1@.len() ==> #[trigger] a.1@[i].eq_spec(&b.1@[i]))),
{
}

/// Equality is reflexive whenever the element type's own equality is: a list
/// compares equal to itself.
pub proof fn lemma_eq_reflexive<T: PartialEq>(a: &NonEmpty<T>)
    requires
        forall|x: T| #[trigger] x.eq_spec(&x),
    ensures
        a.eq_spec(a),
{
}

} // verus!
