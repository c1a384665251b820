use vstd::prelude::*;

verus! {

/// Non-empty set of the readiness conditions a registration cares about.
///
/// A value holds readable interest, writable interest, or both; the empty
/// set cannot be built.
#[derive(Clone, Copy, Debug, PartialEq, Eq, Hash, Structural)]
pub struct Interest(u8);

impl Interest {
    /// Holds of every value that executable code can get hold of: at least
    /// one of the two conditions is present, and nothing else is.
    #[verifier::type_invariant]
    pub closed spec fn is_valid(self) -> bool {
        1 <= self.0 <= 3
    }

    /// Whether readable readiness is part of the set.
    pub closed spec fn wants_readable(self) -> bool {
        self.0 == 1 || self.0 == 3
    }

    /// Whether writable readiness is part of the set.
    pub closed spec fn wants_writable(self) -> bool {
        self.0 == 2 || self.0 == 3
    }

    /// A valid interest is never empty.
    pub proof fn lemma_not_empty(self)
        requires
            self.is_valid(),
        ensures
            self.wants_readable() || self.wants_writable(),
    {
    }

    /// A valid interest is nothing but its two conditions: two valid
    /// interests that agree on both are equal.
    pub proof fn lemma_determined_by_conditions(self, other: Interest)
        requires
            self.is_valid(),
            other.is_valid(),
            self.wants_readable() == other.wants_readable(),
            self.wants_writable() == other.wants_writable(),
        ensures
            self == other,
    {
    }

    /// Interest in readable readiness alone.
    pub fn readable() -> (r: Interest)
        ensures
            r.is_valid(),
            r.wants_readable(),
            !r.wants_writable(),
    {
        Interest(1)
    }

    /// Interest in writable readiness alone.
    pub fn writable() -> (r: Interest)
        ensures
            r.is_valid(),
            !r.wants_readable(),
            r.wants_writable(),
    {
        Interest(2)
    }

    /// Union of two interests.
    pub fn union(self, other: Interest) -> (r: Interest)
        ensures
            r.is_valid(),
            r.wants_readable() == (self.wants_readable() || other.wants_readable()),
            r.wants_writable() == (self.wants_writable() || other.wants_writable()),
    {
        proof {
            use_type_invariant(&self);
            use_type_invariant(&other);
        }
        let a: u8 = self.0;
        let b: u8 = other.0;
        assert(1 <= a <= 3 && 1 <= b <= 3 ==> 1 <= (a | b) <= 3 && (((a | b) == 1 || (a | b) == 3)
            <==> (a == 1 || a == 3 || b == 1 || b == 3)) && (((a | b) == 2 || (a | b) == 3) <==> (
        a == 2 || a == 3 || b == 2 || b == 3))) by (bit_vector);
        Interest(a | b)
    }

    /// Takes the conditions of `other` out of `self`; `None` when nothing is
    /// left.
    pub fn remove(self, other: Interest) -> (r: Option<Interest>)
        ensures
            r is None <==> (self.wants_readable() ==> other.wants_readable()) && (
            self.wants_writable() ==> other.wants_writable()),
            r is Some ==> r->Some_0.is_valid(),
            r is Some ==> r->Some_0.wants_readable() == (self.wants_readable()
                && !other.wants_readable()),
            r is Some ==> r->Some_0.wants_writable() == (self.wants_writable()
                && !other.wants_writable()),
    {
        proof {
            use_type_invariant(&self);
            use_type_invariant(&other);
        }
        let a: u8 = self.0;
        let b: u8 = other.0;
        let left: u8 = a & !b;
        assert(1 <= a <= 3 && 1 <= b <= 3 ==> (a & !b) <= 3 && (((a & !b) == 1 || (a & !b) == 3)
            <==> ((a == 1 || a == 3) && !(b == 1 || b == 3))) && (((a & !b) == 2 || (a & !b) == 3)
            <==> ((a == 2 || a == 3) && !(b == 2 || b == 3)))) by (bit_vector);
        if left == 0 {
            None
        } else {
            Some(Interest(left))
        }
    }

    /// Whether readable readiness is part of the set.
    pub fn is_readable(self) -> (r: bool)
        ensures
            r == self.wants_readable(),
    {
        proof {
            use_type_invariant(&self);
        }
        let a: u8 = self.0;
        assert(1 <= a <= 3 ==> ((a & 1 != 0) <==> (a == 1 || a == 3))) by (bit_vector);
        a & 1 != 0
    }

    /// Whether writable readiness is part of the set.
    pub fn is_writable(self) -> (r: bool)
        ensures
            r == self.wants_writable(),
    {
        proof {
            use_type_invariant(&self);
        }
        let a: u8 = self.0;
        assert(1 <= a <= 3 ==> ((a & 2 != 0) <==> (a == 2 || a == 3))) by (bit_vector);
        a & 2 != 0
    }
}

} // verus!
