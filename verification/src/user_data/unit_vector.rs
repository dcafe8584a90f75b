//! The unit of a value as a product of powers of named units.
use crate::user_data::value_information::Unit;
use vstd::prelude::*;

verus! {

/// Most factors that a [`UnitVector`] can hold.
pub const MAX_UNIT_FACTORS: usize = 10;

/// A named unit raised to a power, such as hours to the power of minus one.
#[derive(Debug, Clone, Copy, PartialEq, Eq, Structural)]
pub struct UnitFactor {
    /// The unit's name.
    pub unit: Unit,
    /// The power to which the unit is raised.
    pub exponent: i32,
}

/// A product of unit factors in the order in which the wire named them, held
/// inline. Nothing is cancelled or merged.
#[derive(Debug, Clone, Copy, PartialEq, Eq)]
pub struct UnitVector {
    factors: [UnitFactor; 10],
    len: usize,
}

/// What an unused slot of a [`UnitVector`] holds.
pub open spec fn unused_slot() -> UnitFactor {
    UnitFactor { unit: Unit::WithoutUnits, exponent: 0 }
}

impl View for UnitVector {
    type V = Seq<UnitFactor>;

    closed spec fn view(&self) -> Seq<UnitFactor> {
        self.factors@.subrange(0, self.len as int)
    }
}

impl UnitVector {
    #[verifier::type_invariant]
    spec fn inv(self) -> bool {
        &&& self.len <= MAX_UNIT_FACTORS
        &&& forall|k: int| self.len <= k < MAX_UNIT_FACTORS ==> self.factors@[k] == unused_slot()
    }

    /// The empty product.
    pub fn new() -> (r: UnitVector)
        ensures
            r@ == Seq::<UnitFactor>::empty(),
    {
        UnitVector { factors: [UnitFactor { unit: Unit::WithoutUnits, exponent: 0 };10], len: 0 }
    }

    /// The number of factors.
    pub fn len(&self) -> (n: usize)
        ensures
            n == self@.len(),
            n <= MAX_UNIT_FACTORS,
    {
        proof {
            use_type_invariant(self);
        }
        self.len
    }

    /// The factor at index `i`, if there is one.
    pub fn get(&self, i: usize) -> (r: Option<UnitFactor>)
        ensures
            r == if i < self@.len() {
                Some(self@[i as int])
            } else {
                None
            },
    {
        proof {
            use_type_invariant(self);
        }
        if i < self.len {
            Some(self.factors[i])
        } else {
            None
        }
    }

    /// Appends `factor`, unless the vector is full. Returns whether it was
    /// appended.
    pub fn push(&mut self, factor: UnitFactor) -> (pushed: bool)
        ensures
            pushed == (old(self)@.len() < MAX_UNIT_FACTORS),
            final(self)@ == if pushed {
                old(self)@.push(factor)
            } else {
                old(self)@
            },
    {
        proof {
            use_type_invariant(&*self);
        }
        if self.len < MAX_UNIT_FACTORS {
            let at: usize = self.len;
            let mut factors: [UnitFactor; 10] = self.factors;
            factors[at] = factor;
            *self = UnitVector { factors, len: at + 1 };
            assert(final(self)@ =~= old(self)@.push(factor));
            true
        } else {
            false
        }
    }
}

} // verus!
