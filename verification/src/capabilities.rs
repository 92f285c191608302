//! The capability bit-set. Capabilities are named optional features of the
//! instrumentation interface. A value of this type is a snapshot obtained by
//! value from the environment; it is never mutated in place by the interface —
//! the agent sends add/relinquish deltas instead, and the environment remains
//! the only source of truth for what is active.

use vstd::prelude::*;

verus! {

/// Bit index of the capability that permits tagging heap objects.
pub const CAN_TAG_OBJECTS_BIT: u32 = 0;

/// A snapshot of interface capabilities: one bit per named feature.
#[derive(Clone, Copy, Debug, PartialEq, Eq, Structural)]
pub struct Capabilities {
    /// The raw bits, one per capability, in the interface's bit order.
    pub bits: u128,
}

impl Capabilities {
    /// Whether the capability at bit `i` is set.
    pub open spec fn spec_has(self, i: u128) -> bool {
        (self.bits >> i) & 1 == 1
    }

    /// Whether every capability set here is also set in `other`.
    pub open spec fn spec_subset_of(self, other: Capabilities) -> bool {
        self.bits & other.bits == self.bits
    }

    /// The empty capability set.
    pub fn empty() -> (r: Self)
        ensures
            r.bits == 0,
            forall|i: u128| i < 128 ==> !r.spec_has(i),
    {
        proof {
            assert(forall|i: u128| i < 128 ==> !((0u128 >> i) & 1 == 1)) by (bit_vector);
        }
        Capabilities { bits: 0 }
    }

    /// Whether the capability at bit `i` is set.
    pub fn has_bit(&self, i: u32) -> (b: bool)
        requires
            i < 128,
        ensures
            b == self.spec_has(i as u128),
    {
        ((self.bits >> i) & 1) == 1
    }

    /// This set with the capability at bit `i` also set.
    pub fn with_bit(self, i: u32) -> (r: Self)
        requires
            i < 128,
        ensures
            r.bits == self.bits | (1u128 << (i as u128)),
            forall|j: u128| j < 128 ==> (r.spec_has(j) <==> self.spec_has(j) || j == i),
    {
        let r = Capabilities { bits: self.bits | (1u128 << i) };
        proof {
            let a = self.bits;
            let k = i as u128;
            assert(forall|j: u128|
                j < 128 ==> (((a | (1u128 << k)) >> j) & 1 == 1 <==> (a >> j) & 1 == 1 || j == k))
                by (bit_vector)
                requires
                    k < 128,
            ;
        }
        r
    }

    /// The union of two capability sets: a delta merged into a snapshot.
    pub fn union(self, other: Self) -> (r: Self)
        ensures
            r.bits == self.bits | other.bits,
            forall|i: u128| i < 128 ==> (r.spec_has(i) <==> self.spec_has(i) || other.spec_has(i)),
    {
        proof {
            lemma_union_has(self, other);
        }
        Capabilities { bits: self.bits | other.bits }
    }

    /// The capabilities set here and not in `other`: a delta subtracted from a
    /// snapshot.
    pub fn difference(self, other: Self) -> (r: Self)
        ensures
            r.bits == self.bits & !other.bits,
            forall|i: u128| i < 128 ==> (r.spec_has(i) <==> self.spec_has(i) && !other.spec_has(
                i,
            )),
    {
        proof {
            lemma_difference_has(self, other);
        }
        Capabilities { bits: self.bits & !other.bits }
    }

    /// Whether every capability set here is also set in `other`.
    pub fn is_subset_of(&self, other: &Self) -> (b: bool)
        ensures
            b == self.spec_subset_of(*other),
            b ==> forall|i: u128| i < 128 ==> (self.spec_has(i) ==> other.spec_has(i)),
    {
        proof {
            lemma_subset_has(*self, *other);
        }
        (self.bits & other.bits) == self.bits
    }

    /// Whether this snapshot permits tagging heap objects.
    pub fn can_tag_objects(&self) -> (b: bool)
        ensures
            b == self.spec_has(CAN_TAG_OBJECTS_BIT as u128),
    {
        self.has_bit(CAN_TAG_OBJECTS_BIT)
    }

    /// Sets or clears the object-tagging capability in this value. This edits
    /// only the local snapshot or delta; the environment is unaffected until
    /// the delta is sent.
    pub fn set_can_tag_objects(&mut self, value: bool)
        ensures
            final(self).spec_has(CAN_TAG_OBJECTS_BIT as u128) == value,
            forall|j: u128|
                0 < j < 128 ==> (final(self).spec_has(j) <==> old(self).spec_has(j)),
    {
        let a = self.bits;
        if value {
            self.bits = a | 1u128;
            proof {
                assert(forall|j: u128|
                    j < 128 ==> (((a | 1u128) >> j) & 1 == 1 <==> ((a >> j) & 1 == 1 || j == 0)))
                    by (bit_vector);
                assert(((a | 1u128) >> 0u128) & 1 == 1) by (bit_vector);
            }
        } else {
            self.bits = a & !1u128;
            proof {
                assert(forall|j: u128|
                    j < 128 ==> (((a & !1u128) >> j) & 1 == 1 <==> ((a >> j) & 1 == 1 && j != 0)))
                    by (bit_vector);
                assert(!(((a & !1u128) >> 0u128) & 1 == 1)) by (bit_vector);
            }
        }
    }
}

/// A merged delta sets exactly the capabilities of either operand.
pub proof fn lemma_union_has(a: Capabilities, b: Capabilities)
    ensures
        forall|i: u128|
            i < 128 ==> ((Capabilities { bits: a.bits | b.bits }).spec_has(i) <==> a.spec_has(i)
                || b.spec_has(i)),
{
    let x = a.bits;
    let y = b.bits;
    assert(forall|i: u128|
        i < 128 ==> (((x | y) >> i) & 1 == 1 <==> (x >> i) & 1 == 1 || (y >> i) & 1 == 1))
        by (bit_vector);
}

/// A subtracted delta clears exactly the capabilities it names.
pub proof fn lemma_difference_has(a: Capabilities, b: Capabilities)
    ensures
        forall|i: u128|
            i < 128 ==> ((Capabilities { bits: a.bits & !b.bits }).spec_has(i) <==> a.spec_has(i)
                && !b.spec_has(i)),
{
    let x = a.bits;
    let y = b.bits;
    assert(forall|i: u128|
        i < 128 ==> (((x & !y) >> i) & 1 == 1 <==> (x >> i) & 1 == 1 && !((y >> i) & 1 == 1)))
        by (bit_vector);
}

/// The bit-mask subset test implies per-capability containment.
pub proof fn lemma_subset_has(a: Capabilities, b: Capabilities)
    ensures
        a.spec_subset_of(b) ==> forall|i: u128| i < 128 ==> (a.spec_has(i) ==> b.spec_has(i)),
{
    let x = a.bits;
    let y = b.bits;
    assert(forall|i: u128|
        x & y == x && i < 128 ==> ((x >> i) & 1 == 1 ==> (y >> i) & 1 == 1)) by (bit_vector);
}

} // verus!
