//! Guards for memory the interface allocates and hands back: an array of
//! local object references, and an encoded string. Each guard owns its
//! contents and is released exactly once, by value, against the environment
//! that allocated it: first every contained handle, then the backing buffer.
//! A failed release step is recorded in the returned log rather than raised,
//! and never stops the remaining steps.

use crate::env::JvmtiEnv;
use crate::seqs::lemma_push_contains;
use crate::status::JvmtiFunction;
use crate::text::{decode_mutf8, mutf8_decoded};
use vstd::prelude::*;

verus! {

/// Marker for arrays whose elements are local object references, which the
/// VM releases one by one.
#[derive(Clone, Copy, Debug, PartialEq, Eq, Structural)]
pub struct LocalRef;

/// What one kind of allocated-array element needs for its release: giving a
/// batch of contained handles back to the VM, one by one, in order. A handle
/// the VM does not hold — because it was never handed out, or appears twice
/// in the batch — is recorded as not released, and the remaining handles are
/// still processed.
pub trait Allocation {
    /// Gives a batch of contained handles back to the VM.
    fn release_multiple(env: &mut JvmtiEnv, handles: &Vec<u64>) -> (log: Vec<ReleaseStep>)
        requires
            old(env).wf(),
        ensures
            final(env).wf(),
            log@.len() == handles@.len(),
            forall|k: int|
                0 <= k < handles@.len() ==> log@[k] == (ReleaseStep::Handle {
                    handle: handles@[k],
                    released: old(env).spec_has_ref(handles@[k]) && !handles@.take(k).contains(
                        handles@[k],
                    ),
                }),
            forall|h: u64|
                final(env).spec_has_ref(h) <==> (old(env).spec_has_ref(h) && !handles@.contains(
                    h,
                )),
            final(env).table == old(env).table,
            final(env).potential == old(env).potential,
            final(env).active == old(env).active,
            final(env).enabled@ == old(env).enabled@,
            final(env).callbacks == old(env).callbacks,
            final(env).classes@ == old(env).classes@,
            final(env).heap@ == old(env).heap@,
            final(env).allocations@ == old(env).allocations@,
            final(env).next_id == old(env).next_id,
    ;
}

/// One step of releasing a guard, in the order the steps were taken.
#[derive(Clone, Copy, Debug, PartialEq, Eq, Structural)]
pub enum ReleaseStep {
    /// One contained handle was given back; `released` says whether the VM
    /// held it as live.
    Handle {
        /// The handle that was given back.
        handle: u64,
        /// Whether the VM accepted the release.
        released: bool,
    },
    /// The backing buffer was given back; `released` says whether the
    /// environment held the allocation as live.
    Buffer {
        /// The identity of the allocation.
        allocation: u64,
        /// Whether the environment accepted the release.
        released: bool,
    },
}

impl Allocation for LocalRef {
    /// Gives a batch of local references back to the VM, one by one, in
    /// order.
    fn release_multiple(env: &mut JvmtiEnv, handles: &Vec<u64>) -> (log: Vec<ReleaseStep>) {
        let mut log: Vec<ReleaseStep> = Vec::new();
        let mut k: usize = 0;
        let n = handles.len();
        while k < n
            invariant
                k <= n,
                n == handles@.len(),
                env.wf(),
                log@.len() == k,
                forall|j: int|
                    0 <= j < k ==> log@[j] == (ReleaseStep::Handle {
                        handle: handles@[j],
                        released: old(env).spec_has_ref(handles@[j]) && !handles@.take(j).contains(
                            handles@[j],
                        ),
                    }),
                forall|h: u64|
                    env.spec_has_ref(h) <==> (old(env).spec_has_ref(h) && !handles@.take(
                        k as int,
                    ).contains(h)),
                env.table == old(env).table,
                env.potential == old(env).potential,
                env.active == old(env).active,
                env.enabled@ == old(env).enabled@,
                env.callbacks == old(env).callbacks,
                env.classes@ == old(env).classes@,
                env.heap@ == old(env).heap@,
                env.allocations@ == old(env).allocations@,
                env.next_id == old(env).next_id,
            decreases n - k,
        {
            let h = handles[k];
            let released = match env.delete_local_ref(h) {
                Ok(()) => true,
                Err(_) => false,
            };
            log.push(ReleaseStep::Handle { handle: h, released });
            proof {
                assert(handles@.take(k as int + 1) =~= handles@.take(k as int).push(
                    handles@[k as int],
                ));
                lemma_push_contains(handles@.take(k as int), handles@[k as int]);
            }
            k += 1;
        }
        proof {
            assert(handles@.take(n as int) =~= handles@);
        }
        log
    }
}

/// An owning guard over an interface-allocated array of handles, released
/// element-wise as the element kind `T` prescribes. It is created by the
/// environment call that allocated the array, read through its accessors, and
/// released exactly once, by value: every contained handle first, then the
/// backing buffer. No operation is possible after release, because release
/// consumes the guard.
#[derive(Debug)]
pub struct AllocatedArray<T: Allocation> {
    /// The contained handles.
    pub elements: Vec<u64>,
    /// The identity of the backing allocation.
    pub allocation: u64,
    /// The element kind, which prescribes how the handles are released.
    pub element_kind: core::marker::PhantomData<T>,
}

impl<T: Allocation> AllocatedArray<T> {
    /// Wraps an array the interface allocated: the handles it contains and
    /// the identity of the backing allocation. The caller attests that both
    /// came from the environment that will release them.
    pub fn new(elements: Vec<u64>, allocation: u64) -> (r: Self)
        ensures
            r.elements@ == elements@,
            r.allocation == allocation,
    {
        AllocatedArray { elements, allocation, element_kind: core::marker::PhantomData }
    }

    /// How many handles the array holds.
    pub fn len(&self) -> (n: usize)
        ensures
            n == self.elements@.len(),
    {
        self.elements.len()
    }

    /// The handle at one position.
    pub fn get(&self, i: usize) -> (h: u64)
        requires
            i < self.elements@.len(),
        ensures
            h == self.elements@[i as int],
    {
        self.elements[i]
    }

    /// All contained handles, in order.
    pub fn handles(&self) -> (r: &Vec<u64>)
        ensures
            r@ == self.elements@,
    {
        &self.elements
    }

    /// Releases the array against the environment that allocated it: every
    /// contained handle, in order, then the backing buffer. The returned log
    /// lists the steps in the order they were taken — all handles strictly
    /// before the buffer. A step the environment refuses is recorded, not
    /// raised. The guard is consumed: nothing can touch the array afterwards.
    pub fn release(self, env: &mut JvmtiEnv) -> (log: Vec<ReleaseStep>)
        requires
            old(env).wf(),
        ensures
            final(env).wf(),
            log@.len() == self.elements@.len() + 1,
            forall|k: int|
                0 <= k < self.elements@.len() ==> log@[k] == (ReleaseStep::Handle {
                    handle: self.elements@[k],
                    released: old(env).spec_has_ref(self.elements@[k])
                        && !self.elements@.take(k).contains(self.elements@[k]),
                }),
            log@.last() == (ReleaseStep::Buffer {
                allocation: self.allocation,
                released: old(env).table.spec_has(JvmtiFunction::Deallocate) && old(
                    env,
                ).spec_has_allocation(self.allocation),
            }),
            forall|h: u64|
                final(env).spec_has_ref(h) <==> (old(env).spec_has_ref(h)
                    && !self.elements@.contains(h)),
            old(env).table.spec_has(JvmtiFunction::Deallocate) ==> forall|a: u64|
                final(env).spec_has_allocation(a) <==> (old(env).spec_has_allocation(a) && a
                    != self.allocation),
            !old(env).table.spec_has(JvmtiFunction::Deallocate) ==> final(env).allocations@ == old(
                env,
            ).allocations@,
            final(env).table == old(env).table,
            final(env).potential == old(env).potential,
            final(env).active == old(env).active,
            final(env).enabled@ == old(env).enabled@,
            final(env).callbacks == old(env).callbacks,
            final(env).classes@ == old(env).classes@,
            final(env).heap@ == old(env).heap@,
            final(env).next_id == old(env).next_id,
    {
        let mut log = T::release_multiple(env, &self.elements);
        let released = match env.deallocate(self.allocation) {
            Ok(()) => true,
            Err(_) => false,
        };
        log.push(ReleaseStep::Buffer { allocation: self.allocation, released });
        log
    }
}

/// An owning guard over an interface-allocated, modified-UTF-8 encoded
/// string, such as a class signature. Read through its accessors; released
/// exactly once, by value, against the environment that allocated it.
#[derive(Debug)]
pub struct AllocatedMutf8 {
    /// The encoded bytes, without the terminator.
    pub bytes: Vec<u8>,
    /// The identity of the backing allocation.
    pub allocation: u64,
}

impl AllocatedMutf8 {
    /// Wraps an encoded string the interface allocated: its bytes, without
    /// the terminator, and the identity of the backing allocation. The caller
    /// attests that both came from the environment that will release them.
    pub fn new(bytes: Vec<u8>, allocation: u64) -> (r: Self)
        ensures
            r.bytes@ == bytes@,
            r.allocation == allocation,
    {
        AllocatedMutf8 { bytes, allocation }
    }

    /// How many encoded bytes the string holds.
    pub fn len(&self) -> (n: usize)
        ensures
            n == self.bytes@.len(),
    {
        self.bytes.len()
    }

    /// The encoded bytes, without the terminator.
    pub fn as_bytes(&self) -> (r: &Vec<u8>)
        ensures
            r@ == self.bytes@,
    {
        &self.bytes
    }

    /// Decodes the bytes to text, or nothing when they are not well-formed
    /// modified UTF-8.
    pub fn to_utf8(&self) -> (r: Option<String>)
        ensures
            r is Some <==> mutf8_decoded(self.bytes@) is Some,
            r matches Some(s) ==> mutf8_decoded(self.bytes@) == Some(s@),
            r is None ==> self.bytes@.len() != 0,
    {
        decode_mutf8(&self.bytes)
    }

    /// Releases the backing buffer against the environment that allocated
    /// it. The guard is consumed: nothing can touch the string afterwards.
    pub fn release(self, env: &mut JvmtiEnv) -> (step: ReleaseStep)
        requires
            old(env).wf(),
        ensures
            final(env).wf(),
            step == (ReleaseStep::Buffer {
                allocation: self.allocation,
                released: old(env).table.spec_has(JvmtiFunction::Deallocate) && old(
                    env,
                ).spec_has_allocation(self.allocation),
            }),
            old(env).table.spec_has(JvmtiFunction::Deallocate) ==> forall|a: u64|
                final(env).spec_has_allocation(a) <==> (old(env).spec_has_allocation(a) && a
                    != self.allocation),
            !old(env).table.spec_has(JvmtiFunction::Deallocate) ==> final(env).allocations@ == old(
                env,
            ).allocations@,
            final(env).table == old(env).table,
            final(env).potential == old(env).potential,
            final(env).active == old(env).active,
            final(env).enabled@ == old(env).enabled@,
            final(env).callbacks == old(env).callbacks,
            final(env).classes@ == old(env).classes@,
            final(env).heap@ == old(env).heap@,
            final(env).refs@ == old(env).refs@,
            final(env).next_id == old(env).next_id,
    {
        let released = match env.deallocate(self.allocation) {
            Ok(()) => true,
            Err(_) => false,
        };
        ReleaseStep::Buffer { allocation: self.allocation, released }
    }
}

} // verus!
