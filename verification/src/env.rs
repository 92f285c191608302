//! The environment handle: the owning abstraction over one VM instance's
//! instrumentation interface. It is obtained once from a VM handle, carries
//! the interface's function table and the negotiated state the VM holds for
//! this environment — active capabilities, enabled event kinds, the installed
//! callback table, the live heap, the local references and allocations handed
//! out — and is disposed exactly once, by value.

use crate::capabilities::{Capabilities, CAN_TAG_OBJECTS_BIT};
use crate::event::{EventCallbacks, EventScope, EventType};
use crate::heap::{HeapObject, HeapObjectKind, HeapVisitOutcome};
use crate::memory::{AllocatedArray, AllocatedMutf8, LocalRef};
use crate::seqs::{
    lemma_drop_matching_distinct, lemma_drop_matching_props, lemma_drop_matching_push,
    lemma_matching_indices_upto_bounds, lemma_matching_indices_upto_prefix, matching_indices,
    matching_indices_upto, seq_drop_matching,
};
use crate::status::{
    Error, JniError, JvmtiError, JvmtiFunction, JvmtiResult, NullPtrKind, JNI_ERR, JNI_OK,
    JVMTI_ERROR_ILLEGAL_ARGUMENT, JVMTI_ERROR_INVALID_CLASS, JVMTI_ERROR_NOT_AVAILABLE,
};
use vstd::prelude::*;

verus! {

/// Which slots of the interface's function table are filled. A conforming VM
/// fills them all; each call checks its slot rather than assuming it.
#[derive(Clone, Copy, Debug, PartialEq, Eq, Structural)]
pub struct FunctionTable {
    pub set_event_callbacks: bool,
    pub set_event_notification_mode: bool,
    pub get_loaded_classes: bool,
    pub get_potential_capabilities: bool,
    pub get_capabilities: bool,
    pub add_capabilities: bool,
    pub relinquish_capabilities: bool,
    pub iterate_through_heap: bool,
    pub get_objects_with_tags: bool,
    pub get_class_signature: bool,
    pub dispose_environment: bool,
    pub deallocate: bool,
}

impl FunctionTable {
    /// Whether the slot for one function is filled.
    pub open spec fn spec_has(self, f: JvmtiFunction) -> bool {
        match f {
            JvmtiFunction::SetEventCallbacks => self.set_event_callbacks,
            JvmtiFunction::SetEventNotificationMode => self.set_event_notification_mode,
            JvmtiFunction::GetLoadedClasses => self.get_loaded_classes,
            JvmtiFunction::GetPotentialCapabilities => self.get_potential_capabilities,
            JvmtiFunction::GetCapabilities => self.get_capabilities,
            JvmtiFunction::AddCapabilities => self.add_capabilities,
            JvmtiFunction::RelinquishCapabilities => self.relinquish_capabilities,
            JvmtiFunction::IterateThroughHeap => self.iterate_through_heap,
            JvmtiFunction::GetObjectsWithTags => self.get_objects_with_tags,
            JvmtiFunction::GetClassSignature => self.get_class_signature,
            JvmtiFunction::DisposeEnvironment => self.dispose_environment,
            JvmtiFunction::Deallocate => self.deallocate,
        }
    }

    /// The table a conforming VM exposes: every slot filled.
    pub fn full() -> (r: Self)
        ensures
            forall|f: JvmtiFunction| r.spec_has(f),
    {
        FunctionTable {
            set_event_callbacks: true,
            set_event_notification_mode: true,
            get_loaded_classes: true,
            get_potential_capabilities: true,
            get_capabilities: true,
            add_capabilities: true,
            relinquish_capabilities: true,
            iterate_through_heap: true,
            get_objects_with_tags: true,
            get_class_signature: true,
            dispose_environment: true,
            deallocate: true,
        }
    }
}

/// One loaded class the VM knows: its identity and its encoded type
/// signature, in modified UTF-8.
#[derive(Clone, Debug)]
pub struct ClassInfo {
    /// The identity of the class.
    pub id: u64,
    /// The class's type signature, in modified UTF-8.
    pub signature: Vec<u8>,
}

/// What one handed-out local reference refers to.
#[derive(Clone, Copy, Debug, PartialEq, Eq, Structural)]
pub enum RefTarget {
    /// A loaded class, by its position in the environment's class list.
    Class(usize),
    /// A heap object, by its position in the environment's heap.
    Object(usize),
}

/// One live local reference the environment handed out.
#[derive(Clone, Copy, Debug, PartialEq, Eq, Structural)]
pub struct LocalRefEntry {
    /// The reference's handle value.
    pub handle: u64,
    /// What the reference refers to.
    pub target: RefTarget,
}

/// A VM handle, as the environment query reads it: whether the required
/// pointers are present, what the version negotiation answers, and the state
/// the queried environment starts from. The query succeeds at most once per
/// handle; the handle then surrenders its class list and heap to the
/// environment.
#[derive(Debug)]
pub struct JavaVm {
    /// Whether the VM handle or its function table is null.
    pub vm_null: bool,
    /// Whether the VM's environment-query slot is filled.
    pub get_env_present: bool,
    /// What the version negotiation returns; zero means success.
    pub get_env_status: i32,
    /// The interface function table the environment will dispatch through.
    pub table: FunctionTable,
    /// The capabilities this VM can ever grant.
    pub potential: Capabilities,
    /// The classes loaded in this VM.
    pub classes: Vec<ClassInfo>,
    /// The live objects of this VM's heap.
    pub heap: Vec<HeapObject>,
    /// Whether an environment was already obtained from this handle.
    pub claimed: bool,
}

/// Every heap object reports its fields by a machine-width index.
pub open spec fn spec_heap_fields_bounded(heap: Seq<HeapObject>) -> bool {
    forall|i: int| 0 <= i < heap.len() ==> (#[trigger] heap[i]).fields@.len() <= i32::MAX
}

impl JavaVm {
    /// A healthy VM handle: pointers present, version negotiation succeeds,
    /// and the environment not yet claimed.
    pub fn new(
        table: FunctionTable,
        potential: Capabilities,
        classes: Vec<ClassInfo>,
        heap: Vec<HeapObject>,
    ) -> (r: Self)
        ensures
            !r.vm_null,
            r.get_env_present,
            r.get_env_status == JNI_OK,
            r.table == table,
            r.potential == potential,
            r.classes@ == classes@,
            r.heap@ == heap@,
            !r.claimed,
    {
        JavaVm {
            vm_null: false,
            get_env_present: true,
            get_env_status: JNI_OK,
            table,
            potential,
            classes,
            heap,
            claimed: false,
        }
    }

    /// Whether the environment query on this handle succeeds.
    pub open spec fn spec_valid(self) -> bool {
        !self.vm_null && self.get_env_present && self.get_env_status == JNI_OK && !self.claimed
    }
}

/// The environment handle, owning the state the VM keeps for it.
#[derive(Debug)]
pub struct JvmtiEnv {
    /// The interface's function table.
    pub table: FunctionTable,
    /// The capabilities this VM can ever grant.
    pub potential: Capabilities,
    /// The capabilities currently active for this environment.
    pub active: Capabilities,
    /// The (kind, scope) pairs for which notification is enabled.
    pub enabled: Vec<(EventType, EventScope)>,
    /// The installed callback table, if one was installed.
    pub callbacks: Option<EventCallbacks>,
    /// The classes loaded in the VM.
    pub classes: Vec<ClassInfo>,
    /// The live objects of the VM's heap.
    pub heap: Vec<HeapObject>,
    /// The live local references handed out by this environment.
    pub refs: Vec<LocalRefEntry>,
    /// The live interface allocations handed out by this environment.
    pub allocations: Vec<u64>,
    /// The next fresh handle or allocation identity.
    pub next_id: u64,
}

impl JvmtiEnv {
    /// Internal consistency: handed-out identities are below the fresh-id
    /// bound and pairwise distinct, every reference points into the class
    /// list or heap, and field counts fit the reporting index.
    pub open spec fn wf(self) -> bool {
        &&& forall|i: int|
            0 <= i < self.refs@.len() ==> (#[trigger] self.refs@[i]).handle < self.next_id
        &&& forall|i: int, j: int|
            0 <= i < j < self.refs@.len() ==> self.refs@[i].handle != self.refs@[j].handle
        &&& forall|i: int|
            0 <= i < self.refs@.len() ==> match (#[trigger] self.refs@[i]).target {
                RefTarget::Class(c) => c < self.classes@.len(),
                RefTarget::Object(o) => o < self.heap@.len(),
            }
        &&& forall|i: int|
            0 <= i < self.allocations@.len() ==> #[trigger] self.allocations@[i] < self.next_id
        &&& forall|i: int, j: int|
            0 <= i < j < self.allocations@.len() ==> self.allocations@[i]
                != self.allocations@[j]
        &&& spec_heap_fields_bounded(self.heap@)
    }

    /// Whether notification for one (kind, scope) pair is enabled.
    pub open spec fn spec_is_enabled(self, kind: EventType, scope: EventScope) -> bool {
        self.enabled@.contains((kind, scope))
    }

    /// Whether the environment holds a live local reference with this handle.
    pub open spec fn spec_has_ref(self, handle: u64) -> bool {
        exists|i: int| 0 <= i < self.refs@.len() && (#[trigger] self.refs@[i]).handle == handle
    }

    /// What the live local reference with this handle refers to, if one
    /// exists.
    pub open spec fn spec_ref_target(self, handle: u64) -> Option<RefTarget> {
        if self.spec_has_ref(handle) {
            let i = choose|i: int|
                0 <= i < self.refs@.len() && (#[trigger] self.refs@[i]).handle == handle;
            Some(self.refs@[i].target)
        } else {
            None
        }
    }

    /// Whether the environment holds a live allocation with this identity.
    pub open spec fn spec_has_allocation(self, allocation: u64) -> bool {
        self.allocations@.contains(allocation)
    }

    /// The design rule of event delivery: a callback fires for a kind, on a
    /// thread, only if a table is installed, the kind's slot is filled, and
    /// the kind is enabled globally or for that thread. Installing callbacks
    /// and enabling a kind are orthogonal; both are needed.
    pub open spec fn spec_event_fires(self, kind: EventType, thread: Option<u64>) -> bool {
        &&& (self.callbacks matches Some(cb) && cb.spec_slot(kind) is Some)
        &&& (self.spec_is_enabled(kind, EventScope::Global) || (thread matches Some(t)
            && self.spec_is_enabled(kind, EventScope::Thread(t))))
    }

    /// Queries the VM handle for this interface's environment. Fails with the
    /// null-pointer error when the handle, its table, or the query slot is
    /// null; with the translated query status when version negotiation fails;
    /// and with the generic failure code when this handle's environment was
    /// already taken. On success the handle is claimed and surrenders its
    /// class list and heap to the returned environment, which starts with no
    /// active capabilities, nothing enabled, and no callbacks installed.
    pub fn from_jvm(vm: &mut JavaVm) -> (r: JvmtiResult<JvmtiEnv>)
        requires
            spec_heap_fields_bounded(old(vm).heap@),
        ensures
            r is Ok <==> old(vm).spec_valid(),
            old(vm).vm_null ==> r == JvmtiResult::<JvmtiEnv>::Err(
                Error::Jni(JniError::NullPtr(NullPtrKind::JavaVm)),
            ),
            !old(vm).vm_null && !old(vm).get_env_present ==> r == JvmtiResult::<JvmtiEnv>::Err(
                Error::Jni(JniError::NullPtr(NullPtrKind::GetEnvFunction)),
            ),
            !old(vm).vm_null && old(vm).get_env_present && old(vm).claimed ==> r
                == JvmtiResult::<JvmtiEnv>::Err(Error::Jni(JniError::Unknown(JNI_ERR))),
            !old(vm).vm_null && old(vm).get_env_present && !old(vm).claimed && old(
                vm,
            ).get_env_status != JNI_OK ==> r == JvmtiResult::<JvmtiEnv>::Err(
                Error::Jni(crate::status::spec_jni_error_of(old(vm).get_env_status)),
            ),
            r matches Ok(env) ==> {
                &&& env.wf()
                &&& env.table == old(vm).table
                &&& env.potential == old(vm).potential
                &&& env.active.bits == 0
                &&& env.enabled@.len() == 0
                &&& env.callbacks is None
                &&& env.classes@ == old(vm).classes@
                &&& env.heap@ == old(vm).heap@
                &&& env.refs@.len() == 0
                &&& env.allocations@.len() == 0
            },
            final(vm).vm_null == old(vm).vm_null,
            final(vm).get_env_present == old(vm).get_env_present,
            final(vm).get_env_status == old(vm).get_env_status,
            final(vm).table == old(vm).table,
            final(vm).potential == old(vm).potential,
            final(vm).claimed == (old(vm).claimed || r is Ok),
            r is Ok ==> final(vm).classes@.len() == 0 && final(vm).heap@.len() == 0,
            !(r is Ok) ==> final(vm).classes@ == old(vm).classes@ && final(vm).heap@ == old(
                vm,
            ).heap@,
    {
        if vm.vm_null {
            return Err(Error::Jni(JniError::NullPtr(NullPtrKind::JavaVm)));
        }
        if !vm.get_env_present {
            return Err(Error::Jni(JniError::NullPtr(NullPtrKind::GetEnvFunction)));
        }
        if vm.claimed {
            return Err(Error::Jni(JniError::Unknown(JNI_ERR)));
        }
        match crate::status::jni_error_code_to_result(vm.get_env_status) {
            Err(e) => Err(Error::Jni(e)),
            Ok(()) => {
                let mut classes: Vec<ClassInfo> = Vec::new();
                let mut heap: Vec<HeapObject> = Vec::new();
                core::mem::swap(&mut classes, &mut vm.classes);
                core::mem::swap(&mut heap, &mut vm.heap);
                vm.claimed = true;
                Ok(
                    JvmtiEnv {
                        table: vm.table,
                        potential: vm.potential,
                        active: Capabilities { bits: 0 },
                        enabled: Vec::new(),
                        callbacks: None,
                        classes,
                        heap,
                        refs: Vec::new(),
                        allocations: Vec::new(),
                        next_id: 1,
                    },
                )
            },
        }
    }

    /// Installs the whole callback table at once; the previous table, if any,
    /// is replaced. Callbacks in the table fire only for kinds that are also
    /// enabled.
    pub fn install_event_callbacks(&mut self, callbacks: &EventCallbacks) -> (r: JvmtiResult<()>)
        requires
            old(self).wf(),
        ensures
            final(self).wf(),
            r is Ok <==> old(self).table.spec_has(JvmtiFunction::SetEventCallbacks),
            r is Err ==> *final(self) == *old(self) && r == JvmtiResult::<()>::Err(
                Error::NullFunction(JvmtiFunction::SetEventCallbacks),
            ),
            r is Ok ==> *final(self) == (JvmtiEnv {
                callbacks: Some(*callbacks),
                ..*old(self)
            }),
    {
        if !self.table.set_event_callbacks {
            return Err(Error::NullFunction(JvmtiFunction::SetEventCallbacks));
        }
        self.callbacks = Some(*callbacks);
        Ok(())
    }

    /// Whether notification for one (kind, scope) pair is currently enabled.
    pub fn is_event_enabled(&self, kind: EventType, scope: EventScope) -> (b: bool)
        ensures
            b == self.spec_is_enabled(kind, scope),
    {
        let mut i: usize = 0;
        let n = self.enabled.len();
        while i < n
            invariant
                i <= n,
                n == self.enabled@.len(),
                forall|j: int| 0 <= j < i ==> self.enabled@[j] != (kind, scope),
            decreases n - i,
        {
            let (k, s) = self.enabled[i];
            if k == kind && s == scope {
                assert(self.enabled@[i as int] == (kind, scope));
                return true;
            }
            i += 1;
        }
        assert(forall|j: int| 0 <= j < self.enabled@.len() ==> self.enabled@[j] != (kind, scope));
        false
    }

    /// How toggling notification for one (kind, scope) pair changes the
    /// enabled set: exactly that pair is added or removed, and nothing else
    /// of the environment moves.
    pub open spec fn spec_set_enabled_post(
        pre: JvmtiEnv,
        post: JvmtiEnv,
        kind: EventType,
        scope: EventScope,
        enabled: bool,
    ) -> bool {
        &&& forall|k2: EventType, s2: EventScope|
            post.spec_is_enabled(k2, s2) <==> if enabled {
                pre.spec_is_enabled(k2, s2) || (k2 == kind && s2 == scope)
            } else {
                pre.spec_is_enabled(k2, s2) && !(k2 == kind && s2 == scope)
            }
        &&& post.table == pre.table
        &&& post.potential == pre.potential
        &&& post.active == pre.active
        &&& post.callbacks == pre.callbacks
        &&& post.classes@ == pre.classes@
        &&& post.heap@ == pre.heap@
        &&& post.refs@ == pre.refs@
        &&& post.allocations@ == pre.allocations@
        &&& post.next_id == pre.next_id
    }

    /// Toggles notification for one event kind at one scope. Enabling an
    /// already enabled pair, or disabling an absent one, changes nothing.
    /// Whether the kind's callback slot is filled is not consulted: an
    /// enabled kind with an unset slot simply never fires.
    pub fn set_event_enabled(&mut self, ty: EventType, scope: EventScope, enabled: bool) -> (r:
        JvmtiResult<()>)
        requires
            old(self).wf(),
        ensures
            final(self).wf(),
            r is Ok <==> old(self).table.spec_has(JvmtiFunction::SetEventNotificationMode),
            r is Err ==> *final(self) == *old(self) && r == JvmtiResult::<()>::Err(
                Error::NullFunction(JvmtiFunction::SetEventNotificationMode),
            ),
            r is Ok ==> Self::spec_set_enabled_post(*old(self), *final(self), ty, scope, enabled),
    {
        if !self.table.set_event_notification_mode {
            return Err(Error::NullFunction(JvmtiFunction::SetEventNotificationMode));
        }
        if enabled {
            if !self.is_event_enabled(ty, scope) {
                self.enabled.push((ty, scope));
                proof {
                    assert forall|k2: EventType, s2: EventScope|
                        self.spec_is_enabled(k2, s2) <==> (old(self).spec_is_enabled(k2, s2) || (k2
                            == ty && s2 == scope)) by {
                        let s = old(self).enabled@;
                        assert(self.enabled@ == s.push((ty, scope)));
                        if self.spec_is_enabled(k2, s2) {
                            let j = choose|j: int|
                                0 <= j < self.enabled@.len() && self.enabled@[j] == (k2, s2);
                            if j < s.len() {
                                assert(s[j] == (k2, s2));
                            }
                        }
                        if old(self).spec_is_enabled(k2, s2) {
                            let j = choose|j: int| 0 <= j < s.len() && s[j] == (k2, s2);
                            assert(self.enabled@[j] == (k2, s2));
                        }
                        if k2 == ty && s2 == scope {
                            assert(self.enabled@[s.len() as int] == (k2, s2));
                        }
                    }
                }
            }
            Ok(())
        } else {
            let mut kept: Vec<(EventType, EventScope)> = Vec::new();
            let mut i: usize = 0;
            let n = self.enabled.len();
            let ghost drop = |p: (EventType, EventScope)| p == (ty, scope);
            while i < n
                invariant
                    i <= n,
                    n == self.enabled@.len(),
                    drop == (|p: (EventType, EventScope)| p == (ty, scope)),
                    kept@ == seq_drop_matching(self.enabled@.take(i as int), drop),
                decreases n - i,
            {
                let (k, s) = self.enabled[i];
                proof {
                    assert(self.enabled@.take(i as int + 1) =~= self.enabled@.take(i as int).push(
                        self.enabled@[i as int],
                    ));
                    lemma_drop_matching_push(self.enabled@.take(i as int), drop, self.enabled@[i as int]);
                }
                if !(k == ty && s == scope) {
                    kept.push((k, s));
                }
                i += 1;
            }
            proof {
                assert(self.enabled@.take(n as int) =~= self.enabled@);
            }
            self.enabled = kept;
            proof {
                lemma_drop_matching_props(old(self).enabled@, drop);
                assert forall|k2: EventType, s2: EventScope|
                    self.spec_is_enabled(k2, s2) <==> (old(self).spec_is_enabled(k2, s2) && !(k2
                        == ty && s2 == scope)) by {
                    assert(self.enabled@.contains((k2, s2)) <==> (old(self).enabled@.contains(
                        (k2, s2),
                    ) && !drop((k2, s2))));
                }
            }
            Ok(())
        }
    }

    /// Enables notification for one event kind at one scope.
    pub fn enable_event(&mut self, ty: EventType, scope: EventScope) -> (r: JvmtiResult<()>)
        requires
            old(self).wf(),
        ensures
            final(self).wf(),
            r is Ok <==> old(self).table.spec_has(JvmtiFunction::SetEventNotificationMode),
            r is Err ==> *final(self) == *old(self) && r == JvmtiResult::<()>::Err(
                Error::NullFunction(JvmtiFunction::SetEventNotificationMode),
            ),
            r is Ok ==> Self::spec_set_enabled_post(*old(self), *final(self), ty, scope, true),
    {
        self.set_event_enabled(ty, scope, true)
    }

    /// Disables notification for one event kind at one scope.
    pub fn disable_event(&mut self, ty: EventType, scope: EventScope) -> (r: JvmtiResult<()>)
        requires
            old(self).wf(),
        ensures
            final(self).wf(),
            r is Ok <==> old(self).table.spec_has(JvmtiFunction::SetEventNotificationMode),
            r is Err ==> *final(self) == *old(self) && r == JvmtiResult::<()>::Err(
                Error::NullFunction(JvmtiFunction::SetEventNotificationMode),
            ),
            r is Ok ==> Self::spec_set_enabled_post(*old(self), *final(self), ty, scope, false),
    {
        self.set_event_enabled(ty, scope, false)
    }

    /// The callback the VM would invoke for one event kind delivered on one
    /// thread, under the design rule of event delivery: the kind's slot, if a
    /// table is installed, the slot is filled, and the kind is enabled
    /// globally or for that thread.
    pub fn dispatch_event(&self, kind: EventType, thread: Option<u64>) -> (r: Option<u64>)
        ensures
            r is Some <==> self.spec_event_fires(kind, thread),
            r matches Some(cb) ==> self.callbacks matches Some(t) && t.spec_slot(kind) == Some(cb),
    {
        let enabled_here = self.is_event_enabled(kind, EventScope::Global) || (match thread {
            Some(t) => self.is_event_enabled(kind, EventScope::Thread(t)),
            None => false,
        });
        match &self.callbacks {
            Some(table) => {
                match table.slot(kind) {
                    Some(cb) => {
                        if enabled_here {
                            Some(cb)
                        } else {
                            None
                        }
                    },
                    None => None,
                }
            },
            None => None,
        }
    }

    /// A snapshot of the capabilities this VM can ever grant.
    pub fn get_potential_capabilities(&self) -> (r: JvmtiResult<Capabilities>)
        ensures
            r is Ok <==> self.table.spec_has(JvmtiFunction::GetPotentialCapabilities),
            r matches Ok(c) ==> c == self.potential,
            r is Err ==> r == JvmtiResult::<Capabilities>::Err(
                Error::NullFunction(JvmtiFunction::GetPotentialCapabilities),
            ),
    {
        if !self.table.get_potential_capabilities {
            return Err(Error::NullFunction(JvmtiFunction::GetPotentialCapabilities));
        }
        Ok(self.potential)
    }

    /// A snapshot of the capabilities currently active for this environment.
    /// No local cache stands between the caller and the VM: every query asks
    /// the environment anew.
    pub fn get_capabilities(&self) -> (r: JvmtiResult<Capabilities>)
        ensures
            r is Ok <==> self.table.spec_has(JvmtiFunction::GetCapabilities),
            r matches Ok(c) ==> c == self.active,
            r is Err ==> r == JvmtiResult::<Capabilities>::Err(
                Error::NullFunction(JvmtiFunction::GetCapabilities),
            ),
    {
        if !self.table.get_capabilities {
            return Err(Error::NullFunction(JvmtiFunction::GetCapabilities));
        }
        Ok(self.active)
    }

    /// Sends a capability delta to be merged into the active set. The VM
    /// grants only what is potentially available: a delta outside the
    /// potential set is refused whole.
    pub fn add_capabilities(&mut self, capabilities: &Capabilities) -> (r: JvmtiResult<()>)
        requires
            old(self).wf(),
        ensures
            final(self).wf(),
            r is Ok <==> old(self).table.spec_has(JvmtiFunction::AddCapabilities)
                && capabilities.spec_subset_of(old(self).potential),
            !old(self).table.spec_has(JvmtiFunction::AddCapabilities) ==> r == JvmtiResult::<
                (),
            >::Err(Error::NullFunction(JvmtiFunction::AddCapabilities)),
            old(self).table.spec_has(JvmtiFunction::AddCapabilities)
                && !capabilities.spec_subset_of(old(self).potential) ==> r == JvmtiResult::<
                (),
            >::Err(Error::Jvmti(JvmtiError::Other(JVMTI_ERROR_NOT_AVAILABLE))),
            r is Err ==> *final(self) == *old(self),
            r is Ok ==> *final(self) == (JvmtiEnv {
                active: Capabilities { bits: old(self).active.bits | capabilities.bits },
                ..*old(self)
            }),
    {
        if !self.table.add_capabilities {
            return Err(Error::NullFunction(JvmtiFunction::AddCapabilities));
        }
        if !capabilities.is_subset_of(&self.potential) {
            return Err(Error::Jvmti(JvmtiError::Other(JVMTI_ERROR_NOT_AVAILABLE)));
        }
        self.active = self.active.union(*capabilities);
        Ok(())
    }

    /// Sends a capability delta to be subtracted from the active set.
    /// Relinquishing a capability that is not active changes nothing.
    pub fn relinquish_capabilities(&mut self, capabilities: &Capabilities) -> (r: JvmtiResult<()>)
        requires
            old(self).wf(),
        ensures
            final(self).wf(),
            r is Ok <==> old(self).table.spec_has(JvmtiFunction::RelinquishCapabilities),
            r is Err ==> *final(self) == *old(self) && r == JvmtiResult::<()>::Err(
                Error::NullFunction(JvmtiFunction::RelinquishCapabilities),
            ),
            r is Ok ==> *final(self) == (JvmtiEnv {
                active: Capabilities { bits: old(self).active.bits & !capabilities.bits },
                ..*old(self)
            }),
    {
        if !self.table.relinquish_capabilities {
            return Err(Error::NullFunction(JvmtiFunction::RelinquishCapabilities));
        }
        self.active = self.active.difference(*capabilities);
        Ok(())
    }

    /// Disposes the environment, by value: no call is possible afterwards.
    /// Disposal itself can still fail when the table slot is absent, but the
    /// handle is gone either way.
    pub fn dispose(self) -> (r: JvmtiResult<()>)
        ensures
            r is Ok <==> self.table.spec_has(JvmtiFunction::DisposeEnvironment),
            r is Err ==> r == JvmtiResult::<()>::Err(
                Error::NullFunction(JvmtiFunction::DisposeEnvironment),
            ),
    {
        if !self.table.dispose_environment {
            return Err(Error::NullFunction(JvmtiFunction::DisposeEnvironment));
        }
        Ok(())
    }

    /// Gives one interface allocation back. Succeeds exactly on a live
    /// allocation of this environment; the identity is dead afterwards, so a
    /// second release of the same allocation fails.
    pub fn deallocate(&mut self, allocation: u64) -> (r: JvmtiResult<()>)
        requires
            old(self).wf(),
        ensures
            final(self).wf(),
            r is Ok <==> old(self).table.spec_has(JvmtiFunction::Deallocate) && old(
                self,
            ).spec_has_allocation(allocation),
            !old(self).table.spec_has(JvmtiFunction::Deallocate) ==> r == JvmtiResult::<()>::Err(
                Error::NullFunction(JvmtiFunction::Deallocate),
            ) && *final(self) == *old(self),
            old(self).table.spec_has(JvmtiFunction::Deallocate) && !old(self).spec_has_allocation(
                allocation,
            ) ==> r == JvmtiResult::<()>::Err(
                Error::Jvmti(JvmtiError::Other(JVMTI_ERROR_ILLEGAL_ARGUMENT)),
            ),
            old(self).table.spec_has(JvmtiFunction::Deallocate) ==> final(self).allocations@
                == seq_drop_matching(old(self).allocations@, |a: u64| a == allocation),
            old(self).table.spec_has(JvmtiFunction::Deallocate) ==> forall|a: u64|
                final(self).spec_has_allocation(a) <==> (old(self).spec_has_allocation(a) && a
                    != allocation),
            final(self).table == old(self).table,
            final(self).potential == old(self).potential,
            final(self).active == old(self).active,
            final(self).enabled@ == old(self).enabled@,
            final(self).callbacks == old(self).callbacks,
            final(self).classes@ == old(self).classes@,
            final(self).heap@ == old(self).heap@,
            final(self).refs@ == old(self).refs@,
            final(self).next_id == old(self).next_id,
    {
        let ghost drop = |a: u64| a == allocation;
        if !self.table.deallocate {
            return Err(Error::NullFunction(JvmtiFunction::Deallocate));
        }
        let mut kept: Vec<u64> = Vec::new();
        let mut found = false;
        let mut i: usize = 0;
        let n = self.allocations.len();
        while i < n
            invariant
                i <= n,
                n == self.allocations@.len(),
                drop == (|a: u64| a == allocation),
                kept@ == seq_drop_matching(self.allocations@.take(i as int), drop),
                found == self.allocations@.take(i as int).contains(allocation),
            decreases n - i,
        {
            let a = self.allocations[i];
            proof {
                assert(self.allocations@.take(i as int + 1) =~= self.allocations@.take(
                    i as int,
                ).push(self.allocations@[i as int]));
                lemma_drop_matching_push(self.allocations@.take(i as int), drop, self.allocations@[i as int]);
                if self.allocations@.take(i as int).contains(allocation) {
                    let j = choose|j: int|
                        0 <= j < i && #[trigger] self.allocations@.take(i as int)[j] == allocation;
                    assert(self.allocations@.take(i as int + 1)[j] == allocation);
                }
                if self.allocations@[i as int] == allocation {
                    assert(self.allocations@.take(i as int + 1)[i as int] == allocation);
                }
                if self.allocations@.take(i as int + 1).contains(allocation) && !(
                self.allocations@[i as int] == allocation) {
                    let j = choose|j: int|
                        0 <= j < i + 1 && #[trigger] self.allocations@.take(i as int + 1)[j]
                            == allocation;
                    assert(self.allocations@.take(i as int)[j] == allocation);
                }
            }
            if a == allocation {
                found = true;
            } else {
                kept.push(a);
            }
            i += 1;
        }
        proof {
            assert(self.allocations@.take(n as int) =~= self.allocations@);
        }
        let was_live = found;
        self.allocations = kept;
        proof {
            lemma_drop_matching_props(old(self).allocations@, drop);
            lemma_drop_matching_distinct(old(self).allocations@, drop, |a: u64| a);
            assert forall|a: u64|
                self.spec_has_allocation(a) <==> (old(self).spec_has_allocation(a) && a
                    != allocation) by {
                assert(self.allocations@.contains(a) <==> (old(self).allocations@.contains(a)
                    && !drop(a)));
            }
            assert forall|k: int|
                0 <= k < self.allocations@.len() implies #[trigger] self.allocations@[k] < self.next_id by {
                assert(old(self).allocations@.contains(self.allocations@[k]));
                let j = choose|j: int|
                    0 <= j < old(self).allocations@.len() && old(self).allocations@[j]
                        == self.allocations@[k];
            }
        }
        if was_live {
            Ok(())
        } else {
            Err(Error::Jvmti(JvmtiError::Other(JVMTI_ERROR_ILLEGAL_ARGUMENT)))
        }
    }

    /// Gives one local reference back to the VM. Succeeds exactly on a live
    /// reference of this environment; the handle is dead afterwards.
    pub fn delete_local_ref(&mut self, handle: u64) -> (r: Result<(), JniError>)
        requires
            old(self).wf(),
        ensures
            final(self).wf(),
            r is Ok <==> old(self).spec_has_ref(handle),
            r is Err ==> r == Result::<(), JniError>::Err(JniError::Unknown(JNI_ERR)),
            final(self).refs@ == seq_drop_matching(
                old(self).refs@,
                |e: LocalRefEntry| e.handle == handle,
            ),
            forall|h: u64|
                final(self).spec_has_ref(h) <==> (old(self).spec_has_ref(h) && h != handle),
            final(self).table == old(self).table,
            final(self).potential == old(self).potential,
            final(self).active == old(self).active,
            final(self).enabled@ == old(self).enabled@,
            final(self).callbacks == old(self).callbacks,
            final(self).classes@ == old(self).classes@,
            final(self).heap@ == old(self).heap@,
            final(self).allocations@ == old(self).allocations@,
            final(self).next_id == old(self).next_id,
    {
        let ghost drop = |e: LocalRefEntry| e.handle == handle;
        let mut kept: Vec<LocalRefEntry> = Vec::new();
        let mut found = false;
        let mut i: usize = 0;
        let n = self.refs.len();
        while i < n
            invariant
                i <= n,
                n == self.refs@.len(),
                drop == (|e: LocalRefEntry| e.handle == handle),
                kept@ == seq_drop_matching(self.refs@.take(i as int), drop),
                found == exists|j: int| 0 <= j < i && (#[trigger] self.refs@[j]).handle == handle,
            decreases n - i,
        {
            let e = self.refs[i];
            proof {
                assert(self.refs@.take(i as int + 1) =~= self.refs@.take(i as int).push(
                    self.refs@[i as int],
                ));
                lemma_drop_matching_push(self.refs@.take(i as int), drop, self.refs@[i as int]);
            }
            if e.handle == handle {
                found = true;
            } else {
                kept.push(e);
            }
            i += 1;
        }
        proof {
            assert(self.refs@.take(n as int) =~= self.refs@);
        }
        let was_live = found;
        self.refs = kept;
        proof {
            lemma_drop_matching_props(old(self).refs@, drop);
            lemma_drop_matching_distinct(old(self).refs@, drop, |e: LocalRefEntry| e.handle);
            assert forall|h: u64|
                self.spec_has_ref(h) <==> (old(self).spec_has_ref(h) && h != handle) by {
                if self.spec_has_ref(h) {
                    let k = choose|k: int|
                        0 <= k < self.refs@.len() && (#[trigger] self.refs@[k]).handle == h;
                    assert(self.refs@.contains(self.refs@[k]));
                    assert(old(self).refs@.contains(self.refs@[k]) && !drop(self.refs@[k]));
                    let j = choose|j: int|
                        0 <= j < old(self).refs@.len() && old(self).refs@[j] == self.refs@[k];
                    assert(old(self).spec_has_ref(h));
                }
                if old(self).spec_has_ref(h) && h != handle {
                    let k = choose|k: int|
                        0 <= k < old(self).refs@.len() && (#[trigger] old(self).refs@[k]).handle
                            == h;
                    assert(old(self).refs@.contains(old(self).refs@[k]));
                    assert(!drop(old(self).refs@[k]));
                    assert(self.refs@.contains(old(self).refs@[k]));
                    let j = choose|j: int|
                        0 <= j < self.refs@.len() && self.refs@[j] == old(self).refs@[k];
                }
            }
            assert forall|k: int|
                0 <= k < self.refs@.len() implies (#[trigger] self.refs@[k]).handle
                < self.next_id && match self.refs@[k].target {
                RefTarget::Class(c) => c < self.classes@.len(),
                RefTarget::Object(o) => o < self.heap@.len(),
            } by {
                assert(old(self).refs@.contains(self.refs@[k]));
                let j = choose|j: int|
                    0 <= j < old(self).refs@.len() && old(self).refs@[j] == self.refs@[k];
            }
            if old(self).spec_has_ref(handle) {
                let k = choose|k: int|
                    0 <= k < old(self).refs@.len() && (#[trigger] old(self).refs@[k]).handle
                        == handle;
            }
        }
        if was_live {
            Ok(())
        } else {
            Err(JniError::Unknown(JNI_ERR))
        }
    }

    /// Looks a handle up among the live local references.
    pub fn find_ref(&self, handle: u64) -> (r: Option<RefTarget>)
        requires
            self.wf(),
        ensures
            r == self.spec_ref_target(handle),
            r is Some <==> self.spec_has_ref(handle),
    {
        let mut i: usize = 0;
        let n = self.refs.len();
        while i < n
            invariant
                i <= n,
                n == self.refs@.len(),
                self.wf(),
                forall|j: int| 0 <= j < i ==> (#[trigger] self.refs@[j]).handle != handle,
            decreases n - i,
        {
            let e = self.refs[i];
            if e.handle == handle {
                proof {
                    assert(self.spec_has_ref(handle));
                    let j = choose|j: int|
                        0 <= j < self.refs@.len() && (#[trigger] self.refs@[j]).handle == handle;
                    assert(j == i as int);
                }
                return Some(e.target);
            }
            i += 1;
        }
        proof {
            if self.spec_has_ref(handle) {
                let j = choose|j: int|
                    0 <= j < self.refs@.len() && (#[trigger] self.refs@[j]).handle == handle;
            }
        }
        None
    }
}

impl JvmtiEnv {
    /// Hands out fresh local references, one per target, and one fresh
    /// allocation to back the returned array.
    fn mint_refs(&mut self, targets: Vec<RefTarget>) -> (r: AllocatedArray<LocalRef>)
        requires
            old(self).wf(),
            forall|k: int|
                0 <= k < targets@.len() ==> match #[trigger] targets@[k] {
                    RefTarget::Class(c) => c < old(self).classes@.len(),
                    RefTarget::Object(o) => o < old(self).heap@.len(),
                },
            old(self).next_id + targets@.len() + 1 <= u64::MAX,
        ensures
            final(self).wf(),
            r.elements@.len() == targets@.len(),
            forall|k: int| 0 <= k < targets@.len() ==> r.elements@[k] == old(self).next_id + k,
            r.allocation == old(self).next_id + targets@.len(),
            final(self).refs@ == old(self).refs@ + Seq::new(
                targets@.len(),
                |k: int|
                    LocalRefEntry {
                        handle: (old(self).next_id + k) as u64,
                        target: targets@[k],
                    },
            ),
            final(self).allocations@ == old(self).allocations@.push(
                (old(self).next_id + targets@.len()) as u64,
            ),
            final(self).next_id == old(self).next_id + targets@.len() + 1,
            final(self).table == old(self).table,
            final(self).potential == old(self).potential,
            final(self).active == old(self).active,
            final(self).enabled@ == old(self).enabled@,
            final(self).callbacks == old(self).callbacks,
            final(self).classes@ == old(self).classes@,
            final(self).heap@ == old(self).heap@,
    {
        let n = targets.len();
        let mut elements: Vec<u64> = Vec::new();
        let mut k: usize = 0;
        while k < n
            invariant
                k <= n,
                n == targets@.len(),
                self.wf(),
                old(self).wf(),
                forall|j: int|
                    0 <= j < targets@.len() ==> match #[trigger] targets@[j] {
                        RefTarget::Class(c) => c < old(self).classes@.len(),
                        RefTarget::Object(o) => o < old(self).heap@.len(),
                    },
                old(self).next_id + n + 1 <= u64::MAX,
                self.next_id == old(self).next_id + k,
                elements@.len() == k,
                forall|j: int| 0 <= j < k ==> elements@[j] == old(self).next_id + j,
                self.refs@ == old(self).refs@ + Seq::new(
                    k as nat,
                    |j: int|
                        LocalRefEntry {
                            handle: (old(self).next_id + j) as u64,
                            target: targets@[j],
                        },
                ),
                self.table == old(self).table,
                self.potential == old(self).potential,
                self.active == old(self).active,
                self.enabled@ == old(self).enabled@,
                self.callbacks == old(self).callbacks,
                self.classes@ == old(self).classes@,
                self.heap@ == old(self).heap@,
                self.allocations@ == old(self).allocations@,
            decreases n - k,
        {
            let h = self.next_id;
            let target = targets[k];
            self.refs.push(LocalRefEntry { handle: h, target });
            elements.push(h);
            self.next_id = h + 1;
            proof {
                assert(self.refs@ =~= old(self).refs@ + Seq::new(
                    (k + 1) as nat,
                    |j: int|
                        LocalRefEntry {
                            handle: (old(self).next_id + j) as u64,
                            target: targets@[j],
                        },
                ));
            }
            k += 1;
        }
        let allocation = self.next_id;
        self.allocations.push(allocation);
        self.next_id = allocation + 1;
        AllocatedArray { elements, allocation, element_kind: core::marker::PhantomData }
    }

    /// Asks the VM for every loaded class, handed back as an allocated array
    /// of fresh local references, one per class, in class-list order.
    pub fn get_loaded_classes(&mut self) -> (r: JvmtiResult<AllocatedArray<LocalRef>>)
        requires
            old(self).wf(),
            old(self).next_id + old(self).classes@.len() + 1 <= u64::MAX,
        ensures
            final(self).wf(),
            r is Ok <==> old(self).table.spec_has(JvmtiFunction::GetLoadedClasses),
            r is Err ==> *final(self) == *old(self) && r == JvmtiResult::<AllocatedArray<LocalRef>>::Err(
                Error::NullFunction(JvmtiFunction::GetLoadedClasses),
            ),
            r matches Ok(arr) ==> {
                &&& arr.elements@.len() == old(self).classes@.len()
                &&& (forall|k: int|
                    0 <= k < old(self).classes@.len() ==> arr.elements@[k] == old(self).next_id
                        + k)
                &&& arr.allocation == old(self).next_id + old(self).classes@.len()
                &&& final(self).refs@ == old(self).refs@ + Seq::new(
                    old(self).classes@.len(),
                    |k: int|
                        LocalRefEntry {
                            handle: (old(self).next_id + k) as u64,
                            target: RefTarget::Class(k as usize),
                        },
                )
                &&& final(self).allocations@ == old(self).allocations@.push(arr.allocation)
                &&& final(self).next_id == old(self).next_id + old(self).classes@.len() + 1
                &&& final(self).table == old(self).table
                &&& final(self).potential == old(self).potential
                &&& final(self).active == old(self).active
                &&& final(self).enabled@ == old(self).enabled@
                &&& final(self).callbacks == old(self).callbacks
                &&& final(self).classes@ == old(self).classes@
                &&& final(self).heap@ == old(self).heap@
            },
    {
        if !self.table.get_loaded_classes {
            return Err(Error::NullFunction(JvmtiFunction::GetLoadedClasses));
        }
        let n = self.classes.len();
        let mut targets: Vec<RefTarget> = Vec::new();
        let mut k: usize = 0;
        while k < n
            invariant
                k <= n,
                targets@.len() == k,
                forall|j: int| 0 <= j < k ==> targets@[j] == RefTarget::Class(j as usize),
            decreases n - k,
        {
            targets.push(RefTarget::Class(k));
            k += 1;
        }
        let arr = self.mint_refs(targets);
        proof {
            assert(self.refs@ =~= old(self).refs@ + Seq::new(
                old(self).classes@.len(),
                |k: int|
                    LocalRefEntry {
                        handle: (old(self).next_id + k) as u64,
                        target: RefTarget::Class(k as usize),
                    },
            ));
        }
        Ok(arr)
    }

    /// Asks the VM for every live object carrying any of the given tags,
    /// handed back as an allocated array of fresh local references, in heap
    /// order. Needs the object-tagging capability; an empty tag list and the
    /// zero tag are refused by the interface.
    pub fn get_objects_with_tags(&mut self, tags: &Vec<i64>) -> (r: JvmtiResult<
        AllocatedArray<LocalRef>,
    >)
        requires
            old(self).wf(),
            old(self).next_id + old(self).heap@.len() + 1 <= u64::MAX,
            tags@.len() <= i32::MAX,
        ensures
            final(self).wf(),
            r is Ok <==> (old(self).table.spec_has(JvmtiFunction::GetObjectsWithTags) && old(
                self,
            ).active.spec_has(CAN_TAG_OBJECTS_BIT as u128) && tags@.len() > 0 && !tags@.contains(
                0,
            )),
            !old(self).table.spec_has(JvmtiFunction::GetObjectsWithTags) ==> r
                == JvmtiResult::<AllocatedArray<LocalRef>>::Err(
                Error::NullFunction(JvmtiFunction::GetObjectsWithTags),
            ),
            old(self).table.spec_has(JvmtiFunction::GetObjectsWithTags) && !old(
                self,
            ).active.spec_has(CAN_TAG_OBJECTS_BIT as u128) ==> r
                == JvmtiResult::<AllocatedArray<LocalRef>>::Err(
                Error::Jvmti(JvmtiError::MissingCapability),
            ),
            old(self).table.spec_has(JvmtiFunction::GetObjectsWithTags) && old(
                self,
            ).active.spec_has(CAN_TAG_OBJECTS_BIT as u128) && (tags@.len() == 0 || tags@.contains(
                0,
            )) ==> r == JvmtiResult::<AllocatedArray<LocalRef>>::Err(
                Error::Jvmti(JvmtiError::Other(JVMTI_ERROR_ILLEGAL_ARGUMENT)),
            ),
            r is Err ==> *final(self) == *old(self),
            r matches Ok(arr) ==> spec_tag_query_post(*old(self), *final(self), tags@, arr),
    {
        if !self.table.get_objects_with_tags {
            return Err(Error::NullFunction(JvmtiFunction::GetObjectsWithTags));
        }
        if !self.active.can_tag_objects() {
            return Err(Error::Jvmti(JvmtiError::MissingCapability));
        }
        let has_zero = contains_i64(tags, 0);
        if tags.len() == 0 || has_zero {
            return Err(Error::Jvmti(JvmtiError::Other(JVMTI_ERROR_ILLEGAL_ARGUMENT)));
        }
        let ghost pred = spec_tag_matcher(tags@);
        let n = self.heap.len();
        let mut targets: Vec<RefTarget> = Vec::new();
        let mut i: usize = 0;
        while i < n
            invariant
                i <= n,
                n == self.heap@.len(),
                pred == spec_tag_matcher(tags@),
                targets@.len() == matching_indices_upto(self.heap@, pred, i as int).len(),
                forall|j: int|
                    0 <= j < targets@.len() ==> targets@[j] == RefTarget::Object(
                        matching_indices_upto(self.heap@, pred, i as int)[j] as usize,
                    ),
            decreases n - i,
        {
            proof {
                lemma_matching_indices_upto_bounds(self.heap@, pred, i as int);
                lemma_matching_indices_upto_bounds(self.heap@, pred, i as int + 1);
                lemma_matching_indices_upto_prefix(self.heap@, pred, i as int, i as int + 1);
            }
            let tagged = contains_i64(tags, self.heap[i].tag);
            if tagged {
                targets.push(RefTarget::Object(i));
            }
            i += 1;
        }
        proof {
            lemma_matching_indices_upto_bounds(self.heap@, pred, n as int);
        }
        let arr = self.mint_refs(targets);
        proof {
            let matched = matching_indices(old(self).heap@, spec_tag_matcher(tags@));
            assert(self.refs@ =~= old(self).refs@ + Seq::new(
                matched.len(),
                |k: int|
                    LocalRefEntry {
                        handle: (old(self).next_id + k) as u64,
                        target: RefTarget::Object(matched[k] as usize),
                    },
            ));
        }
        Ok(arr)
    }

    /// Asks the VM for every live object carrying one tag.
    pub fn get_objects_with_tag(&mut self, tag: i64) -> (r: JvmtiResult<AllocatedArray<LocalRef>>)
        requires
            old(self).wf(),
            old(self).next_id + old(self).heap@.len() + 1 <= u64::MAX,
        ensures
            final(self).wf(),
            r is Ok <==> (old(self).table.spec_has(JvmtiFunction::GetObjectsWithTags) && old(
                self,
            ).active.spec_has(CAN_TAG_OBJECTS_BIT as u128) && tag != 0),
            r is Err ==> *final(self) == *old(self),
            r matches Ok(arr) ==> spec_tag_query_post(*old(self), *final(self), seq![tag], arr),
    {
        let tags = vec![tag];
        proof {
            assert(tags@ =~= seq![tag]);
            if tag != 0 && tags@.contains(0) {
                let j = choose|j: int| 0 <= j < tags@.len() && tags@[j] == 0;
            }
            if tag != 0 {
                assert(tags@[0] == tag);
            }
        }
        self.get_objects_with_tags(&tags)
    }

    /// Delivers one eligible object's records to the visitor, in order: the
    /// object record, one record per primitive field, then the contents
    /// record of a string or primitive array. Each answer's requested tag is
    /// applied to the running tag at once; an aborting answer stops delivery.
    /// Returns the tag the object ends with, whether the visitor aborted,
    /// the records delivered, and the answers.
    fn deliver_records<V: crate::heap::HeapVisitor>(obj: &HeapObject, visitor: &mut V) -> (r: (
        i64,
        bool,
        Ghost<Seq<crate::heap::HeapIterationCallback>>,
        Ghost<Seq<crate::heap::HeapVisitOutcome>>,
    ))
        requires
            obj.fields@.len() <= i32::MAX,
        ensures
            spec_object_visit_ok(*obj, r.2@, r.3@, r.0, r.1),
    {
        let mut tag: i64 = obj.tag;
        let ghost mut records: Seq<crate::heap::HeapIterationCallback> = Seq::empty();
        let ghost mut responses: Seq<crate::heap::HeapVisitOutcome> = Seq::empty();
        let array_length: Option<usize> = match &obj.kind {
            crate::heap::HeapObjectKind::Plain { array_length } => *array_length,
            crate::heap::HeapObjectKind::Text { .. } => None,
            crate::heap::HeapObjectKind::PrimArray { elements } => Some(elements.len()),
        };
        let record = crate::heap::HeapIterationCallback::Object {
            class_tag: crate::heap::nonzero_tag(obj.class_tag),
            size: obj.size,
            tag,
            array_length,
        };
        let ghost grecord = record;
        let outcome = visitor.visit(record);
        proof {
            lemma_tag_after_push(obj.tag, responses, outcome);
            crate::seqs::lemma_push_take_prefix(responses, outcome);
            assert(responses.push(outcome).take(responses.len() as int) =~= responses);
            assert(crate::heap::spec_record_matches(*obj, 0, obj.tag, grecord));
            records = records.push(grecord);
            responses = responses.push(outcome);
        }
        if let Some(t) = outcome.set_tag {
            tag = t;
        }
        if outcome.control.aborts() {
            return (tag, true, Ghost(records), Ghost(responses));
        }
        let nf = obj.fields.len();
        let mut fi: usize = 0;
        while fi < nf
            invariant
                fi <= nf,
                nf == obj.fields@.len(),
                nf <= i32::MAX,
                responses.len() == 1 + fi,
                records.len() == responses.len(),
                forall|k: int|
                    0 <= k < responses.len() ==> !(#[trigger] responses[k]).control.spec_aborts(),
                tag == spec_tag_after(obj.tag, responses),
                forall|j: int|
                    0 <= j < records.len() ==> crate::heap::spec_record_matches(
                        *obj,
                        j,
                        spec_tag_after(obj.tag, responses.take(j)),
                        #[trigger] records[j],
                    ),
            decreases nf - fi,
        {
            let (field_type, value) = obj.fields[fi];
            let record = crate::heap::HeapIterationCallback::PrimitiveField {
                field_type,
                field_index: fi as i32,
                object_class_tag: crate::heap::nonzero_tag(obj.class_tag),
                object_tag: tag,
                value,
            };
            let ghost grecord = record;
            let outcome = visitor.visit(record);
            proof {
                lemma_tag_after_push(obj.tag, responses, outcome);
                crate::seqs::lemma_push_take_prefix(responses, outcome);
                assert(responses.push(outcome).take(responses.len() as int) =~= responses);
                assert(crate::heap::spec_record_matches(
                    *obj,
                    responses.len() as int,
                    tag,
                    grecord,
                ));
                records = records.push(grecord);
                responses = responses.push(outcome);
            }
            if let Some(t) = outcome.set_tag {
                tag = t;
            }
            if outcome.control.aborts() {
                return (tag, true, Ghost(records), Ghost(responses));
            }
            fi += 1;
        }
        match &obj.kind {
            crate::heap::HeapObjectKind::Plain { .. } => (
                tag,
                false,
                Ghost(records),
                Ghost(responses),
            ),
            crate::heap::HeapObjectKind::Text { chars } => {
                let record = crate::heap::HeapIterationCallback::String {
                    class_tag: crate::heap::nonzero_tag(obj.class_tag),
                    size: obj.size,
                    tag,
                    value: crate::heap::U16StrPrintable(crate::heap::copy_values(chars)),
                };
                let ghost grecord = record;
                let outcome = visitor.visit(record);
                proof {
                    lemma_tag_after_push(obj.tag, responses, outcome);
                    crate::seqs::lemma_push_take_prefix(responses, outcome);
                    assert(responses.push(outcome).take(responses.len() as int) =~= responses);
                    assert(crate::heap::spec_record_matches(
                        *obj,
                        responses.len() as int,
                        tag,
                        grecord,
                    ));
                    records = records.push(grecord);
                    responses = responses.push(outcome);
                }
                if let Some(t) = outcome.set_tag {
                    tag = t;
                }
                (tag, outcome.control.aborts(), Ghost(records), Ghost(responses))
            },
            crate::heap::HeapObjectKind::PrimArray { elements } => {
                let record = crate::heap::HeapIterationCallback::PrimitiveArray {
                    class_tag: crate::heap::nonzero_tag(obj.class_tag),
                    size: obj.size,
                    tag,
                    elements: crate::heap::copy_primitive_array(elements),
                };
                let ghost grecord = record;
                let outcome = visitor.visit(record);
                proof {
                    lemma_tag_after_push(obj.tag, responses, outcome);
                    crate::seqs::lemma_push_take_prefix(responses, outcome);
                    assert(responses.push(outcome).take(responses.len() as int) =~= responses);
                    assert(crate::heap::spec_record_matches(
                        *obj,
                        responses.len() as int,
                        tag,
                        grecord,
                    ));
                    records = records.push(grecord);
                    responses = responses.push(outcome);
                }
                if let Some(t) = outcome.set_tag {
                    tag = t;
                }
                (tag, outcome.control.aborts(), Ghost(records), Ghost(responses))
            },
        }
    }

    /// Performs one synchronous, VM-driven traversal of the live heap. Every
    /// object the filter and class restriction admit is visited exactly once,
    /// in heap order, each visit delivering the object's records to the
    /// visitor, until the visitor aborts; after an abort nothing further is
    /// delivered. A tag a visitor answer requests is written to the object at
    /// once, to be seen by later tag queries and walks — which objects this
    /// walk visits was settled by the filter against the starting heap.
    /// Needs the object-tagging capability; a class restriction must be a
    /// live class reference. The returned trace records the visits.
    pub fn iterate_through_heap<V: crate::heap::HeapVisitor>(
        &mut self,
        heap_filter: crate::heap::HeapFilterFlags,
        instanceof: Option<u64>,
        visitor: &mut V,
    ) -> (r: (JvmtiResult<()>, Ghost<HeapWalkTrace>))
        requires
            old(self).wf(),
        ensures
            final(self).wf(),
            r.0 is Ok <==> (old(self).table.spec_has(JvmtiFunction::IterateThroughHeap) && old(
                self,
            ).active.spec_has(CAN_TAG_OBJECTS_BIT as u128) && (instanceof matches Some(h) ==> old(
                self,
            ).spec_ref_target(h) matches Some(RefTarget::Class(_)))),
            !old(self).table.spec_has(JvmtiFunction::IterateThroughHeap) ==> r.0
                == JvmtiResult::<()>::Err(Error::NullFunction(JvmtiFunction::IterateThroughHeap)),
            old(self).table.spec_has(JvmtiFunction::IterateThroughHeap) && !old(
                self,
            ).active.spec_has(CAN_TAG_OBJECTS_BIT as u128) ==> r.0 == JvmtiResult::<()>::Err(
                Error::Jvmti(JvmtiError::MissingCapability),
            ),
            old(self).table.spec_has(JvmtiFunction::IterateThroughHeap) && old(
                self,
            ).active.spec_has(CAN_TAG_OBJECTS_BIT as u128) && !(instanceof matches Some(h) ==> old(
                self,
            ).spec_ref_target(h) matches Some(RefTarget::Class(_))) ==> r.0
                == JvmtiResult::<()>::Err(
                Error::Jvmti(JvmtiError::Other(JVMTI_ERROR_INVALID_CLASS)),
            ),
            r.0 is Err ==> *final(self) == *old(self),
            r.0 is Ok ==> spec_walk_trace_ok(
                *old(self),
                heap_filter,
                spec_instanceof_class(*old(self), instanceof),
                r.1@,
                *final(self),
            ),
            final(self).table == old(self).table,
            final(self).potential == old(self).potential,
            final(self).active == old(self).active,
            final(self).enabled@ == old(self).enabled@,
            final(self).callbacks == old(self).callbacks,
            final(self).classes@ == old(self).classes@,
            final(self).refs@ == old(self).refs@,
            final(self).allocations@ == old(self).allocations@,
            final(self).next_id == old(self).next_id,
    {
        let ghost empty_trace = HeapWalkTrace { events: Seq::empty(), aborted: false };
        if !self.table.iterate_through_heap {
            return (
                Err(Error::NullFunction(JvmtiFunction::IterateThroughHeap)),
                Ghost(empty_trace),
            );
        }
        if !self.active.can_tag_objects() {
            return (Err(Error::Jvmti(JvmtiError::MissingCapability)), Ghost(empty_trace));
        }
        let instanceof_class: Option<u64> = match instanceof {
            None => None,
            Some(h) => match self.find_ref(h) {
                Some(RefTarget::Class(ci)) => Some(self.classes[ci].id),
                _ => {
                    return (
                        Err(Error::Jvmti(JvmtiError::Other(JVMTI_ERROR_INVALID_CLASS))),
                        Ghost(empty_trace),
                    );
                },
            },
        };
        proof {
            assert(instanceof_class == spec_instanceof_class(*old(self), instanceof));
        }
        let ghost pred = spec_eligibility_matcher(heap_filter, instanceof_class);
        let n = self.heap.len();
        let mut i: usize = 0;
        let mut aborted: bool = false;
        let ghost mut events: Seq<HeapWalkEvent> = Seq::empty();
        while i < n && !aborted
            invariant
                i <= n,
                n == old(self).heap@.len(),
                self.heap@.len() == n,
                pred == spec_eligibility_matcher(heap_filter, instanceof_class),
                self.wf(),
                self.table == old(self).table,
                self.potential == old(self).potential,
                self.active == old(self).active,
                self.enabled@ == old(self).enabled@,
                self.callbacks == old(self).callbacks,
                self.classes@ == old(self).classes@,
                self.refs@ == old(self).refs@,
                self.allocations@ == old(self).allocations@,
                self.next_id == old(self).next_id,
                events.len() == matching_indices_upto(old(self).heap@, pred, i as int).len(),
                forall|k: int|
                    0 <= k < events.len() ==> (#[trigger] events[k]).index == matching_indices_upto(
                        old(self).heap@,
                        pred,
                        i as int,
                    )[k],
                forall|k: int|
                    0 <= k < events.len() ==> {
                        let ev = #[trigger] events[k];
                        &&& 0 <= ev.index < n
                        &&& ev.index < i
                        &&& pred(old(self).heap@[ev.index])
                        &&& spec_object_visit_ok(
                            old(self).heap@[ev.index],
                            ev.records,
                            ev.responses,
                            ev.new_tag,
                            ev.aborted,
                        )
                    },
                forall|k: int| 0 <= k < events.len() - 1 ==> !(#[trigger] events[k]).aborted,
                aborted == (events.len() > 0 && events.last().aborted),
                forall|k: int|
                    0 <= k < events.len() ==> self.heap@[(#[trigger] events[k]).index] == old(
                        self,
                    ).heap@[events[k].index].spec_with_tag(events[k].new_tag),
                forall|j: int|
                    0 <= j < n && !(exists|k: int|
                        0 <= k < events.len() && (#[trigger] events[k]).index == j)
                        ==> self.heap@[j] == old(self).heap@[j],
            decreases n - i,
        {
            proof {
                lemma_matching_indices_upto_bounds(old(self).heap@, pred, i as int);
                lemma_matching_indices_upto_bounds(old(self).heap@, pred, i as int + 1);
                lemma_matching_indices_upto_prefix(old(self).heap@, pred, i as int, i as int + 1);
                assert(!(exists|k: int|
                    0 <= k < events.len() && (#[trigger] events[k]).index == i as int));
                assert(self.heap@[i as int] == old(self).heap@[i as int]);
            }
            let eligible = crate::heap::is_eligible(&self.heap[i], heap_filter, instanceof_class);
            if eligible {
                let (new_tag, ab, records, responses) = Self::deliver_records(
                    &self.heap[i],
                    visitor,
                );
                self.heap[i].tag = new_tag;
                if ab {
                    aborted = true;
                }
                proof {
                    let ev = HeapWalkEvent {
                        index: i as int,
                        records: records@,
                        responses: responses@,
                        new_tag,
                        aborted: ab,
                    };
                    let prev = events;
                    events = events.push(ev);
                    assert(events.last() == ev);
                    assert(old(self).heap@[i as int].spec_with_tag(new_tag) == self.heap@[i as int]);
                    assert forall|j: int|
                        0 <= j < n && !(exists|k: int|
                            0 <= k < events.len() && (#[trigger] events[k]).index == j)
                            implies self.heap@[j] == old(self).heap@[j] by {
                        assert(j != i as int) by {
                            assert(events[events.len() - 1].index == i as int);
                        }
                        assert(!(exists|k: int|
                            0 <= k < prev.len() && (#[trigger] prev[k]).index == j)) by {
                            if exists|k: int|
                                0 <= k < prev.len() && (#[trigger] prev[k]).index == j {
                                let k = choose|k: int|
                                    0 <= k < prev.len() && (#[trigger] prev[k]).index == j;
                                assert(events[k].index == j);
                            }
                        }
                    }
                }
            }
            i += 1;
        }
        proof {
            lemma_matching_indices_upto_bounds(old(self).heap@, pred, i as int);
            lemma_matching_indices_upto_prefix(old(self).heap@, pred, i as int, n as int);
            if !aborted {
                assert(i == n);
            }
        }
        let ghost trace = HeapWalkTrace { events, aborted };
        (Ok(()), Ghost(trace))
    }

    /// Asks the VM for one class's encoded type signature, handed back as an
    /// allocated string. The handle must be a live class reference of this
    /// environment.
    pub fn get_class_signature(&mut self, class: u64) -> (r: JvmtiResult<AllocatedMutf8>)
        requires
            old(self).wf(),
            old(self).next_id < u64::MAX,
        ensures
            final(self).wf(),
            r is Ok <==> (old(self).table.spec_has(JvmtiFunction::GetClassSignature) && (old(
                self,
            ).spec_ref_target(class) matches Some(RefTarget::Class(_)))),
            !old(self).table.spec_has(JvmtiFunction::GetClassSignature) ==> r
                == JvmtiResult::<AllocatedMutf8>::Err(
                Error::NullFunction(JvmtiFunction::GetClassSignature),
            ),
            old(self).table.spec_has(JvmtiFunction::GetClassSignature) && !(old(
                self,
            ).spec_ref_target(class) matches Some(RefTarget::Class(_))) ==> r
                == JvmtiResult::<AllocatedMutf8>::Err(
                Error::Jvmti(JvmtiError::Other(JVMTI_ERROR_INVALID_CLASS)),
            ),
            r is Err ==> *final(self) == *old(self),
            r matches Ok(s) ==> {
                &&& (old(self).spec_ref_target(class) matches Some(RefTarget::Class(ci))
                    ==> s.bytes@ == old(self).classes@[ci as int].signature@)
                &&& s.allocation == old(self).next_id
                &&& final(self).allocations@ == old(self).allocations@.push(old(self).next_id)
                &&& final(self).next_id == old(self).next_id + 1
                &&& final(self).table == old(self).table
                &&& final(self).potential == old(self).potential
                &&& final(self).active == old(self).active
                &&& final(self).enabled@ == old(self).enabled@
                &&& final(self).callbacks == old(self).callbacks
                &&& final(self).classes@ == old(self).classes@
                &&& final(self).heap@ == old(self).heap@
                &&& final(self).refs@ == old(self).refs@
            },
    {
        if !self.table.get_class_signature {
            return Err(Error::NullFunction(JvmtiFunction::GetClassSignature));
        }
        let target = self.find_ref(class);
        match target {
            Some(RefTarget::Class(ci)) => {
                let source = &self.classes[ci].signature;
                let mut bytes: Vec<u8> = Vec::new();
                let m = source.len();
                let mut k: usize = 0;
                while k < m
                    invariant
                        k <= m,
                        m == source@.len(),
                        bytes@ == source@.take(k as int),
                    decreases m - k,
                {
                    bytes.push(source[k]);
                    proof {
                        assert(source@.take(k as int + 1) =~= source@.take(k as int).push(
                            source@[k as int],
                        ));
                    }
                    k += 1;
                }
                proof {
                    assert(source@.take(m as int) =~= source@);
                }
                let allocation = self.next_id;
                self.allocations.push(allocation);
                self.next_id = allocation + 1;
                Ok(AllocatedMutf8 { bytes, allocation })
            },
            _ => Err(Error::Jvmti(JvmtiError::Other(JVMTI_ERROR_INVALID_CLASS))),
        }
    }
}

/// How many records one object's visit delivers: the object record, one per
/// primitive field, and one value record for a string or primitive array.
pub open spec fn spec_record_count(obj: HeapObject) -> nat {
    1 + obj.fields@.len() + (match obj.kind {
        HeapObjectKind::Plain { .. } => 0nat,
        HeapObjectKind::Text { .. } => 1nat,
        HeapObjectKind::PrimArray { .. } => 1nat,
    })
}

/// The tag an object carries after a run of visitor answers: the last
/// requested replacement, or the starting tag when none was requested.
pub open spec fn spec_tag_after(tag0: i64, responses: Seq<HeapVisitOutcome>) -> i64
    decreases responses.len(),
{
    if responses.len() <= 0 {
        tag0
    } else {
        match responses.last().set_tag {
            Some(t) => t,
            None => spec_tag_after(tag0, responses.drop_last()),
        }
    }
}

/// The step the running tag takes on one more answer.
pub proof fn lemma_tag_after_push(tag0: i64, responses: Seq<HeapVisitOutcome>, o: HeapVisitOutcome)
    ensures
        spec_tag_after(tag0, responses.push(o)) == (match o.set_tag {
            Some(t) => t,
            None => spec_tag_after(tag0, responses),
        }),
{
    assert(responses.push(o).drop_last() =~= responses);
    assert(responses.push(o).last() == o);
}

/// What one object's visit looks like: the object record is always answered;
/// delivery stops early exactly when an answer aborts, and only the last
/// answer may abort; the object's tag afterwards follows the answers.
pub open spec fn spec_object_visit_ok(
    obj: HeapObject,
    records: Seq<crate::heap::HeapIterationCallback>,
    responses: Seq<HeapVisitOutcome>,
    new_tag: i64,
    aborted: bool,
) -> bool {
    &&& 1 <= responses.len() <= spec_record_count(obj)
    &&& (forall|k: int|
        0 <= k < responses.len() - 1 ==> !(#[trigger] responses[k]).control.spec_aborts())
    &&& aborted == responses.last().control.spec_aborts()
    &&& (!aborted ==> responses.len() == spec_record_count(obj))
    &&& new_tag == spec_tag_after(obj.tag, responses)
    &&& records.len() == responses.len()
    &&& (forall|j: int|
        0 <= j < records.len() ==> crate::heap::spec_record_matches(
            obj,
            j,
            spec_tag_after(obj.tag, responses.take(j)),
            #[trigger] records[j],
        ))
}

/// One object's visit in a walk's trace: which object, the visitor's answers
/// to its records, the tag it carries afterwards, and whether the visitor
/// aborted during it.
pub struct HeapWalkEvent {
    /// The visited object's position in the heap at the walk's start.
    pub index: int,
    /// The records delivered during the visit, in delivery order: each one
    /// carries the object's data and the tag it read at that moment.
    pub records: Seq<crate::heap::HeapIterationCallback>,
    /// The visitor's answers to the object's records, in delivery order.
    pub responses: Seq<HeapVisitOutcome>,
    /// The tag the object carries after the visit.
    pub new_tag: i64,
    /// Whether an answer aborted the walk during this visit.
    pub aborted: bool,
}

/// The trace of one heap walk: the visits in the order they happened, and
/// whether the walk ended by an abort.
pub struct HeapWalkTrace {
    /// The visits, in order.
    pub events: Seq<HeapWalkEvent>,
    /// Whether the visitor aborted the walk.
    pub aborted: bool,
}

/// Whether a walk's trace visited the object at one heap position.
pub open spec fn spec_visited(trace: HeapWalkTrace, j: int) -> bool {
    exists|k: int| 0 <= k < trace.events.len() && (#[trigger] trace.events[k]).index == j
}

/// A matcher for the objects a walk under one filter and class restriction
/// visits.
pub open spec fn spec_eligibility_matcher(
    filter: crate::heap::HeapFilterFlags,
    instanceof_class: Option<u64>,
) -> spec_fn(HeapObject) -> bool {
    |o: HeapObject| crate::heap::spec_eligible(o, filter, instanceof_class)
}

/// The class identity a walk is restricted to, resolved from the class
/// reference handle it was called with.
pub open spec fn spec_instanceof_class(env: JvmtiEnv, instanceof: Option<u64>) -> Option<u64> {
    match instanceof {
        None => None,
        Some(h) => match env.spec_ref_target(h) {
            Some(RefTarget::Class(ci)) => Some(env.classes@[ci as int].id),
            _ => None,
        },
    }
}

/// What one completed heap walk guarantees. With `elig` the positions of the
/// eligible objects in heap order: the trace visits a prefix of `elig`, the
/// whole of it unless the visitor aborted, so each eligible object is visited
/// exactly once and in order; every visit is a well-formed object visit on
/// the starting heap; afterwards each visited object carries the tag its
/// visit ended with, and every other object is untouched.
pub open spec fn spec_walk_trace_ok(
    pre: JvmtiEnv,
    filter: crate::heap::HeapFilterFlags,
    instanceof_class: Option<u64>,
    trace: HeapWalkTrace,
    post: JvmtiEnv,
) -> bool {
    let elig = matching_indices(pre.heap@, spec_eligibility_matcher(filter, instanceof_class));
    &&& trace.events.len() <= elig.len()
    &&& (forall|k: int|
        0 <= k < trace.events.len() ==> (#[trigger] trace.events[k]).index == elig[k])
    &&& (!trace.aborted ==> trace.events.len() == elig.len())
    &&& (forall|k: int| 0 <= k < trace.events.len() - 1 ==> !(#[trigger] trace.events[k]).aborted)
    &&& trace.aborted == (trace.events.len() > 0 && trace.events.last().aborted)
    &&& (forall|k: int|
        0 <= k < trace.events.len() ==> {
            let ev = #[trigger] trace.events[k];
            &&& 0 <= ev.index < pre.heap@.len()
            &&& crate::heap::spec_eligible(pre.heap@[ev.index], filter, instanceof_class)
            &&& spec_object_visit_ok(
                pre.heap@[ev.index],
                ev.records,
                ev.responses,
                ev.new_tag,
                ev.aborted,
            )
        })
    &&& post.heap@.len() == pre.heap@.len()
    &&& (forall|k: int|
        0 <= k < trace.events.len() ==> post.heap@[(#[trigger] trace.events[k]).index]
            == pre.heap@[trace.events[k].index].spec_with_tag(trace.events[k].new_tag))
    &&& (forall|j: int|
        0 <= j < pre.heap@.len() && !spec_visited(trace, j) ==> post.heap@[j] == pre.heap@[j])
}

/// A matcher for the objects that carry one of the given tags.
pub open spec fn spec_tag_matcher(tags: Seq<i64>) -> spec_fn(HeapObject) -> bool {
    |o: HeapObject| tags.contains(o.tag)
}

/// What one successful tag query guarantees. With `matched` the positions of
/// the objects carrying any queried tag, in heap order: the returned array
/// holds one fresh reference per matched object, in that order, each now live
/// in the environment and pointing at its object; one fresh allocation backs
/// the array; nothing else of the environment moves.
pub open spec fn spec_tag_query_post(
    pre: JvmtiEnv,
    post: JvmtiEnv,
    tags: Seq<i64>,
    arr: AllocatedArray<LocalRef>,
) -> bool {
    let matched = matching_indices(pre.heap@, spec_tag_matcher(tags));
    &&& arr.elements@.len() == matched.len()
    &&& (forall|k: int| 0 <= k < matched.len() ==> arr.elements@[k] == pre.next_id + k)
    &&& arr.allocation == pre.next_id + matched.len()
    &&& post.refs@ == pre.refs@ + Seq::new(
        matched.len(),
        |k: int|
            LocalRefEntry {
                handle: (pre.next_id + k) as u64,
                target: RefTarget::Object(matched[k] as usize),
            },
    )
    &&& post.allocations@ == pre.allocations@.push(arr.allocation)
    &&& post.next_id == pre.next_id + matched.len() + 1
    &&& post.table == pre.table
    &&& post.potential == pre.potential
    &&& post.active == pre.active
    &&& post.enabled@ == pre.enabled@
    &&& post.callbacks == pre.callbacks
    &&& post.classes@ == pre.classes@
    &&& post.heap@ == pre.heap@
}

/// Decides whether a tag list holds one value.
pub fn contains_i64(values: &Vec<i64>, x: i64) -> (b: bool)
    ensures
        b == values@.contains(x),
{
    let mut i: usize = 0;
    let n = values.len();
    while i < n
        invariant
            i <= n,
            n == values@.len(),
            forall|j: int| 0 <= j < i ==> values@[j] != x,
        decreases n - i,
    {
        if values[i] == x {
            assert(values@[i as int] == x);
            return true;
        }
        i += 1;
    }
    proof {
        if values@.contains(x) {
            let j = choose|j: int| 0 <= j < values@.len() && values@[j] == x;
        }
    }
    false
}

} // verus!
