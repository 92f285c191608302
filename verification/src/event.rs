//! Event subscription: a closed set of event kinds, the scope of an
//! enable/disable toggle, and the fixed-size callback table. The table maps
//! each kind to an optional native callback, modelled here by the callback's
//! address; unset entries mean the kind is never delivered regardless of
//! enablement. The table is assembled by a builder and installed as an atomic
//! whole, because the interface supports no partial update.

use vstd::prelude::*;

verus! {

/// The address of a native callback routine, as the interface stores it in
/// one slot of its event table. The model keeps the address only; invoking
/// the routine is native work outside this layer.
pub type CallbackAddress = u64;

/// One of the closed set of VM occurrences that can be subscribed to. Each
/// kind maps to one slot of the callback table and one notification toggle.
#[derive(Clone, Copy, Debug, PartialEq, Eq, Structural)]
pub enum EventType {
    VmDeath,
    ThreadStart,
    ThreadEnd,
    ClassFileLoadHook,
    ClassLoad,
    ClassPrepare,
    VmStart,
    Exception,
    ExceptionCatch,
    SingleStep,
    FramePop,
    Breakpoint,
    FieldAccess,
    FieldModification,
    MethodEntry,
    MethodExit,
    NativeMethodBind,
    CompiledMethodLoad,
    CompiledMethodUnload,
    DynamicCodeGenerated,
    DataDumpRequest,
    MonitorWait,
    MonitorWaited,
    MonitorContendedEnter,
    MonitorContendedEntered,
    ResourceExhausted,
    GarbageCollectionStart,
    GarbageCollectionFinish,
    ObjectFree,
    VmObjectAlloc,
    SampledObjectAlloc,
}

/// Breadth of an enable/disable toggle: every thread, or one thread handle.
#[derive(Clone, Copy, Debug, PartialEq, Eq, Structural)]
pub enum EventScope {
    /// The toggle applies on all threads.
    Global,
    /// The toggle applies on the one thread with this handle.
    Thread(u64),
}

impl EventType {
    /// The interface's number for this event kind.
    pub open spec fn spec_number(self) -> u32 {
        match self {
            EventType::VmDeath => 51,
            EventType::ThreadStart => 52,
            EventType::ThreadEnd => 53,
            EventType::ClassFileLoadHook => 54,
            EventType::ClassLoad => 55,
            EventType::ClassPrepare => 56,
            EventType::VmStart => 57,
            EventType::Exception => 58,
            EventType::ExceptionCatch => 59,
            EventType::SingleStep => 60,
            EventType::FramePop => 61,
            EventType::Breakpoint => 62,
            EventType::FieldAccess => 63,
            EventType::FieldModification => 64,
            EventType::MethodEntry => 65,
            EventType::MethodExit => 66,
            EventType::NativeMethodBind => 67,
            EventType::CompiledMethodLoad => 68,
            EventType::CompiledMethodUnload => 69,
            EventType::DynamicCodeGenerated => 70,
            EventType::DataDumpRequest => 71,
            EventType::MonitorWait => 73,
            EventType::MonitorWaited => 74,
            EventType::MonitorContendedEnter => 75,
            EventType::MonitorContendedEntered => 76,
            EventType::ResourceExhausted => 80,
            EventType::GarbageCollectionStart => 81,
            EventType::GarbageCollectionFinish => 82,
            EventType::ObjectFree => 83,
            EventType::VmObjectAlloc => 84,
            EventType::SampledObjectAlloc => 86,
        }
    }

    /// The interface's number for this event kind, as its notification and
    /// dispatch calls expect it.
    pub fn number(&self) -> (n: u32)
        ensures
            n == self.spec_number(),
    {
        match self {
            EventType::VmDeath => 51,
            EventType::ThreadStart => 52,
            EventType::ThreadEnd => 53,
            EventType::ClassFileLoadHook => 54,
            EventType::ClassLoad => 55,
            EventType::ClassPrepare => 56,
            EventType::VmStart => 57,
            EventType::Exception => 58,
            EventType::ExceptionCatch => 59,
            EventType::SingleStep => 60,
            EventType::FramePop => 61,
            EventType::Breakpoint => 62,
            EventType::FieldAccess => 63,
            EventType::FieldModification => 64,
            EventType::MethodEntry => 65,
            EventType::MethodExit => 66,
            EventType::NativeMethodBind => 67,
            EventType::CompiledMethodLoad => 68,
            EventType::CompiledMethodUnload => 69,
            EventType::DynamicCodeGenerated => 70,
            EventType::DataDumpRequest => 71,
            EventType::MonitorWait => 73,
            EventType::MonitorWaited => 74,
            EventType::MonitorContendedEnter => 75,
            EventType::MonitorContendedEntered => 76,
            EventType::ResourceExhausted => 80,
            EventType::GarbageCollectionStart => 81,
            EventType::GarbageCollectionFinish => 82,
            EventType::ObjectFree => 83,
            EventType::VmObjectAlloc => 84,
            EventType::SampledObjectAlloc => 86,
        }
    }
}

/// The full callback table, assembled once and installed as a whole. One
/// optional callback address per slot; `None` means the slot is unset and the
/// kind is never delivered.
#[derive(Clone, Copy, Debug, PartialEq, Eq, Structural)]
pub struct EventCallbacks {
    /// Callback for VmInit-style startup completion.
    pub vminit: Option<CallbackAddress>,
    /// Callback for VM termination.
    pub vmdeath: Option<CallbackAddress>,
    /// Callback for thread start.
    pub thread_start: Option<CallbackAddress>,
    /// Callback for thread end.
    pub thread_end: Option<CallbackAddress>,
    /// Callback for class file load hook.
    pub class_file_load_hook: Option<CallbackAddress>,
    /// Callback for class load.
    pub class_load: Option<CallbackAddress>,
    /// Callback for class prepare.
    pub class_prepare: Option<CallbackAddress>,
    /// Callback for VM start.
    pub vmstart: Option<CallbackAddress>,
    /// Callback for exception throw.
    pub exception: Option<CallbackAddress>,
    /// Callback for exception catch.
    pub exception_catch: Option<CallbackAddress>,
    /// Callback for single step.
    pub single_step: Option<CallbackAddress>,
    /// Callback for frame pop.
    pub frame_pop: Option<CallbackAddress>,
    /// Callback for breakpoint.
    pub breakpoint: Option<CallbackAddress>,
    /// Callback for field access.
    pub field_access: Option<CallbackAddress>,
    /// Callback for field modification.
    pub field_modification: Option<CallbackAddress>,
    /// Callback for method entry.
    pub method_entry: Option<CallbackAddress>,
    /// Callback for method exit.
    pub method_exit: Option<CallbackAddress>,
    /// Callback for native method bind.
    pub native_method_bind: Option<CallbackAddress>,
    /// Callback for compiled method load.
    pub compiled_method_load: Option<CallbackAddress>,
    /// Callback for compiled method unload.
    pub compiled_method_unload: Option<CallbackAddress>,
    /// Callback for dynamic code generation.
    pub dynamic_code_generated: Option<CallbackAddress>,
    /// Callback for data dump request.
    pub data_dump_request: Option<CallbackAddress>,
    /// Callback for monitor wait.
    pub monitor_wait: Option<CallbackAddress>,
    /// Callback for monitor waited.
    pub monitor_waited: Option<CallbackAddress>,
    /// Callback for monitor contended enter.
    pub monitor_contended_enter: Option<CallbackAddress>,
    /// Callback for monitor contended entered.
    pub monitor_contended_entered: Option<CallbackAddress>,
    /// Callback for resource exhaustion.
    pub resource_exhausted: Option<CallbackAddress>,
    /// Callback for garbage collection start.
    pub garbage_collection_start: Option<CallbackAddress>,
    /// Callback for garbage collection finish.
    pub garbage_collection_finish: Option<CallbackAddress>,
    /// Callback for object free.
    pub object_free: Option<CallbackAddress>,
    /// Callback for VM object allocation.
    pub vmobject_alloc: Option<CallbackAddress>,
    /// Callback for sampled object allocation.
    pub sampled_object_alloc: Option<CallbackAddress>,
}

impl EventCallbacks {
    /// The table entry for one event kind.
    pub open spec fn spec_slot(self, kind: EventType) -> Option<CallbackAddress> {
        match kind {
            EventType::VmDeath => self.vmdeath,
            EventType::ThreadStart => self.thread_start,
            EventType::ThreadEnd => self.thread_end,
            EventType::ClassFileLoadHook => self.class_file_load_hook,
            EventType::ClassLoad => self.class_load,
            EventType::ClassPrepare => self.class_prepare,
            EventType::VmStart => self.vmstart,
            EventType::Exception => self.exception,
            EventType::ExceptionCatch => self.exception_catch,
            EventType::SingleStep => self.single_step,
            EventType::FramePop => self.frame_pop,
            EventType::Breakpoint => self.breakpoint,
            EventType::FieldAccess => self.field_access,
            EventType::FieldModification => self.field_modification,
            EventType::MethodEntry => self.method_entry,
            EventType::MethodExit => self.method_exit,
            EventType::NativeMethodBind => self.native_method_bind,
            EventType::CompiledMethodLoad => self.compiled_method_load,
            EventType::CompiledMethodUnload => self.compiled_method_unload,
            EventType::DynamicCodeGenerated => self.dynamic_code_generated,
            EventType::DataDumpRequest => self.data_dump_request,
            EventType::MonitorWait => self.monitor_wait,
            EventType::MonitorWaited => self.monitor_waited,
            EventType::MonitorContendedEnter => self.monitor_contended_enter,
            EventType::MonitorContendedEntered => self.monitor_contended_entered,
            EventType::ResourceExhausted => self.resource_exhausted,
            EventType::GarbageCollectionStart => self.garbage_collection_start,
            EventType::GarbageCollectionFinish => self.garbage_collection_finish,
            EventType::ObjectFree => self.object_free,
            EventType::VmObjectAlloc => self.vmobject_alloc,
            EventType::SampledObjectAlloc => self.sampled_object_alloc,
        }
    }

    /// Reads the table entry for one event kind.
    pub fn slot(&self, kind: EventType) -> (r: Option<CallbackAddress>)
        ensures
            r == self.spec_slot(kind),
    {
        match kind {
            EventType::VmDeath => self.vmdeath,
            EventType::ThreadStart => self.thread_start,
            EventType::ThreadEnd => self.thread_end,
            EventType::ClassFileLoadHook => self.class_file_load_hook,
            EventType::ClassLoad => self.class_load,
            EventType::ClassPrepare => self.class_prepare,
            EventType::VmStart => self.vmstart,
            EventType::Exception => self.exception,
            EventType::ExceptionCatch => self.exception_catch,
            EventType::SingleStep => self.single_step,
            EventType::FramePop => self.frame_pop,
            EventType::Breakpoint => self.breakpoint,
            EventType::FieldAccess => self.field_access,
            EventType::FieldModification => self.field_modification,
            EventType::MethodEntry => self.method_entry,
            EventType::MethodExit => self.method_exit,
            EventType::NativeMethodBind => self.native_method_bind,
            EventType::CompiledMethodLoad => self.compiled_method_load,
            EventType::CompiledMethodUnload => self.compiled_method_unload,
            EventType::DynamicCodeGenerated => self.dynamic_code_generated,
            EventType::DataDumpRequest => self.data_dump_request,
            EventType::MonitorWait => self.monitor_wait,
            EventType::MonitorWaited => self.monitor_waited,
            EventType::MonitorContendedEnter => self.monitor_contended_enter,
            EventType::MonitorContendedEntered => self.monitor_contended_entered,
            EventType::ResourceExhausted => self.resource_exhausted,
            EventType::GarbageCollectionStart => self.garbage_collection_start,
            EventType::GarbageCollectionFinish => self.garbage_collection_finish,
            EventType::ObjectFree => self.object_free,
            EventType::VmObjectAlloc => self.vmobject_alloc,
            EventType::SampledObjectAlloc => self.sampled_object_alloc,
        }
    }
}

/// Accumulates the desired callback table entry by entry, because the
/// interface accepts only a whole table: all entries are chosen before the
/// one install call.
#[derive(Clone, Copy, Debug, PartialEq, Eq, Structural)]
pub struct EventCallbacksBuilder {
    /// Chosen callback for VmInit-style startup completion.
    pub vminit: Option<CallbackAddress>,
    /// Chosen callback for VM termination.
    pub vmdeath: Option<CallbackAddress>,
    /// Chosen callback for thread start.
    pub thread_start: Option<CallbackAddress>,
    /// Chosen callback for thread end.
    pub thread_end: Option<CallbackAddress>,
    /// Chosen callback for class file load hook.
    pub class_file_load_hook: Option<CallbackAddress>,
    /// Chosen callback for class load.
    pub class_load: Option<CallbackAddress>,
    /// Chosen callback for class prepare.
    pub class_prepare: Option<CallbackAddress>,
    /// Chosen callback for VM start.
    pub vmstart: Option<CallbackAddress>,
    /// Chosen callback for exception throw.
    pub exception: Option<CallbackAddress>,
    /// Chosen callback for exception catch.
    pub exception_catch: Option<CallbackAddress>,
    /// Chosen callback for single step.
    pub single_step: Option<CallbackAddress>,
    /// Chosen callback for frame pop.
    pub frame_pop: Option<CallbackAddress>,
    /// Chosen callback for breakpoint.
    pub breakpoint: Option<CallbackAddress>,
    /// Chosen callback for field access.
    pub field_access: Option<CallbackAddress>,
    /// Chosen callback for field modification.
    pub field_modification: Option<CallbackAddress>,
    /// Chosen callback for method entry.
    pub method_entry: Option<CallbackAddress>,
    /// Chosen callback for method exit.
    pub method_exit: Option<CallbackAddress>,
    /// Chosen callback for native method bind.
    pub native_method_bind: Option<CallbackAddress>,
    /// Chosen callback for compiled method load.
    pub compiled_method_load: Option<CallbackAddress>,
    /// Chosen callback for compiled method unload.
    pub compiled_method_unload: Option<CallbackAddress>,
    /// Chosen callback for dynamic code generation.
    pub dynamic_code_generated: Option<CallbackAddress>,
    /// Chosen callback for data dump request.
    pub data_dump_request: Option<CallbackAddress>,
    /// Chosen callback for monitor wait.
    pub monitor_wait: Option<CallbackAddress>,
    /// Chosen callback for monitor waited.
    pub monitor_waited: Option<CallbackAddress>,
    /// Chosen callback for monitor contended enter.
    pub monitor_contended_enter: Option<CallbackAddress>,
    /// Chosen callback for monitor contended entered.
    pub monitor_contended_entered: Option<CallbackAddress>,
    /// Chosen callback for resource exhaustion.
    pub resource_exhausted: Option<CallbackAddress>,
    /// Chosen callback for garbage collection start.
    pub garbage_collection_start: Option<CallbackAddress>,
    /// Chosen callback for garbage collection finish.
    pub garbage_collection_finish: Option<CallbackAddress>,
    /// Chosen callback for object free.
    pub object_free: Option<CallbackAddress>,
    /// Chosen callback for VM object allocation.
    pub vmobject_alloc: Option<CallbackAddress>,
    /// Chosen callback for sampled object allocation.
    pub sampled_object_alloc: Option<CallbackAddress>,
}

impl EventCallbacksBuilder {
    /// A builder with every slot unset.
    pub fn new() -> (r: Self)
        ensures
            r == (EventCallbacksBuilder {
                vminit: None::<CallbackAddress>,
                vmdeath: None::<CallbackAddress>,
                thread_start: None::<CallbackAddress>,
                thread_end: None::<CallbackAddress>,
                class_file_load_hook: None::<CallbackAddress>,
                class_load: None::<CallbackAddress>,
                class_prepare: None::<CallbackAddress>,
                vmstart: None::<CallbackAddress>,
                exception: None::<CallbackAddress>,
                exception_catch: None::<CallbackAddress>,
                single_step: None::<CallbackAddress>,
                frame_pop: None::<CallbackAddress>,
                breakpoint: None::<CallbackAddress>,
                field_access: None::<CallbackAddress>,
                field_modification: None::<CallbackAddress>,
                method_entry: None::<CallbackAddress>,
                method_exit: None::<CallbackAddress>,
                native_method_bind: None::<CallbackAddress>,
                compiled_method_load: None::<CallbackAddress>,
                compiled_method_unload: None::<CallbackAddress>,
                dynamic_code_generated: None::<CallbackAddress>,
                data_dump_request: None::<CallbackAddress>,
                monitor_wait: None::<CallbackAddress>,
                monitor_waited: None::<CallbackAddress>,
                monitor_contended_enter: None::<CallbackAddress>,
                monitor_contended_entered: None::<CallbackAddress>,
                resource_exhausted: None::<CallbackAddress>,
                garbage_collection_start: None::<CallbackAddress>,
                garbage_collection_finish: None::<CallbackAddress>,
                object_free: None::<CallbackAddress>,
                vmobject_alloc: None::<CallbackAddress>,
                sampled_object_alloc: None::<CallbackAddress>,
            }),
    {
        EventCallbacksBuilder {
            vminit: None,
            vmdeath: None,
            thread_start: None,
            thread_end: None,
            class_file_load_hook: None,
            class_load: None,
            class_prepare: None,
            vmstart: None,
            exception: None,
            exception_catch: None,
            single_step: None,
            frame_pop: None,
            breakpoint: None,
            field_access: None,
            field_modification: None,
            method_entry: None,
            method_exit: None,
            native_method_bind: None,
            compiled_method_load: None,
            compiled_method_unload: None,
            dynamic_code_generated: None,
            data_dump_request: None,
            monitor_wait: None,
            monitor_waited: None,
            monitor_contended_enter: None,
            monitor_contended_entered: None,
            resource_exhausted: None,
            garbage_collection_start: None,
            garbage_collection_finish: None,
            object_free: None,
            vmobject_alloc: None,
            sampled_object_alloc: None,
        }
    }

    /// Assembles the accumulated entries into the table that one install
    /// call hands to the interface.
    pub fn build(self) -> (r: EventCallbacks)
        ensures
            r == (EventCallbacks {
                vminit: self.vminit,
                vmdeath: self.vmdeath,
                thread_start: self.thread_start,
                thread_end: self.thread_end,
                class_file_load_hook: self.class_file_load_hook,
                class_load: self.class_load,
                class_prepare: self.class_prepare,
                vmstart: self.vmstart,
                exception: self.exception,
                exception_catch: self.exception_catch,
                single_step: self.single_step,
                frame_pop: self.frame_pop,
                breakpoint: self.breakpoint,
                field_access: self.field_access,
                field_modification: self.field_modification,
                method_entry: self.method_entry,
                method_exit: self.method_exit,
                native_method_bind: self.native_method_bind,
                compiled_method_load: self.compiled_method_load,
                compiled_method_unload: self.compiled_method_unload,
                dynamic_code_generated: self.dynamic_code_generated,
                data_dump_request: self.data_dump_request,
                monitor_wait: self.monitor_wait,
                monitor_waited: self.monitor_waited,
                monitor_contended_enter: self.monitor_contended_enter,
                monitor_contended_entered: self.monitor_contended_entered,
                resource_exhausted: self.resource_exhausted,
                garbage_collection_start: self.garbage_collection_start,
                garbage_collection_finish: self.garbage_collection_finish,
                object_free: self.object_free,
                vmobject_alloc: self.vmobject_alloc,
                sampled_object_alloc: self.sampled_object_alloc,
            }),
    {
        EventCallbacks {
            vminit: self.vminit,
            vmdeath: self.vmdeath,
            thread_start: self.thread_start,
            thread_end: self.thread_end,
            class_file_load_hook: self.class_file_load_hook,
            class_load: self.class_load,
            class_prepare: self.class_prepare,
            vmstart: self.vmstart,
            exception: self.exception,
            exception_catch: self.exception_catch,
            single_step: self.single_step,
            frame_pop: self.frame_pop,
            breakpoint: self.breakpoint,
            field_access: self.field_access,
            field_modification: self.field_modification,
            method_entry: self.method_entry,
            method_exit: self.method_exit,
            native_method_bind: self.native_method_bind,
            compiled_method_load: self.compiled_method_load,
            compiled_method_unload: self.compiled_method_unload,
            dynamic_code_generated: self.dynamic_code_generated,
            data_dump_request: self.data_dump_request,
            monitor_wait: self.monitor_wait,
            monitor_waited: self.monitor_waited,
            monitor_contended_enter: self.monitor_contended_enter,
            monitor_contended_entered: self.monitor_contended_entered,
            resource_exhausted: self.resource_exhausted,
            garbage_collection_start: self.garbage_collection_start,
            garbage_collection_finish: self.garbage_collection_finish,
            object_free: self.object_free,
            vmobject_alloc: self.vmobject_alloc,
            sampled_object_alloc: self.sampled_object_alloc,
        }
    }

    /// Chooses the callback for VmInit-style startup completion.
    pub fn with_vminit(self, callback: Option<CallbackAddress>) -> (r: Self)
        ensures
            r == (EventCallbacksBuilder { vminit: callback, ..self }),
    {
        EventCallbacksBuilder { vminit: callback, ..self }
    }

    /// Chooses the callback for VM termination.
    pub fn with_vmdeath(self, callback: Option<CallbackAddress>) -> (r: Self)
        ensures
            r == (EventCallbacksBuilder { vmdeath: callback, ..self }),
    {
        EventCallbacksBuilder { vmdeath: callback, ..self }
    }

    /// Chooses the callback for thread start.
    pub fn with_thread_start(self, callback: Option<CallbackAddress>) -> (r: Self)
        ensures
            r == (EventCallbacksBuilder { thread_start: callback, ..self }),
    {
        EventCallbacksBuilder { thread_start: callback, ..self }
    }

    /// Chooses the callback for thread end.
    pub fn with_thread_end(self, callback: Option<CallbackAddress>) -> (r: Self)
        ensures
            r == (EventCallbacksBuilder { thread_end: callback, ..self }),
    {
        EventCallbacksBuilder { thread_end: callback, ..self }
    }

    /// Chooses the callback for class file load hook.
    pub fn with_class_file_load_hook(self, callback: Option<CallbackAddress>) -> (r: Self)
        ensures
            r == (EventCallbacksBuilder { class_file_load_hook: callback, ..self }),
    {
        EventCallbacksBuilder { class_file_load_hook: callback, ..self }
    }

    /// Chooses the callback for class load.
    pub fn with_class_load(self, callback: Option<CallbackAddress>) -> (r: Self)
        ensures
            r == (EventCallbacksBuilder { class_load: callback, ..self }),
    {
        EventCallbacksBuilder { class_load: callback, ..self }
    }

    /// Chooses the callback for class prepare.
    pub fn with_class_prepare(self, callback: Option<CallbackAddress>) -> (r: Self)
        ensures
            r == (EventCallbacksBuilder { class_prepare: callback, ..self }),
    {
        EventCallbacksBuilder { class_prepare: callback, ..self }
    }

    /// Chooses the callback for VM start.
    pub fn with_vmstart(self, callback: Option<CallbackAddress>) -> (r: Self)
        ensures
            r == (EventCallbacksBuilder { vmstart: callback, ..self }),
    {
        EventCallbacksBuilder { vmstart: callback, ..self }
    }

    /// Chooses the callback for exception throw.
    pub fn with_exception(self, callback: Option<CallbackAddress>) -> (r: Self)
        ensures
            r == (EventCallbacksBuilder { exception: callback, ..self }),
    {
        EventCallbacksBuilder { exception: callback, ..self }
    }

    /// Chooses the callback for exception catch.
    pub fn with_exception_catch(self, callback: Option<CallbackAddress>) -> (r: Self)
        ensures
            r == (EventCallbacksBuilder { exception_catch: callback, ..self }),
    {
        EventCallbacksBuilder { exception_catch: callback, ..self }
    }

    /// Chooses the callback for single step.
    pub fn with_single_step(self, callback: Option<CallbackAddress>) -> (r: Self)
        ensures
            r == (EventCallbacksBuilder { single_step: callback, ..self }),
    {
        EventCallbacksBuilder { single_step: callback, ..self }
    }

    /// Chooses the callback for frame pop.
    pub fn with_frame_pop(self, callback: Option<CallbackAddress>) -> (r: Self)
        ensures
            r == (EventCallbacksBuilder { frame_pop: callback, ..self }),
    {
        EventCallbacksBuilder { frame_pop: callback, ..self }
    }

    /// Chooses the callback for breakpoint.
    pub fn with_breakpoint(self, callback: Option<CallbackAddress>) -> (r: Self)
        ensures
            r == (EventCallbacksBuilder { breakpoint: callback, ..self }),
    {
        EventCallbacksBuilder { breakpoint: callback, ..self }
    }

    /// Chooses the callback for field access.
    pub fn with_field_access(self, callback: Option<CallbackAddress>) -> (r: Self)
        ensures
            r == (EventCallbacksBuilder { field_access: callback, ..self }),
    {
        EventCallbacksBuilder { field_access: callback, ..self }
    }

    /// Chooses the callback for field modification.
    pub fn with_field_modification(self, callback: Option<CallbackAddress>) -> (r: Self)
        ensures
            r == (EventCallbacksBuilder { field_modification: callback, ..self }),
    {
        EventCallbacksBuilder { field_modification: callback, ..self }
    }

    /// Chooses the callback for method entry.
    pub fn with_method_entry(self, callback: Option<CallbackAddress>) -> (r: Self)
        ensures
            r == (EventCallbacksBuilder { method_entry: callback, ..self }),
    {
        EventCallbacksBuilder { method_entry: callback, ..self }
    }

    /// Chooses the callback for method exit.
    pub fn with_method_exit(self, callback: Option<CallbackAddress>) -> (r: Self)
        ensures
            r == (EventCallbacksBuilder { method_exit: callback, ..self }),
    {
        EventCallbacksBuilder { method_exit: callback, ..self }
    }

    /// Chooses the callback for native method bind.
    pub fn with_native_method_bind(self, callback: Option<CallbackAddress>) -> (r: Self)
        ensures
            r == (EventCallbacksBuilder { native_method_bind: callback, ..self }),
    {
        EventCallbacksBuilder { native_method_bind: callback, ..self }
    }

    /// Chooses the callback for compiled method load.
    pub fn with_compiled_method_load(self, callback: Option<CallbackAddress>) -> (r: Self)
        ensures
            r == (EventCallbacksBuilder { compiled_method_load: callback, ..self }),
    {
        EventCallbacksBuilder { compiled_method_load: callback, ..self }
    }

    /// Chooses the callback for compiled method unload.
    pub fn with_compiled_method_unload(self, callback: Option<CallbackAddress>) -> (r: Self)
        ensures
            r == (EventCallbacksBuilder { compiled_method_unload: callback, ..self }),
    {
        EventCallbacksBuilder { compiled_method_unload: callback, ..self }
    }

    /// Chooses the callback for dynamic code generation.
    pub fn with_dynamic_code_generated(self, callback: Option<CallbackAddress>) -> (r: Self)
        ensures
            r == (EventCallbacksBuilder { dynamic_code_generated: callback, ..self }),
    {
        EventCallbacksBuilder { dynamic_code_generated: callback, ..self }
    }

    /// Chooses the callback for data dump request.
    pub fn with_data_dump_request(self, callback: Option<CallbackAddress>) -> (r: Self)
        ensures
            r == (EventCallbacksBuilder { data_dump_request: callback, ..self }),
    {
        EventCallbacksBuilder { data_dump_request: callback, ..self }
    }

    /// Chooses the callback for monitor wait.
    pub fn with_monitor_wait(self, callback: Option<CallbackAddress>) -> (r: Self)
        ensures
            r == (EventCallbacksBuilder { monitor_wait: callback, ..self }),
    {
        EventCallbacksBuilder { monitor_wait: callback, ..self }
    }

    /// Chooses the callback for monitor waited.
    pub fn with_monitor_waited(self, callback: Option<CallbackAddress>) -> (r: Self)
        ensures
            r == (EventCallbacksBuilder { monitor_waited: callback, ..self }),
    {
        EventCallbacksBuilder { monitor_waited: callback, ..self }
    }

    /// Chooses the callback for monitor contended enter.
    pub fn with_monitor_contended_enter(self, callback: Option<CallbackAddress>) -> (r: Self)
        ensures
            r == (EventCallbacksBuilder { monitor_contended_enter: callback, ..self }),
    {
        EventCallbacksBuilder { monitor_contended_enter: callback, ..self }
    }

    /// Chooses the callback for monitor contended entered.
    pub fn with_monitor_contended_entered(self, callback: Option<CallbackAddress>) -> (r: Self)
        ensures
            r == (EventCallbacksBuilder { monitor_contended_entered: callback, ..self }),
    {
        EventCallbacksBuilder { monitor_contended_entered: callback, ..self }
    }

    /// Chooses the callback for resource exhaustion.
    pub fn with_resource_exhausted(self, callback: Option<CallbackAddress>) -> (r: Self)
        ensures
            r == (EventCallbacksBuilder { resource_exhausted: callback, ..self }),
    {
        EventCallbacksBuilder { resource_exhausted: callback, ..self }
    }

    /// Chooses the callback for garbage collection start.
    pub fn with_garbage_collection_start(self, callback: Option<CallbackAddress>) -> (r: Self)
        ensures
            r == (EventCallbacksBuilder { garbage_collection_start: callback, ..self }),
    {
        EventCallbacksBuilder { garbage_collection_start: callback, ..self }
    }

    /// Chooses the callback for garbage collection finish.
    pub fn with_garbage_collection_finish(self, callback: Option<CallbackAddress>) -> (r: Self)
        ensures
            r == (EventCallbacksBuilder { garbage_collection_finish: callback, ..self }),
    {
        EventCallbacksBuilder { garbage_collection_finish: callback, ..self }
    }

    /// Chooses the callback for object free.
    pub fn with_object_free(self, callback: Option<CallbackAddress>) -> (r: Self)
        ensures
            r == (EventCallbacksBuilder { object_free: callback, ..self }),
    {
        EventCallbacksBuilder { object_free: callback, ..self }
    }

    /// Chooses the callback for VM object allocation.
    pub fn with_vmobject_alloc(self, callback: Option<CallbackAddress>) -> (r: Self)
        ensures
            r == (EventCallbacksBuilder { vmobject_alloc: callback, ..self }),
    {
        EventCallbacksBuilder { vmobject_alloc: callback, ..self }
    }

    /// Chooses the callback for sampled object allocation.
    pub fn with_sampled_object_alloc(self, callback: Option<CallbackAddress>) -> (r: Self)
        ensures
            r == (EventCallbacksBuilder { sampled_object_alloc: callback, ..self }),
    {
        EventCallbacksBuilder { sampled_object_alloc: callback, ..self }
    }
}

impl Default for EventCallbacksBuilder {
    /// A builder with every slot unset.
    fn default() -> (r: Self)
        ensures
            r == (EventCallbacksBuilder {
                vminit: None::<CallbackAddress>,
                vmdeath: None::<CallbackAddress>,
                thread_start: None::<CallbackAddress>,
                thread_end: None::<CallbackAddress>,
                class_file_load_hook: None::<CallbackAddress>,
                class_load: None::<CallbackAddress>,
                class_prepare: None::<CallbackAddress>,
                vmstart: None::<CallbackAddress>,
                exception: None::<CallbackAddress>,
                exception_catch: None::<CallbackAddress>,
                single_step: None::<CallbackAddress>,
                frame_pop: None::<CallbackAddress>,
                breakpoint: None::<CallbackAddress>,
                field_access: None::<CallbackAddress>,
                field_modification: None::<CallbackAddress>,
                method_entry: None::<CallbackAddress>,
                method_exit: None::<CallbackAddress>,
                native_method_bind: None::<CallbackAddress>,
                compiled_method_load: None::<CallbackAddress>,
                compiled_method_unload: None::<CallbackAddress>,
                dynamic_code_generated: None::<CallbackAddress>,
                data_dump_request: None::<CallbackAddress>,
                monitor_wait: None::<CallbackAddress>,
                monitor_waited: None::<CallbackAddress>,
                monitor_contended_enter: None::<CallbackAddress>,
                monitor_contended_entered: None::<CallbackAddress>,
                resource_exhausted: None::<CallbackAddress>,
                garbage_collection_start: None::<CallbackAddress>,
                garbage_collection_finish: None::<CallbackAddress>,
                object_free: None::<CallbackAddress>,
                vmobject_alloc: None::<CallbackAddress>,
                sampled_object_alloc: None::<CallbackAddress>,
            }),
    {
        Self::new()
    }
}

} // verus!
