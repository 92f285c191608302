//! A safety layer over the JVM Tool Interface (JVMTI).
//!
//! The native interface is a table of C function pointers obtained from a
//! running VM. Every call through it returns an integer status code, hands
//! back VM-owned memory as raw pointers, and delivers events through untyped
//! callbacks. This crate models that protocol over plain values: an
//! environment handle that owns the negotiated state, typed status-code
//! translation, event subscription and dispatch rules, a heap traversal with
//! live tagging, and guards for interface-allocated memory that release
//! contained handles before the backing buffer.

pub mod capabilities;
pub mod env;
pub mod event;
pub mod heap;
pub mod laws;
pub mod memory;
pub mod seqs;
pub mod status;
pub mod text;

pub use capabilities::Capabilities;
pub use env::{ClassInfo, FunctionTable, JavaVm, JvmtiEnv, LocalRefEntry, RefTarget};
pub use event::{EventCallbacks, EventCallbacksBuilder, EventScope, EventType};
pub use heap::{
    FieldType, HeapFilterFlags, HeapIterationCallback, HeapObject, HeapObjectKind,
    HeapVisitControlFlags, HeapVisitOutcome, HeapVisitor, JvmPrimitive, PrimitiveArray,
    PrimitiveElements, PrimitiveType, U16StrPrintable,
};
pub use memory::{AllocatedArray, AllocatedMutf8, Allocation, LocalRef, ReleaseStep};
pub use status::{Error, JniError, JvmtiError, JvmtiFunction, JvmtiResult, NullPtrKind};
