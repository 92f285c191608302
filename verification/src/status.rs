//! Translation of the interface's integer return codes into a typed error
//! taxonomy. Every native call reports an integer status; `0` means success,
//! one well-known code maps to a refined variant, and all others fold into a
//! generic variant carrying the raw code.

use vstd::prelude::*;

verus! {

/// Status code reported by a native call that succeeded.
pub const JVMTI_ERROR_NONE: u32 = 0;
/// Status code for a class handle the interface does not recognise.
pub const JVMTI_ERROR_INVALID_CLASS: u32 = 21;
/// Status code reported when a requested capability is not potentially
/// available.
pub const JVMTI_ERROR_NOT_AVAILABLE: u32 = 98;
/// Status code reported when the capability a call depends on is not active.
pub const JVMTI_ERROR_MUST_POSSESS_CAPABILITY: u32 = 99;
/// Status code for an argument the interface rejects.
pub const JVMTI_ERROR_ILLEGAL_ARGUMENT: u32 = 103;

/// The functions of the interface's table that this layer calls. A conforming
/// VM fills every slot, but each slot is checked, not assumed.
#[derive(Clone, Copy, Debug, PartialEq, Eq, Structural)]
pub enum JvmtiFunction {
    SetEventCallbacks,
    SetEventNotificationMode,
    GetLoadedClasses,
    GetPotentialCapabilities,
    GetCapabilities,
    AddCapabilities,
    RelinquishCapabilities,
    IterateThroughHeap,
    GetObjectsWithTags,
    GetClassSignature,
    DisposeEnvironment,
    Deallocate,
}

/// A native call executed and the VM reported failure.
#[derive(Clone, Copy, Debug, PartialEq, Eq, Structural)]
pub enum JvmtiError {
    /// The capability being used is not active in this environment.
    MissingCapability,
    /// Any other non-success status, carrying the raw code for diagnostics.
    Other(u32),
}

/// The pointer that was found null while querying the VM for the interface.
#[derive(Clone, Copy, Debug, PartialEq, Eq, Structural)]
pub enum NullPtrKind {
    /// The VM handle itself, or its function table.
    JavaVm,
    /// The VM's environment-query slot.
    GetEnvFunction,
}

/// Failure while obtaining the environment from the VM.
#[derive(Clone, Copy, Debug, PartialEq, Eq, Structural)]
pub enum JniError {
    /// A required pointer was null.
    NullPtr(NullPtrKind),
    /// The querying thread is not attached to the VM.
    ThreadDetached,
    /// The VM does not support the requested interface version.
    WrongJniVersion,
    /// Any other non-success code from the VM query.
    Unknown(i32),
}

/// Everything a fallible operation of this layer can report.
#[derive(Clone, Copy, Debug, PartialEq, Eq, Structural)]
pub enum Error {
    /// Setup failed while querying the VM for the environment.
    Jni(JniError),
    /// A native call executed and reported a non-success status.
    Jvmti(JvmtiError),
    /// The requested function's slot in the interface table is absent.
    NullFunction(JvmtiFunction),
}

/// Result type of every fallible operation of this layer.
pub type JvmtiResult<T> = Result<T, Error>;

/// What translating a raw status code yields.
pub open spec fn spec_jvmti_err_to_result(err: u32) -> Result<(), JvmtiError> {
    if err == JVMTI_ERROR_NONE {
        Ok(())
    } else if err == JVMTI_ERROR_MUST_POSSESS_CAPABILITY {
        Err(JvmtiError::MissingCapability)
    } else {
        Err(JvmtiError::Other(err))
    }
}

/// Translates a raw interface status code: success for `0`, the refined
/// variant for the capability-missing code, the generic variant otherwise.
pub fn jvmti_err_to_result(err: u32) -> (r: Result<(), JvmtiError>)
    ensures
        r == spec_jvmti_err_to_result(err),
        r is Ok <==> err == JVMTI_ERROR_NONE,
{
    if err == JVMTI_ERROR_NONE {
        Ok(())
    } else if err == JVMTI_ERROR_MUST_POSSESS_CAPABILITY {
        Err(JvmtiError::MissingCapability)
    } else {
        Err(JvmtiError::Other(err))
    }
}

/// Return code of a successful VM query.
pub const JNI_OK: i32 = 0;
/// Return code of a VM query that failed for no more specific reason.
pub const JNI_ERR: i32 = -1;
/// Return code of a VM query made from a thread the VM does not know.
pub const JNI_EDETACHED: i32 = -2;
/// Return code of a VM query for an unsupported interface version.
pub const JNI_EVERSION: i32 = -3;

/// The typed setup error a non-success VM-query code stands for.
pub open spec fn spec_jni_error_of(code: i32) -> JniError {
    if code == JNI_EDETACHED {
        JniError::ThreadDetached
    } else if code == JNI_EVERSION {
        JniError::WrongJniVersion
    } else {
        JniError::Unknown(code)
    }
}

/// What translating a raw VM-query return code yields.
pub open spec fn spec_jni_error_code_to_result(code: i32) -> Result<(), JniError> {
    if code == JNI_OK {
        Ok(())
    } else {
        Err(spec_jni_error_of(code))
    }
}

/// Translates the integer a VM query returns into the typed setup error.
pub fn jni_error_code_to_result(code: i32) -> (r: Result<(), JniError>)
    ensures
        r == spec_jni_error_code_to_result(code),
        r is Ok <==> code == JNI_OK,
{
    if code == JNI_OK {
        Ok(())
    } else if code == JNI_EDETACHED {
        Err(JniError::ThreadDetached)
    } else if code == JNI_EVERSION {
        Err(JniError::WrongJniVersion)
    } else {
        Err(JniError::Unknown(code))
    }
}

} // verus!
