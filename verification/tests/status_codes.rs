use jvmti::status::{
    jni_error_code_to_result, jvmti_err_to_result, JNI_EDETACHED, JNI_EVERSION, JNI_OK,
    JVMTI_ERROR_MUST_POSSESS_CAPABILITY, JVMTI_ERROR_NONE,
};
use jvmti::{JniError, JvmtiError};

#[test]
fn success_code_translates_to_ok() {
    assert_eq!(jvmti_err_to_result(JVMTI_ERROR_NONE), Ok(()));
    assert_eq!(JVMTI_ERROR_NONE, 0);
}

#[test]
fn missing_capability_code_is_refined() {
    assert_eq!(
        jvmti_err_to_result(JVMTI_ERROR_MUST_POSSESS_CAPABILITY),
        Err(JvmtiError::MissingCapability)
    );
    assert_eq!(JVMTI_ERROR_MUST_POSSESS_CAPABILITY, 99);
}

#[test]
fn other_codes_fold_into_generic_variant() {
    assert_eq!(jvmti_err_to_result(5), Err(JvmtiError::Other(5)));
    assert_eq!(jvmti_err_to_result(116), Err(JvmtiError::Other(116)));
}

#[test]
fn vm_query_codes_translate() {
    assert_eq!(jni_error_code_to_result(JNI_OK), Ok(()));
    assert_eq!(
        jni_error_code_to_result(JNI_EDETACHED),
        Err(JniError::ThreadDetached)
    );
    assert_eq!(
        jni_error_code_to_result(JNI_EVERSION),
        Err(JniError::WrongJniVersion)
    );
    assert_eq!(jni_error_code_to_result(-4), Err(JniError::Unknown(-4)));
}
