use jvmti::{
    Capabilities, ClassInfo, Error, FunctionTable, JavaVm, JniError, JvmtiEnv, JvmtiError,
    NullPtrKind, ReleaseStep, U16StrPrintable,
};

fn class(id: u64, signature: &str) -> ClassInfo {
    ClassInfo { id, signature: signature.as_bytes().to_vec() }
}

fn env_with_classes(classes: Vec<ClassInfo>) -> JvmtiEnv {
    let mut jvm = JavaVm::new(
        FunctionTable::full(),
        Capabilities { bits: 0 },
        classes,
        Vec::new(),
    );
    JvmtiEnv::from_jvm(&mut jvm).expect("failed")
}

#[test]
fn loaded_classes() {
    let mut jvmti = env_with_classes(vec![
        class(11, "Ljava/lang/Object;"),
        class(12, "Ljava/lang/Math;"),
        class(13, "Ljava/lang/Class;"),
    ]);

    let classes = jvmti.get_loaded_classes().expect("failed");
    assert_eq!(classes.len(), 3);

    let mut found_math = false;
    let mut handles: Vec<u64> = Vec::new();
    for i in 0..classes.len() {
        handles.push(classes.get(i));
    }
    for handle in handles {
        let sig = jvmti.get_class_signature(handle).expect("failed");
        let text = sig.to_utf8().expect("bad signature");
        if text == "Ljava/lang/Math;" {
            found_math = true;
        }
        sig.release(&mut jvmti);
    }
    assert!(found_math, "failed to find math");
    classes.release(&mut jvmti);

    jvmti.dispose().expect("dispose failed");
}

#[test]
fn class_signature_needs_a_live_class_reference() {
    let mut jvmti = env_with_classes(vec![class(11, "LFoo;")]);
    assert_eq!(
        jvmti.get_class_signature(999).map(|_| ()),
        Err(Error::Jvmti(JvmtiError::Other(
            jvmti::status::JVMTI_ERROR_INVALID_CLASS
        )))
    );
}

#[test]
fn released_class_reference_is_dead() {
    let mut jvmti = env_with_classes(vec![class(11, "LFoo;")]);
    let classes = jvmti.get_loaded_classes().expect("failed");
    let handle = classes.get(0);
    let sig = jvmti.get_class_signature(handle).expect("failed");
    sig.release(&mut jvmti);
    classes.release(&mut jvmti);
    // The reference went with the array; the signature query now refuses it.
    assert!(jvmti.get_class_signature(handle).is_err());
}

#[test]
fn array_release_frees_handles_before_the_buffer_exactly_once() {
    let mut jvmti = env_with_classes(vec![class(1, "LA;"), class(2, "LB;")]);
    let classes = jvmti.get_loaded_classes().expect("failed");
    let h0 = classes.get(0);
    let h1 = classes.get(1);
    let allocation = classes.allocation;

    let log = classes.release(&mut jvmti);
    assert_eq!(log.len(), 3);
    assert_eq!(log[0], ReleaseStep::Handle { handle: h0, released: true });
    assert_eq!(log[1], ReleaseStep::Handle { handle: h1, released: true });
    assert_eq!(log[2], ReleaseStep::Buffer { allocation, released: true });

    // The allocation was released exactly once: a second release of the same
    // identity is refused by the environment.
    assert_eq!(
        jvmti.deallocate(allocation),
        Err(Error::Jvmti(JvmtiError::Other(
            jvmti::status::JVMTI_ERROR_ILLEGAL_ARGUMENT
        )))
    );
}

#[test]
fn string_release_reports_the_buffer_step() {
    let mut jvmti = env_with_classes(vec![class(9, "LBar;")]);
    let classes = jvmti.get_loaded_classes().expect("failed");
    let handle = classes.handles()[0];
    let sig = jvmti.get_class_signature(handle).expect("failed");
    let allocation = sig.allocation;
    let step = sig.release(&mut jvmti);
    assert_eq!(step, ReleaseStep::Buffer { allocation, released: true });
    classes.release(&mut jvmti);
}

#[test]
fn signature_with_supplementary_character_decodes() {
    // The six-byte surrogate encoding of one supplementary character: the
    // decoder must rewrite it, not hand the bytes through.
    let encoded: Vec<u8> = vec![0xED, 0xA0, 0x81, 0xED, 0xB0, 0x80];
    let mut jvmti = env_with_classes(vec![ClassInfo { id: 5, signature: encoded }]);
    let classes = jvmti.get_loaded_classes().expect("failed");
    let sig = jvmti.get_class_signature(classes.get(0)).expect("failed");
    let text = sig.to_utf8().expect("bad signature");
    assert_eq!(text, "\u{10400}");
    assert_eq!(sig.len(), 6);
    assert_eq!(sig.as_bytes().len(), 6);
}

#[test]
fn truncated_signature_fails_to_decode() {
    // A two-byte encoding cut short is not well-formed modified UTF-8.
    let encoded: Vec<u8> = vec![0x4C, 0xC3];
    let mut jvmti = env_with_classes(vec![ClassInfo { id: 5, signature: encoded }]);
    let classes = jvmti.get_loaded_classes().expect("failed");
    let sig = jvmti.get_class_signature(classes.get(0)).expect("failed");
    assert!(sig.to_utf8().is_none());
}

#[test]
fn utf16_contents_decode_lossily() {
    let smile = U16StrPrintable(vec![0xD83D, 0xDE00]);
    assert_eq!(smile.to_string_lossy(), "\u{1F600}");
    let lone_surrogate = U16StrPrintable(vec![0xD83D]);
    assert_eq!(lone_surrogate.to_string_lossy(), "\u{FFFD}");
    let plain = U16StrPrintable(vec![104, 105]);
    assert_eq!(plain.to_string_lossy(), "hi");
}

#[test]
fn from_jvm_checks_every_pointer_and_claims_the_handle() {
    // A null VM handle always fails with the null-pointer error.
    let mut null_vm = JavaVm::new(
        FunctionTable::full(),
        Capabilities { bits: 0 },
        Vec::new(),
        Vec::new(),
    );
    null_vm.vm_null = true;
    assert!(matches!(
        JvmtiEnv::from_jvm(&mut null_vm),
        Err(Error::Jni(JniError::NullPtr(NullPtrKind::JavaVm)))
    ));

    // An absent environment-query slot likewise, never a handle.
    let mut no_query = JavaVm::new(
        FunctionTable::full(),
        Capabilities { bits: 0 },
        Vec::new(),
        Vec::new(),
    );
    no_query.get_env_present = false;
    assert!(matches!(
        JvmtiEnv::from_jvm(&mut no_query),
        Err(Error::Jni(JniError::NullPtr(NullPtrKind::GetEnvFunction)))
    ));

    // Failed version negotiation is translated.
    let mut wrong_version = JavaVm::new(
        FunctionTable::full(),
        Capabilities { bits: 0 },
        Vec::new(),
        Vec::new(),
    );
    wrong_version.get_env_status = -3;
    assert!(matches!(
        JvmtiEnv::from_jvm(&mut wrong_version),
        Err(Error::Jni(JniError::WrongJniVersion))
    ));

    // A valid handle yields an environment exactly once.
    let mut jvm = JavaVm::new(
        FunctionTable::full(),
        Capabilities { bits: 0 },
        Vec::new(),
        Vec::new(),
    );
    let first = JvmtiEnv::from_jvm(&mut jvm);
    assert!(first.is_ok());
    let second = JvmtiEnv::from_jvm(&mut jvm);
    assert!(matches!(second, Err(Error::Jni(JniError::Unknown(-1)))));
    first.expect("failed").dispose().expect("dispose failed");
}

#[test]
fn absent_table_slots_are_reported_as_null_functions() {
    let mut table = FunctionTable::full();
    table.get_loaded_classes = false;
    let mut jvm = JavaVm::new(table, Capabilities { bits: 0 }, Vec::new(), Vec::new());
    let mut jvmti = JvmtiEnv::from_jvm(&mut jvm).expect("failed");
    assert_eq!(
        jvmti.get_loaded_classes().map(|_| ()),
        Err(Error::NullFunction(jvmti::JvmtiFunction::GetLoadedClasses))
    );
}

#[test]
fn empty_and_zero_tag_queries_are_refused() {
    let mut taggable = Capabilities { bits: 0 };
    taggable.set_can_tag_objects(true);
    let mut jvm = JavaVm::new(FunctionTable::full(), taggable, Vec::new(), Vec::new());
    let mut jvmti = JvmtiEnv::from_jvm(&mut jvm).expect("failed");
    let mut delta = Capabilities { bits: 0 };
    delta.set_can_tag_objects(true);
    jvmti.add_capabilities(&delta).expect("failed");

    let empty: Vec<i64> = Vec::new();
    assert!(matches!(
        jvmti.get_objects_with_tags(&empty),
        Err(Error::Jvmti(JvmtiError::Other(_)))
    ));
    assert!(matches!(
        jvmti.get_objects_with_tag(0),
        Err(Error::Jvmti(JvmtiError::Other(_)))
    ));
}
