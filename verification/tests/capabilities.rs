use jvmti::{
    Capabilities, Error, EventScope, EventType, FunctionTable, JavaVm, JvmtiEnv, JvmtiError,
};

fn vm_with_potential(potential: Capabilities) -> JavaVm {
    JavaVm::new(FunctionTable::full(), potential, Vec::new(), Vec::new())
}

#[test]
fn capabilities() {
    let mut taggable = Capabilities { bits: 0 };
    taggable.set_can_tag_objects(true);
    let mut jvm = vm_with_potential(taggable);

    let mut jvmti = JvmtiEnv::from_jvm(&mut jvm).expect("failed");
    jvmti
        .enable_event(EventType::ClassLoad, EventScope::Global)
        .expect("failed");

    let potential = jvmti.get_potential_capabilities().expect("failed");
    let active = jvmti.get_capabilities().expect("failed");

    assert!(potential.can_tag_objects());
    assert!(!active.can_tag_objects());

    let mut new = Capabilities { bits: 0 };
    new.set_can_tag_objects(true);
    jvmti.add_capabilities(&new).expect("failed");

    let active = jvmti.get_capabilities().expect("failed");
    assert!(active.can_tag_objects());

    jvmti.relinquish_capabilities(&new).expect("failed");
    let active = jvmti.get_capabilities().expect("failed");
    assert!(!active.can_tag_objects());

    jvmti.dispose().expect("dispose failed");
}

#[test]
fn adding_beyond_potential_is_refused_whole() {
    let mut jvm = vm_with_potential(Capabilities { bits: 0 });
    let mut jvmti = JvmtiEnv::from_jvm(&mut jvm).expect("failed");

    let mut delta = Capabilities { bits: 0 };
    delta.set_can_tag_objects(true);
    assert_eq!(
        jvmti.add_capabilities(&delta),
        Err(Error::Jvmti(JvmtiError::Other(
            jvmti::status::JVMTI_ERROR_NOT_AVAILABLE
        )))
    );
    let active = jvmti.get_capabilities().expect("failed");
    assert_eq!(active.bits, 0);
}

#[test]
fn relinquishing_inactive_capability_changes_nothing() {
    let mut taggable = Capabilities { bits: 0 };
    taggable.set_can_tag_objects(true);
    let mut jvm = vm_with_potential(taggable);
    let mut jvmti = JvmtiEnv::from_jvm(&mut jvm).expect("failed");

    let mut delta = Capabilities { bits: 0 };
    delta.set_can_tag_objects(true);
    jvmti.relinquish_capabilities(&delta).expect("failed");
    assert_eq!(jvmti.get_capabilities().expect("failed").bits, 0);
}

#[test]
fn capability_set_operations() {
    let a = Capabilities { bits: 0b0101 };
    let b = Capabilities { bits: 0b0011 };
    assert_eq!(a.union(b).bits, 0b0111);
    assert_eq!(a.difference(b).bits, 0b0100);
    assert!(b.is_subset_of(&Capabilities { bits: 0b1011 }));
    assert!(!a.is_subset_of(&b));
    assert!(a.has_bit(0));
    assert!(!a.has_bit(1));
    assert_eq!(a.with_bit(1).bits, 0b0111);
    assert_eq!(Capabilities::empty().bits, 0);
}
