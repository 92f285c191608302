use jvmti::{
    Capabilities, EventCallbacksBuilder, EventScope, EventType, FunctionTable, JavaVm, JvmtiEnv,
};

fn fresh_env() -> JvmtiEnv {
    let mut jvm = JavaVm::new(
        FunctionTable::full(),
        Capabilities { bits: 0 },
        Vec::new(),
        Vec::new(),
    );
    JvmtiEnv::from_jvm(&mut jvm).expect("failed")
}

#[test]
fn event_callback() {
    let class_load_callback: u64 = 10;
    let mut jvmti = fresh_env();

    let callbacks = EventCallbacksBuilder::default()
        .with_class_load(Some(class_load_callback))
        .build();
    jvmti.install_event_callbacks(&callbacks).expect("failed");
    jvmti
        .enable_event(EventType::ClassLoad, EventScope::Global)
        .expect("failed");

    // A class load on any thread now dispatches to the installed callback.
    let thread: u64 = 7;
    let fired = jvmti.dispatch_event(EventType::ClassLoad, Some(thread));
    assert_eq!(fired, Some(class_load_callback));

    jvmti.dispose().expect("dispose failed");
}

#[test]
fn callback_fires_only_when_installed_and_enabled() {
    let mut jvmti = fresh_env();

    // Enabled but no table installed: nothing fires.
    jvmti
        .enable_event(EventType::ClassLoad, EventScope::Global)
        .expect("failed");
    assert_eq!(jvmti.dispatch_event(EventType::ClassLoad, Some(1)), None);

    // Table installed with the slot unset: still nothing fires.
    let empty = EventCallbacksBuilder::default().build();
    jvmti.install_event_callbacks(&empty).expect("failed");
    assert_eq!(jvmti.dispatch_event(EventType::ClassLoad, Some(1)), None);

    // Slot filled but the kind not enabled: nothing fires.
    let callbacks = EventCallbacksBuilder::default()
        .with_breakpoint(Some(44))
        .build();
    jvmti.install_event_callbacks(&callbacks).expect("failed");
    assert_eq!(jvmti.dispatch_event(EventType::Breakpoint, Some(1)), None);

    // Both: it fires.
    jvmti
        .enable_event(EventType::Breakpoint, EventScope::Global)
        .expect("failed");
    assert_eq!(jvmti.dispatch_event(EventType::Breakpoint, Some(1)), Some(44));
}

#[test]
fn enable_then_disable_fires_nothing() {
    let mut jvmti = fresh_env();
    let callbacks = EventCallbacksBuilder::default()
        .with_thread_start(Some(5))
        .build();
    jvmti.install_event_callbacks(&callbacks).expect("failed");

    jvmti
        .enable_event(EventType::ThreadStart, EventScope::Global)
        .expect("failed");
    assert_eq!(jvmti.dispatch_event(EventType::ThreadStart, Some(3)), Some(5));

    jvmti
        .disable_event(EventType::ThreadStart, EventScope::Global)
        .expect("failed");
    assert_eq!(jvmti.dispatch_event(EventType::ThreadStart, Some(3)), None);
    assert_eq!(jvmti.dispatch_event(EventType::ThreadStart, None), None);
}

#[test]
fn thread_scope_is_narrower_than_global() {
    let mut jvmti = fresh_env();
    let callbacks = EventCallbacksBuilder::default()
        .with_method_entry(Some(9))
        .build();
    jvmti.install_event_callbacks(&callbacks).expect("failed");

    let watched: u64 = 21;
    jvmti
        .enable_event(EventType::MethodEntry, EventScope::Thread(watched))
        .expect("failed");
    assert_eq!(
        jvmti.dispatch_event(EventType::MethodEntry, Some(watched)),
        Some(9)
    );
    assert_eq!(jvmti.dispatch_event(EventType::MethodEntry, Some(22)), None);

    jvmti
        .disable_event(EventType::MethodEntry, EventScope::Thread(watched))
        .expect("failed");
    assert_eq!(jvmti.dispatch_event(EventType::MethodEntry, Some(watched)), None);
}

#[test]
fn global_enablement_covers_deliveries_without_a_thread() {
    let mut jvmti = fresh_env();
    let callbacks = EventCallbacksBuilder::default()
        .with_garbage_collection_finish(Some(12))
        .build();
    jvmti.install_event_callbacks(&callbacks).expect("failed");
    jvmti
        .enable_event(EventType::GarbageCollectionFinish, EventScope::Global)
        .expect("failed");
    assert_eq!(
        jvmti.dispatch_event(EventType::GarbageCollectionFinish, None),
        Some(12)
    );
}

#[test]
fn builder_sets_exactly_the_chosen_slot() {
    let table = EventCallbacksBuilder::default()
        .with_vminit(Some(1))
        .with_garbage_collection_start(Some(2))
        .build();
    assert_eq!(table.vminit, Some(1));
    assert_eq!(table.garbage_collection_start, Some(2));
    assert_eq!(table.class_load, None);
    assert_eq!(table.slot(EventType::GarbageCollectionStart), Some(2));
    assert_eq!(table.slot(EventType::ClassLoad), None);
}

#[test]
fn event_numbers_match_the_interface() {
    assert_eq!(EventType::VmDeath.number(), 51);
    assert_eq!(EventType::ClassLoad.number(), 55);
    assert_eq!(EventType::DataDumpRequest.number(), 71);
    assert_eq!(EventType::MonitorWait.number(), 73);
    assert_eq!(EventType::ResourceExhausted.number(), 80);
    assert_eq!(EventType::SampledObjectAlloc.number(), 86);
}
