use jvmti::{
    Capabilities, FieldType, FunctionTable, HeapFilterFlags, HeapIterationCallback, HeapObject,
    HeapObjectKind, HeapVisitControlFlags, HeapVisitOutcome, HeapVisitor, JavaVm, JvmPrimitive,
    JvmtiEnv, PrimitiveArray, PrimitiveElements, PrimitiveType,
};

fn plain_object(class_id: u64, tag: i64, size: usize) -> HeapObject {
    HeapObject {
        class_id,
        class_tag: 0,
        tag,
        size,
        fields: Vec::new(),
        kind: HeapObjectKind::Plain { array_length: None },
    }
}

fn string_object(class_id: u64, chars: Vec<u16>) -> HeapObject {
    HeapObject {
        class_id,
        class_tag: 0,
        tag: 0,
        size: 24,
        fields: Vec::new(),
        kind: HeapObjectKind::Text { chars },
    }
}

fn env_with_heap(heap: Vec<HeapObject>) -> JvmtiEnv {
    let mut taggable = Capabilities { bits: 0 };
    taggable.set_can_tag_objects(true);
    let mut jvm = JavaVm::new(FunctionTable::full(), taggable, Vec::new(), heap);
    let mut env = JvmtiEnv::from_jvm(&mut jvm).expect("failed");
    let mut delta = Capabilities { bits: 0 };
    delta.set_can_tag_objects(true);
    env.add_capabilities(&delta).expect("failed to add capabilities");
    env
}

struct TagStrings {
    sentinel: i64,
    strings_seen: usize,
}

impl HeapVisitor for TagStrings {
    fn visit(&mut self, record: HeapIterationCallback) -> HeapVisitOutcome {
        if let HeapIterationCallback::String { .. } = record {
            self.strings_seen += 1;
            return HeapVisitOutcome {
                control: HeapVisitControlFlags::visit_objects(),
                set_tag: Some(self.sentinel),
            };
        }
        HeapVisitOutcome { control: HeapVisitControlFlags::visit_objects(), set_tag: None }
    }
}

#[test]
fn iterate_through_heap_and_tag() {
    let string_tag: i64 = 0x91828312712;
    let heap = vec![
        plain_object(1, 0, 16),
        string_object(2, vec![104, 105]),
        plain_object(1, 0, 32),
        string_object(2, vec![104, 111]),
    ];
    let mut jvmti = env_with_heap(heap);

    let mut visitor = TagStrings { sentinel: string_tag, strings_seen: 0 };

    // Nothing carries the sentinel before the walk.
    let before = jvmti.get_objects_with_tag(string_tag).expect("failed");
    assert_eq!(before.len(), 0);
    before.release(&mut jvmti);

    let (r, _) = jvmti.iterate_through_heap(HeapFilterFlags::empty(), None, &mut visitor);
    r.expect("iteration failed");
    assert_eq!(visitor.strings_seen, 2);

    let tagged_objs = jvmti.get_objects_with_tag(string_tag).expect("failed");
    assert!(tagged_objs.len() >= 1);
    assert_eq!(tagged_objs.len(), 2);
    tagged_objs.release(&mut jvmti);

    jvmti.dispose().expect("dispose failed");
}

struct CountObjects {
    objects: usize,
}

impl HeapVisitor for CountObjects {
    fn visit(&mut self, record: HeapIterationCallback) -> HeapVisitOutcome {
        if let HeapIterationCallback::Object { .. } = record {
            self.objects += 1;
        }
        HeapVisitOutcome { control: HeapVisitControlFlags::visit_objects(), set_tag: None }
    }
}

#[test]
fn filter_bits_exclude_their_category() {
    let heap = vec![
        plain_object(1, 5, 16),
        plain_object(1, 0, 16),
        plain_object(1, 9, 16),
    ];
    let mut jvmti = env_with_heap(heap);

    let mut all = CountObjects { objects: 0 };
    let (r, _) = jvmti.iterate_through_heap(HeapFilterFlags::empty(), None, &mut all);
    r.expect("iteration failed");
    assert_eq!(all.objects, 3);

    let mut only_tagged = CountObjects { objects: 0 };
    let (r, _) = jvmti.iterate_through_heap(HeapFilterFlags::untagged(), None, &mut only_tagged);
    r.expect("iteration failed");
    assert_eq!(only_tagged.objects, 2);

    let mut only_untagged = CountObjects { objects: 0 };
    let (r, _) = jvmti.iterate_through_heap(HeapFilterFlags::tagged(), None, &mut only_untagged);
    r.expect("iteration failed");
    assert_eq!(only_untagged.objects, 1);

    let mut nothing = CountObjects { objects: 0 };
    let both = HeapFilterFlags::tagged().union(HeapFilterFlags::untagged());
    let (r, _) = jvmti.iterate_through_heap(both, None, &mut nothing);
    r.expect("iteration failed");
    assert_eq!(nothing.objects, 0);
}

struct AbortAfter {
    remaining: usize,
}

impl HeapVisitor for AbortAfter {
    fn visit(&mut self, record: HeapIterationCallback) -> HeapVisitOutcome {
        if let HeapIterationCallback::Object { .. } = record {
            if self.remaining == 0 {
                return HeapVisitOutcome {
                    control: HeapVisitControlFlags::abort(),
                    set_tag: None,
                };
            }
            self.remaining -= 1;
        }
        HeapVisitOutcome { control: HeapVisitControlFlags::visit_objects(), set_tag: None }
    }
}

#[test]
fn abort_stops_the_walk() {
    let heap = vec![
        plain_object(1, 0, 16),
        plain_object(1, 0, 16),
        plain_object(1, 0, 16),
        plain_object(1, 0, 16),
    ];
    let mut jvmti = env_with_heap(heap);

    // The visitor admits two objects and aborts at the third; the fourth is
    // never delivered, so four objects yield three object records.
    let mut visitor = AbortAfter { remaining: 2 };
    let (r, _) = jvmti.iterate_through_heap(HeapFilterFlags::empty(), None, &mut visitor);
    r.expect("iteration failed");
    assert_eq!(visitor.remaining, 0);
}

struct RecordShapes {
    fields: usize,
    arrays: usize,
    longs_seen: Vec<i64>,
}

impl HeapVisitor for RecordShapes {
    fn visit(&mut self, record: HeapIterationCallback) -> HeapVisitOutcome {
        match record {
            HeapIterationCallback::PrimitiveField { value, .. } => {
                self.fields += 1;
                if let JvmPrimitive::Long(v) = value {
                    self.longs_seen.push(v);
                }
            }
            HeapIterationCallback::PrimitiveArray { elements, .. } => {
                self.arrays += 1;
                assert_eq!(elements.element_type(), PrimitiveType::Int);
                assert_eq!(elements.len(), 3);
                assert_eq!(elements.i(), Some(&vec![4, 5, 6]));
                assert_eq!(elements.z(), None);
                assert_eq!(elements.j(), None);
            }
            _ => {}
        }
        HeapVisitOutcome { control: HeapVisitControlFlags::visit_objects(), set_tag: None }
    }
}

#[test]
fn field_and_array_records_carry_their_values() {
    let with_fields = HeapObject {
        class_id: 3,
        class_tag: 0,
        tag: 0,
        size: 40,
        fields: vec![
            (FieldType::Instance, JvmPrimitive::Long(77)),
            (FieldType::Static, JvmPrimitive::Bool(true)),
        ],
        kind: HeapObjectKind::Plain { array_length: None },
    };
    let int_array = HeapObject {
        class_id: 4,
        class_tag: 0,
        tag: 0,
        size: 28,
        fields: Vec::new(),
        kind: HeapObjectKind::PrimArray {
            elements: PrimitiveArray::new(PrimitiveElements::Int(vec![4, 5, 6])),
        },
    };
    let mut jvmti = env_with_heap(vec![with_fields, int_array]);

    let mut visitor = RecordShapes { fields: 0, arrays: 0, longs_seen: Vec::new() };
    let (r, _) = jvmti.iterate_through_heap(HeapFilterFlags::empty(), None, &mut visitor);
    r.expect("iteration failed");
    assert_eq!(visitor.fields, 2);
    assert_eq!(visitor.arrays, 1);
    assert_eq!(visitor.longs_seen, vec![77]);
}

#[test]
fn walk_needs_the_tagging_capability() {
    let mut jvm = JavaVm::new(
        FunctionTable::full(),
        Capabilities { bits: 0 },
        Vec::new(),
        vec![plain_object(1, 0, 16)],
    );
    let mut jvmti = JvmtiEnv::from_jvm(&mut jvm).expect("failed");
    let mut visitor = CountObjects { objects: 0 };
    let (r, _) = jvmti.iterate_through_heap(HeapFilterFlags::empty(), None, &mut visitor);
    assert_eq!(
        r,
        Err(jvmti::Error::Jvmti(jvmti::JvmtiError::MissingCapability))
    );
    assert_eq!(visitor.objects, 0);
}
