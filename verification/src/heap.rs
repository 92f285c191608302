//! Heap traversal data: the filter that selects which live objects a walk
//! visits, the control flags a visitor returns, the four shapes of visitation
//! record, and the model of a heap object that the walk runs over.

use crate::text::utf16_lossy;
use vstd::prelude::*;

verus! {

/// Filter bit: objects that carry a tag are left out of the walk.
pub const JVMTI_HEAP_FILTER_TAGGED: u32 = 0x4;

/// Filter bit: objects that carry no tag are left out of the walk.
pub const JVMTI_HEAP_FILTER_UNTAGGED: u32 = 0x8;

/// Filter bit: objects whose class carries a tag are left out of the walk.
pub const JVMTI_HEAP_FILTER_CLASS_TAGGED: u32 = 0x10;

/// Filter bit: objects whose class carries no tag are left out of the walk.
pub const JVMTI_HEAP_FILTER_CLASS_UNTAGGED: u32 = 0x20;

/// Control bit: the walk should also traverse the visited object. The
/// single-pass traversal reports every eligible object regardless, so this
/// bit is carried through unread.
pub const JVMTI_VISIT_OBJECTS: u32 = 0x100;

/// Control bit: the visitor asks the walk to stop; nothing further is
/// delivered.
pub const JVMTI_VISIT_ABORT: u32 = 0x8000;

/// Which objects a heap walk leaves out. Each set bit excludes one category;
/// the empty filter admits every object.
#[derive(Clone, Copy, Debug, PartialEq, Eq, Structural)]
pub struct HeapFilterFlags {
    /// The raw filter bits, in the interface's encoding.
    pub bits: u32,
}

impl HeapFilterFlags {
    /// Whether tagged objects are left out.
    pub open spec fn spec_filters_tagged(self) -> bool {
        self.bits & JVMTI_HEAP_FILTER_TAGGED != 0
    }

    /// Whether untagged objects are left out.
    pub open spec fn spec_filters_untagged(self) -> bool {
        self.bits & JVMTI_HEAP_FILTER_UNTAGGED != 0
    }

    /// Whether objects of tagged classes are left out.
    pub open spec fn spec_filters_class_tagged(self) -> bool {
        self.bits & JVMTI_HEAP_FILTER_CLASS_TAGGED != 0
    }

    /// Whether objects of untagged classes are left out.
    pub open spec fn spec_filters_class_untagged(self) -> bool {
        self.bits & JVMTI_HEAP_FILTER_CLASS_UNTAGGED != 0
    }

    /// The filter that leaves nothing out.
    pub fn empty() -> (r: Self)
        ensures
            r.bits == 0,
            !r.spec_filters_tagged(),
            !r.spec_filters_untagged(),
            !r.spec_filters_class_tagged(),
            !r.spec_filters_class_untagged(),
    {
        proof {
            assert(0u32 & JVMTI_HEAP_FILTER_TAGGED == 0) by (bit_vector);
            assert(0u32 & JVMTI_HEAP_FILTER_UNTAGGED == 0) by (bit_vector);
            assert(0u32 & JVMTI_HEAP_FILTER_CLASS_TAGGED == 0) by (bit_vector);
            assert(0u32 & JVMTI_HEAP_FILTER_CLASS_UNTAGGED == 0) by (bit_vector);
        }
        HeapFilterFlags { bits: 0 }
    }

    /// The filter that leaves out tagged objects.
    pub fn tagged() -> (r: Self)
        ensures
            r.bits == JVMTI_HEAP_FILTER_TAGGED,
    {
        HeapFilterFlags { bits: JVMTI_HEAP_FILTER_TAGGED }
    }

    /// The filter that leaves out untagged objects.
    pub fn untagged() -> (r: Self)
        ensures
            r.bits == JVMTI_HEAP_FILTER_UNTAGGED,
    {
        HeapFilterFlags { bits: JVMTI_HEAP_FILTER_UNTAGGED }
    }

    /// The filter that leaves out objects of tagged classes.
    pub fn class_tagged() -> (r: Self)
        ensures
            r.bits == JVMTI_HEAP_FILTER_CLASS_TAGGED,
    {
        HeapFilterFlags { bits: JVMTI_HEAP_FILTER_CLASS_TAGGED }
    }

    /// The filter that leaves out objects of untagged classes.
    pub fn class_untagged() -> (r: Self)
        ensures
            r.bits == JVMTI_HEAP_FILTER_CLASS_UNTAGGED,
    {
        HeapFilterFlags { bits: JVMTI_HEAP_FILTER_CLASS_UNTAGGED }
    }

    /// Both filters at once: everything either operand leaves out is left
    /// out.
    pub fn union(self, other: Self) -> (r: Self)
        ensures
            r.bits == self.bits | other.bits,
    {
        HeapFilterFlags { bits: self.bits | other.bits }
    }
}

/// What a visitor answers with: whether to keep traversing, encoded in the
/// interface's control bits.
#[derive(Clone, Copy, Debug, PartialEq, Eq, Structural)]
pub struct HeapVisitControlFlags {
    /// The raw control bits, in the interface's encoding.
    pub bits: u32,
}

impl HeapVisitControlFlags {
    /// Whether the abort bit is set.
    pub open spec fn spec_aborts(self) -> bool {
        self.bits & JVMTI_VISIT_ABORT != 0
    }

    /// The answer with no bits set: keep walking.
    pub fn empty() -> (r: Self)
        ensures
            r.bits == 0,
            !r.spec_aborts(),
    {
        proof {
            assert(0u32 & JVMTI_VISIT_ABORT == 0) by (bit_vector);
        }
        HeapVisitControlFlags { bits: 0 }
    }

    /// The answer that asks to traverse the visited object too.
    pub fn visit_objects() -> (r: Self)
        ensures
            r.bits == JVMTI_VISIT_OBJECTS,
            !r.spec_aborts(),
    {
        proof {
            assert(0x100u32 & JVMTI_VISIT_ABORT == 0) by (bit_vector);
        }
        HeapVisitControlFlags { bits: JVMTI_VISIT_OBJECTS }
    }

    /// The answer that stops the walk.
    pub fn abort() -> (r: Self)
        ensures
            r.bits == JVMTI_VISIT_ABORT,
            r.spec_aborts(),
    {
        proof {
            assert(0x8000u32 & JVMTI_VISIT_ABORT != 0) by (bit_vector);
        }
        HeapVisitControlFlags { bits: JVMTI_VISIT_ABORT }
    }

    /// Both answers at once.
    pub fn union(self, other: Self) -> (r: Self)
        ensures
            r.bits == self.bits | other.bits,
    {
        HeapVisitControlFlags { bits: self.bits | other.bits }
    }

    /// Whether this answer asks the walk to stop.
    pub fn aborts(&self) -> (b: bool)
        ensures
            b == self.spec_aborts(),
    {
        self.bits & JVMTI_VISIT_ABORT != 0
    }
}

/// Whether a reported primitive field belongs to an instance or is a static
/// field of a class.
#[derive(Clone, Copy, Debug, PartialEq, Eq, Structural)]
pub enum FieldType {
    /// An instance field.
    Instance,
    /// A static field.
    Static,
}

/// Reference-kind number under which the interface reports an instance field.
pub const JVMTI_HEAP_REFERENCE_FIELD: u32 = 2;

/// Reference-kind number under which the interface reports a static field.
pub const JVMTI_HEAP_REFERENCE_STATIC_FIELD: u32 = 8;

/// The field type a raw reference-kind number stands for, if it names a
/// primitive field report at all.
pub open spec fn spec_field_type_of_reference_kind(kind: u32) -> Option<FieldType> {
    if kind == JVMTI_HEAP_REFERENCE_FIELD {
        Some(FieldType::Instance)
    } else if kind == JVMTI_HEAP_REFERENCE_STATIC_FIELD {
        Some(FieldType::Static)
    } else {
        None
    }
}

/// Classifies the raw reference-kind number a field report arrives with.
/// Any number other than the two field kinds means the report is not a
/// primitive field and is a protocol violation at that call site.
pub fn field_type_of_reference_kind(kind: u32) -> (r: Option<FieldType>)
    ensures
        r == spec_field_type_of_reference_kind(kind),
{
    if kind == JVMTI_HEAP_REFERENCE_FIELD {
        Some(FieldType::Instance)
    } else if kind == JVMTI_HEAP_REFERENCE_STATIC_FIELD {
        Some(FieldType::Static)
    } else {
        None
    }
}

/// The eight primitive element kinds the interface distinguishes.
#[derive(Clone, Copy, Debug, PartialEq, Eq, Structural)]
pub enum PrimitiveType {
    Boolean,
    Byte,
    Char,
    Short,
    Int,
    Long,
    Float,
    Double,
}

impl PrimitiveType {
    /// The interface's number for this primitive kind (the type descriptor
    /// character's code).
    pub open spec fn spec_code(self) -> u32 {
        match self {
            PrimitiveType::Boolean => 90,
            PrimitiveType::Byte => 66,
            PrimitiveType::Char => 67,
            PrimitiveType::Short => 83,
            PrimitiveType::Int => 73,
            PrimitiveType::Long => 74,
            PrimitiveType::Float => 70,
            PrimitiveType::Double => 68,
        }
    }

    /// The interface's number for this primitive kind.
    pub fn code(&self) -> (n: u32)
        ensures
            n == self.spec_code(),
    {
        match self {
            PrimitiveType::Boolean => 90,
            PrimitiveType::Byte => 66,
            PrimitiveType::Char => 67,
            PrimitiveType::Short => 83,
            PrimitiveType::Int => 73,
            PrimitiveType::Long => 74,
            PrimitiveType::Float => 70,
            PrimitiveType::Double => 68,
        }
    }
}

/// One primitive value, as a field report carries it. The floating kinds are
/// carried as their raw bit patterns; reading them as numbers is the
/// consumer's concern.
#[derive(Clone, Copy, Debug, PartialEq, Eq, Structural)]
pub enum JvmPrimitive {
    Bool(bool),
    Byte(i8),
    Char(u16),
    Short(i16),
    Int(i32),
    Long(i64),
    /// A 32-bit floating value, by its raw bits.
    Float(u32),
    /// A 64-bit floating value, by its raw bits.
    Double(u64),
}

/// The elements of one primitive array, with their kind. The floating kinds
/// hold raw bit patterns.
#[derive(Clone, Debug)]
pub enum PrimitiveElements {
    Boolean(Vec<u8>),
    Byte(Vec<i8>),
    Char(Vec<u16>),
    Short(Vec<i16>),
    Int(Vec<i32>),
    Long(Vec<i64>),
    Float(Vec<u32>),
    Double(Vec<u64>),
}

impl PrimitiveElements {
    /// The primitive kind of these elements.
    pub open spec fn spec_element_type(self) -> PrimitiveType {
        match self {
            PrimitiveElements::Boolean(_) => PrimitiveType::Boolean,
            PrimitiveElements::Byte(_) => PrimitiveType::Byte,
            PrimitiveElements::Char(_) => PrimitiveType::Char,
            PrimitiveElements::Short(_) => PrimitiveType::Short,
            PrimitiveElements::Int(_) => PrimitiveType::Int,
            PrimitiveElements::Long(_) => PrimitiveType::Long,
            PrimitiveElements::Float(_) => PrimitiveType::Float,
            PrimitiveElements::Double(_) => PrimitiveType::Double,
        }
    }

    /// How many elements there are.
    pub open spec fn spec_len(self) -> nat {
        match self {
            PrimitiveElements::Boolean(v) => v@.len(),
            PrimitiveElements::Byte(v) => v@.len(),
            PrimitiveElements::Char(v) => v@.len(),
            PrimitiveElements::Short(v) => v@.len(),
            PrimitiveElements::Int(v) => v@.len(),
            PrimitiveElements::Long(v) => v@.len(),
            PrimitiveElements::Float(v) => v@.len(),
            PrimitiveElements::Double(v) => v@.len(),
        }
    }
}

/// A typed view over one primitive array's element buffer. The caller selects
/// the accessor matching the element kind; a mismatched accessor returns
/// nothing.
#[derive(Clone, Debug)]
pub struct PrimitiveArray {
    /// The elements, with their kind.
    pub elements: PrimitiveElements,
}

impl PrimitiveArray {
    /// Wraps the elements of one reported primitive array.
    pub fn new(elements: PrimitiveElements) -> (r: Self)
        ensures
            r.elements == elements,
    {
        PrimitiveArray { elements }
    }

    /// The primitive kind of the elements.
    pub fn element_type(&self) -> (t: PrimitiveType)
        ensures
            t == self.elements.spec_element_type(),
    {
        match &self.elements {
            PrimitiveElements::Boolean(_) => PrimitiveType::Boolean,
            PrimitiveElements::Byte(_) => PrimitiveType::Byte,
            PrimitiveElements::Char(_) => PrimitiveType::Char,
            PrimitiveElements::Short(_) => PrimitiveType::Short,
            PrimitiveElements::Int(_) => PrimitiveType::Int,
            PrimitiveElements::Long(_) => PrimitiveType::Long,
            PrimitiveElements::Float(_) => PrimitiveType::Float,
            PrimitiveElements::Double(_) => PrimitiveType::Double,
        }
    }

    /// How many elements there are.
    pub fn len(&self) -> (n: usize)
        ensures
            n == self.elements.spec_len(),
    {
        match &self.elements {
            PrimitiveElements::Boolean(v) => v.len(),
            PrimitiveElements::Byte(v) => v.len(),
            PrimitiveElements::Char(v) => v.len(),
            PrimitiveElements::Short(v) => v.len(),
            PrimitiveElements::Int(v) => v.len(),
            PrimitiveElements::Long(v) => v.len(),
            PrimitiveElements::Float(v) => v.len(),
            PrimitiveElements::Double(v) => v.len(),
        }
    }

    /// The boolean elements, if that is their kind.
    pub fn z(&self) -> (r: Option<&Vec<u8>>)
        ensures
            r is Some <==> self.elements is Boolean,
            r matches Some(v) ==> self.elements == PrimitiveElements::Boolean(*v),
    {
        match &self.elements {
            PrimitiveElements::Boolean(v) => Some(v),
            _ => None,
        }
    }

    /// The byte elements, if that is their kind.
    pub fn b(&self) -> (r: Option<&Vec<i8>>)
        ensures
            r is Some <==> self.elements is Byte,
            r matches Some(v) ==> self.elements == PrimitiveElements::Byte(*v),
    {
        match &self.elements {
            PrimitiveElements::Byte(v) => Some(v),
            _ => None,
        }
    }

    /// The character elements, if that is their kind.
    pub fn c(&self) -> (r: Option<&Vec<u16>>)
        ensures
            r is Some <==> self.elements is Char,
            r matches Some(v) ==> self.elements == PrimitiveElements::Char(*v),
    {
        match &self.elements {
            PrimitiveElements::Char(v) => Some(v),
            _ => None,
        }
    }

    /// The short elements, if that is their kind.
    pub fn s(&self) -> (r: Option<&Vec<i16>>)
        ensures
            r is Some <==> self.elements is Short,
            r matches Some(v) ==> self.elements == PrimitiveElements::Short(*v),
    {
        match &self.elements {
            PrimitiveElements::Short(v) => Some(v),
            _ => None,
        }
    }

    /// The int elements, if that is their kind.
    pub fn i(&self) -> (r: Option<&Vec<i32>>)
        ensures
            r is Some <==> self.elements is Int,
            r matches Some(v) ==> self.elements == PrimitiveElements::Int(*v),
    {
        match &self.elements {
            PrimitiveElements::Int(v) => Some(v),
            _ => None,
        }
    }

    /// The long elements, if that is their kind.
    pub fn j(&self) -> (r: Option<&Vec<i64>>)
        ensures
            r is Some <==> self.elements is Long,
            r matches Some(v) ==> self.elements == PrimitiveElements::Long(*v),
    {
        match &self.elements {
            PrimitiveElements::Long(v) => Some(v),
            _ => None,
        }
    }

    /// The 32-bit floating elements as raw bits, if that is their kind.
    pub fn f(&self) -> (r: Option<&Vec<u32>>)
        ensures
            r is Some <==> self.elements is Float,
            r matches Some(v) ==> self.elements == PrimitiveElements::Float(*v),
    {
        match &self.elements {
            PrimitiveElements::Float(v) => Some(v),
            _ => None,
        }
    }

    /// The 64-bit floating elements as raw bits, if that is their kind.
    pub fn d(&self) -> (r: Option<&Vec<u64>>)
        ensures
            r is Some <==> self.elements is Double,
            r matches Some(v) ==> self.elements == PrimitiveElements::Double(*v),
    {
        match &self.elements {
            PrimitiveElements::Double(v) => Some(v),
            _ => None,
        }
    }
}

/// A borrowed view of string contents as UTF-16 units, with a lossy reading
/// as text.
#[derive(Clone, Debug)]
pub struct U16StrPrintable(pub Vec<u16>);

impl U16StrPrintable {
    /// Reads the units as text, replacing unpaired surrogates.
    pub fn to_string_lossy(&self) -> (r: String)
        ensures
            r@ == utf16_lossy(self.0@),
            self.0@.len() == 0 ==> r@.len() == 0,
    {
        crate::text::utf16_to_string_lossy(&self.0)
    }
}

/// A class tag as records carry it: absent when the class is untagged.
pub open spec fn spec_nonzero_tag(tag: i64) -> Option<i64> {
    if tag == 0 {
        None
    } else {
        Some(tag)
    }
}

/// Packs a raw tag value the way records carry it: zero means untagged.
pub fn nonzero_tag(tag: i64) -> (r: Option<i64>)
    ensures
        r == spec_nonzero_tag(tag),
{
    if tag == 0 {
        None
    } else {
        Some(tag)
    }
}

/// One visitation record, reconstructed from one native report during a heap
/// walk. Every shape shows the visited object's current tag; a visitor
/// replaces the tag through its answer, not through the record.
#[derive(Clone, Debug)]
pub enum HeapIterationCallback {
    /// An object was visited.
    Object {
        /// The tag of the object's class, absent when the class is untagged.
        class_tag: Option<i64>,
        /// The object's size in bytes.
        size: usize,
        /// The object's current tag; zero means untagged.
        tag: i64,
        /// The element count when the object is an array; absent otherwise.
        array_length: Option<usize>,
    },
    /// A primitive field of a visited object or class was reported.
    PrimitiveField {
        /// Whether the field belongs to an instance or is static.
        field_type: FieldType,
        /// The field's index in the reporting order.
        field_index: i32,
        /// The tag of the owning object's class, absent when untagged.
        object_class_tag: Option<i64>,
        /// The owning object's current tag; zero means untagged.
        object_tag: i64,
        /// The field's value.
        value: JvmPrimitive,
    },
    /// A string object's contents were reported.
    String {
        /// The tag of the string's class, absent when untagged.
        class_tag: Option<i64>,
        /// The string object's size in bytes.
        size: usize,
        /// The string object's current tag; zero means untagged.
        tag: i64,
        /// The contents, as UTF-16 units.
        value: U16StrPrintable,
    },
    /// A primitive array's elements were reported.
    PrimitiveArray {
        /// The tag of the array's class, absent when untagged.
        class_tag: Option<i64>,
        /// The array object's size in bytes.
        size: usize,
        /// The array object's current tag; zero means untagged.
        tag: i64,
        /// The elements, with their kind.
        elements: PrimitiveArray,
    },
}

/// What a visitor answers one record with: the control flags for the walk,
/// and optionally a new tag for the visited object. A requested tag is
/// written to the heap at once; it changes what later walks and tag queries
/// see, not which objects the current walk selected.
#[derive(Clone, Copy, Debug, PartialEq, Eq, Structural)]
pub struct HeapVisitOutcome {
    /// Whether to keep walking, in the interface's control bits.
    pub control: HeapVisitControlFlags,
    /// A replacement tag for the visited object, if requested.
    pub set_tag: Option<i64>,
}

/// The consumer of one heap walk: receives every record of every eligible
/// object, one call per record, and answers each with control flags and an
/// optional tag update.
pub trait HeapVisitor {
    /// Consumes one visitation record.
    fn visit(&mut self, record: HeapIterationCallback) -> HeapVisitOutcome;
}

/// What one modelled heap object is, besides its class, size and tags.
#[derive(Clone, Debug)]
pub enum HeapObjectKind {
    /// An ordinary object, or a reference array when a length is present.
    Plain {
        /// The element count when the object is a reference array.
        array_length: Option<usize>,
    },
    /// A string, with its contents as UTF-16 units.
    Text {
        /// The string's contents.
        chars: Vec<u16>,
    },
    /// A primitive array, with its elements.
    PrimArray {
        /// The elements, with their kind.
        elements: PrimitiveArray,
    },
}

/// One live object of the modelled heap.
#[derive(Clone, Debug)]
pub struct HeapObject {
    /// The identity of the object's class.
    pub class_id: u64,
    /// The tag on the object's class; zero means untagged.
    pub class_tag: i64,
    /// The object's own tag; zero means untagged.
    pub tag: i64,
    /// The object's size in bytes.
    pub size: usize,
    /// The object's primitive fields, in reporting order.
    pub fields: Vec<(FieldType, JvmPrimitive)>,
    /// What the object is.
    pub kind: HeapObjectKind,
}

impl HeapObject {
    /// This object with its tag replaced.
    pub open spec fn spec_with_tag(self, tag: i64) -> HeapObject {
        HeapObject { tag, ..self }
    }

    /// The array length the object's record reports: the element count for
    /// arrays, absent for everything else.
    pub open spec fn spec_array_length(self) -> Option<usize> {
        match self.kind {
            HeapObjectKind::Plain { array_length } => array_length,
            HeapObjectKind::Text { .. } => None,
            HeapObjectKind::PrimArray { elements } => Some(elements.elements.spec_len() as usize),
        }
    }
}

/// Copies a buffer of plain values, element by element.
pub(crate) fn copy_values<T: Copy>(values: &Vec<T>) -> (r: Vec<T>)
    ensures
        r@ == values@,
{
    let mut r: Vec<T> = Vec::new();
    let n = values.len();
    let mut i: usize = 0;
    while i < n
        invariant
            i <= n,
            n == values@.len(),
            r@ == values@.take(i as int),
        decreases n - i,
    {
        r.push(values[i]);
        proof {
            assert(values@.take(i as int + 1) =~= values@.take(i as int).push(values@[i as int]));
        }
        i += 1;
    }
    proof {
        assert(values@.take(n as int) =~= values@);
    }
    r
}

/// Copies one primitive array's elements, kind and values alike.
pub(crate) fn copy_primitive_array(p: &PrimitiveArray) -> (r: PrimitiveArray)
    ensures
        spec_elements_match(r.elements, p.elements),
{
    let elements = match &p.elements {
        PrimitiveElements::Boolean(v) => PrimitiveElements::Boolean(copy_values(v)),
        PrimitiveElements::Byte(v) => PrimitiveElements::Byte(copy_values(v)),
        PrimitiveElements::Char(v) => PrimitiveElements::Char(copy_values(v)),
        PrimitiveElements::Short(v) => PrimitiveElements::Short(copy_values(v)),
        PrimitiveElements::Int(v) => PrimitiveElements::Int(copy_values(v)),
        PrimitiveElements::Long(v) => PrimitiveElements::Long(copy_values(v)),
        PrimitiveElements::Float(v) => PrimitiveElements::Float(copy_values(v)),
        PrimitiveElements::Double(v) => PrimitiveElements::Double(copy_values(v)),
    };
    PrimitiveArray { elements }
}

/// Whether two element buffers hold the same kind and the same values.
pub open spec fn spec_elements_match(a: PrimitiveElements, b: PrimitiveElements) -> bool {
    match (a, b) {
        (PrimitiveElements::Boolean(x), PrimitiveElements::Boolean(y)) => x@ == y@,
        (PrimitiveElements::Byte(x), PrimitiveElements::Byte(y)) => x@ == y@,
        (PrimitiveElements::Char(x), PrimitiveElements::Char(y)) => x@ == y@,
        (PrimitiveElements::Short(x), PrimitiveElements::Short(y)) => x@ == y@,
        (PrimitiveElements::Int(x), PrimitiveElements::Int(y)) => x@ == y@,
        (PrimitiveElements::Long(x), PrimitiveElements::Long(y)) => x@ == y@,
        (PrimitiveElements::Float(x), PrimitiveElements::Float(y)) => x@ == y@,
        (PrimitiveElements::Double(x), PrimitiveElements::Double(y)) => x@ == y@,
        _ => false,
    }
}

/// Whether `record` is the `j`-th record of visiting `obj` whose tag
/// currently reads `cur_tag`: first the object record, then one record per
/// primitive field in order, then the contents record of a string or
/// primitive array — each carrying the object's data and the current tag.
pub open spec fn spec_record_matches(
    obj: HeapObject,
    j: int,
    cur_tag: i64,
    record: HeapIterationCallback,
) -> bool {
    if j == 0 {
        record matches HeapIterationCallback::Object { class_tag, size, tag, array_length }
            && class_tag == spec_nonzero_tag(obj.class_tag) && size == obj.size && tag == cur_tag
            && array_length == obj.spec_array_length()
    } else if 1 <= j <= obj.fields@.len() {
        record matches HeapIterationCallback::PrimitiveField {
            field_type,
            field_index,
            object_class_tag,
            object_tag,
            value,
        } && field_type == obj.fields@[j - 1].0 && field_index as int == j - 1 && object_class_tag
            == spec_nonzero_tag(obj.class_tag) && object_tag == cur_tag && value == obj.fields@[j
            - 1].1
    } else if j == obj.fields@.len() + 1 {
        match obj.kind {
            HeapObjectKind::Text { chars } => record matches HeapIterationCallback::String {
                class_tag,
                size,
                tag,
                value,
            } && class_tag == spec_nonzero_tag(obj.class_tag) && size == obj.size && tag == cur_tag
                && value.0@ == chars@,
            HeapObjectKind::PrimArray { elements } => record
                matches HeapIterationCallback::PrimitiveArray {
                class_tag,
                size,
                tag,
                elements: reported,
            } && class_tag == spec_nonzero_tag(obj.class_tag) && size == obj.size && tag == cur_tag
                && spec_elements_match(reported.elements, elements.elements),
            HeapObjectKind::Plain { .. } => false,
        }
    } else {
        false
    }
}

/// Whether a walk under `filter`, restricted to instances of
/// `instanceof_class` when one is given, visits this object. Each filter bit
/// excludes one category; the class restriction admits only exact instances
/// of the named class.
pub open spec fn spec_eligible(
    obj: HeapObject,
    filter: HeapFilterFlags,
    instanceof_class: Option<u64>,
) -> bool {
    &&& !(filter.spec_filters_tagged() && obj.tag != 0)
    &&& !(filter.spec_filters_untagged() && obj.tag == 0)
    &&& !(filter.spec_filters_class_tagged() && obj.class_tag != 0)
    &&& !(filter.spec_filters_class_untagged() && obj.class_tag == 0)
    &&& match instanceof_class {
        Some(class_id) => obj.class_id == class_id,
        None => true,
    }
}

/// Decides whether a walk under `filter` and class restriction visits `obj`.
pub fn is_eligible(obj: &HeapObject, filter: HeapFilterFlags, instanceof_class: Option<u64>) -> (b:
    bool)
    ensures
        b == spec_eligible(*obj, filter, instanceof_class),
{
    let tag_ok = !(filter.bits & JVMTI_HEAP_FILTER_TAGGED != 0 && obj.tag != 0) && !(filter.bits
        & JVMTI_HEAP_FILTER_UNTAGGED != 0 && obj.tag == 0);
    let class_tag_ok = !(filter.bits & JVMTI_HEAP_FILTER_CLASS_TAGGED != 0 && obj.class_tag != 0)
        && !(filter.bits & JVMTI_HEAP_FILTER_CLASS_UNTAGGED != 0 && obj.class_tag == 0);
    let class_ok = match instanceof_class {
        Some(class_id) => obj.class_id == class_id,
        None => true,
    };
    tag_ok && class_tag_ok && class_ok
}

} // verus!
