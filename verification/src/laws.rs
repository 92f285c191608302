//! The guarantees that relate several operations of the environment, stated
//! over the specifications the operations' own contracts use, and proved from
//! them.

use crate::capabilities::{lemma_difference_has, lemma_union_has, Capabilities};
use crate::env::{
    spec_object_visit_ok, spec_tag_matcher, spec_tag_query_post, spec_visited, spec_walk_trace_ok,
    HeapWalkTrace, JvmtiEnv, RefTarget,
};
use crate::event::{EventScope, EventType};
use crate::heap::{spec_eligible, HeapFilterFlags, HeapObject};
use crate::seqs::{
    lemma_matching_indices_upto_bounds, lemma_matching_indices_upto_contains, matching_indices,
};
use vstd::prelude::*;

verus! {

/// Enabling then disabling the same (kind, scope) pair is idempotent in net
/// effect: afterwards exactly the pairs of the starting state minus that pair
/// are enabled, and if the kind had no other enablement to begin with, its
/// callbacks fire for no thread — whatever fired in between.
pub proof fn lemma_enable_then_disable_net_effect(
    e0: JvmtiEnv,
    e1: JvmtiEnv,
    e2: JvmtiEnv,
    kind: EventType,
    scope: EventScope,
)
    requires
        JvmtiEnv::spec_set_enabled_post(e0, e1, kind, scope, true),
        JvmtiEnv::spec_set_enabled_post(e1, e2, kind, scope, false),
    ensures
        forall|k2: EventType, s2: EventScope|
            e2.spec_is_enabled(k2, s2) <==> (e0.spec_is_enabled(k2, s2) && !(k2 == kind && s2
                == scope)),
        (forall|s2: EventScope| !e0.spec_is_enabled(kind, s2)) ==> forall|t: Option<u64>|
            !e2.spec_event_fires(kind, t),
        e2.callbacks == e0.callbacks,
{
    if forall|s2: EventScope| !e0.spec_is_enabled(kind, s2) {
        assert forall|t: Option<u64>| !e2.spec_event_fires(kind, t) by {
            assert(!e0.spec_is_enabled(kind, EventScope::Global));
            assert(!e2.spec_is_enabled(kind, EventScope::Global));
            match t {
                Some(th) => {
                    assert(!e0.spec_is_enabled(kind, EventScope::Thread(th)));
                    assert(!e2.spec_is_enabled(kind, EventScope::Thread(th)));
                },
                None => {},
            }
        }
    }
}

/// A kind whose callback slot is unset — or for which no table is installed —
/// never fires, however widely it is enabled.
pub proof fn lemma_unset_slot_never_fires(env: JvmtiEnv, kind: EventType, thread: Option<u64>)
    requires
        env.callbacks is None || (env.callbacks matches Some(cb) && cb.spec_slot(kind) is None),
    ensures
        !env.spec_event_fires(kind, thread),
{
}

/// A heap walk visits each eligible object of the starting heap exactly once
/// and nothing else; without an abort it visits all of them, and with one it
/// visits an initial run of them in heap order, so no object beyond the
/// aborting one is visited.
pub proof fn lemma_walk_visits_each_eligible_once(
    pre: JvmtiEnv,
    filter: HeapFilterFlags,
    instanceof_class: Option<u64>,
    trace: HeapWalkTrace,
    post: JvmtiEnv,
)
    requires
        spec_walk_trace_ok(pre, filter, instanceof_class, trace, post),
    ensures
        forall|k1: int, k2: int|
            0 <= k1 < k2 < trace.events.len() ==> (#[trigger] trace.events[k1]).index
                < (#[trigger] trace.events[k2]).index,
        forall|j: int|
            spec_visited(trace, j) ==> 0 <= j < pre.heap@.len() && spec_eligible(
                pre.heap@[j],
                filter,
                instanceof_class,
            ),
        !trace.aborted ==> forall|j: int|
            0 <= j < pre.heap@.len() && spec_eligible(
                #[trigger] pre.heap@[j],
                filter,
                instanceof_class,
            ) ==> spec_visited(trace, j),
{
    let pred = crate::env::spec_eligibility_matcher(filter, instanceof_class);
    let elig = matching_indices(pre.heap@, pred);
    let n = pre.heap@.len() as int;
    lemma_matching_indices_upto_bounds(pre.heap@, pred, n);
    assert forall|j: int| spec_visited(trace, j) implies 0 <= j < pre.heap@.len() && spec_eligible(
        pre.heap@[j],
        filter,
        instanceof_class,
    ) by {
        let k = choose|k: int|
            0 <= k < trace.events.len() && (#[trigger] trace.events[k]).index == j;
    }
    if !trace.aborted {
        assert forall|j: int|
            0 <= j < pre.heap@.len() && spec_eligible(
                #[trigger] pre.heap@[j],
                filter,
                instanceof_class,
            ) implies spec_visited(trace, j) by {
            lemma_matching_indices_upto_contains(pre.heap@, pred, n, j);
            assert(elig.contains(j));
            let k = choose|k: int| 0 <= k < elig.len() && elig[k] == j;
            assert(trace.events[k].index == j);
        }
    }
}

/// A tag written during a walk is retrievable after it: the object one visit
/// left carrying a queried tag is among the objects a tag query on the walked
/// heap selects.
pub proof fn lemma_tagging_makes_retrievable(
    pre: JvmtiEnv,
    filter: HeapFilterFlags,
    instanceof_class: Option<u64>,
    trace: HeapWalkTrace,
    post: JvmtiEnv,
    k: int,
    tags: Seq<i64>,
)
    requires
        spec_walk_trace_ok(pre, filter, instanceof_class, trace, post),
        0 <= k < trace.events.len(),
        tags.contains(trace.events[k].new_tag),
    ensures
        matching_indices(post.heap@, spec_tag_matcher(tags)).contains(trace.events[k].index),
{
    let idx = trace.events[k].index;
    assert(post.heap@[idx] == pre.heap@[idx].spec_with_tag(trace.events[k].new_tag));
    assert(post.heap@[idx].tag == trace.events[k].new_tag);
    lemma_matching_indices_upto_contains(
        post.heap@,
        spec_tag_matcher(tags),
        post.heap@.len() as int,
        idx,
    );
}

/// End to end: an object a walk's visit left carrying a queried tag is
/// retrieved by a tag query made after the walk — the query's array holds a
/// reference, live in the environment, that points at exactly that object.
pub proof fn lemma_walk_then_query_retrieves(
    pre: JvmtiEnv,
    filter: HeapFilterFlags,
    instanceof_class: Option<u64>,
    trace: HeapWalkTrace,
    mid: JvmtiEnv,
    tags: Seq<i64>,
    post: JvmtiEnv,
    arr: crate::memory::AllocatedArray<crate::memory::LocalRef>,
    k: int,
)
    requires
        spec_walk_trace_ok(pre, filter, instanceof_class, trace, mid),
        spec_tag_query_post(mid, post, tags, arr),
        post.wf(),
        0 <= k < trace.events.len(),
        tags.contains(trace.events[k].new_tag),
    ensures
        exists|m: int|
            0 <= m < arr.elements@.len() && post.spec_ref_target(#[trigger] arr.elements@[m])
                == Some(RefTarget::Object(trace.events[k].index as usize)),
{
    let idx = trace.events[k].index;
    lemma_tagging_makes_retrievable(pre, filter, instanceof_class, trace, mid, k, tags);
    let matched = matching_indices(mid.heap@, spec_tag_matcher(tags));
    let m = choose|m: int| 0 <= m < matched.len() && matched[m] == idx;
    let handle = arr.elements@[m];
    let entry_pos = mid.refs@.len() + m;
    assert(post.refs@[entry_pos] == (crate::env::LocalRefEntry {
        handle: (mid.next_id + m) as u64,
        target: RefTarget::Object(idx as usize),
    }));
    assert(handle == (mid.next_id + m) as u64);
    assert(post.spec_has_ref(handle)) by {
        assert(post.refs@[entry_pos].handle == handle);
    }
    let i = choose|i: int|
        0 <= i < post.refs@.len() && (#[trigger] post.refs@[i]).handle == handle;
    assert(i == entry_pos) by {
        if i < entry_pos {
            assert(post.refs@[i].handle != post.refs@[entry_pos].handle);
        }
        if i > entry_pos {
            assert(post.refs@[entry_pos].handle != post.refs@[i].handle);
        }
    }
    assert(post.spec_ref_target(handle) == Some(RefTarget::Object(idx as usize)));
}

/// And not before: a tag query on a heap in which no object carries any of
/// the queried tags selects nothing.
pub proof fn lemma_tag_query_empty_before(heap: Seq<HeapObject>, tags: Seq<i64>)
    requires
        forall|j: int| 0 <= j < heap.len() ==> !tags.contains((#[trigger] heap[j]).tag),
    ensures
        matching_indices(heap, spec_tag_matcher(tags)).len() == 0,
{
    let pred = spec_tag_matcher(tags);
    let selected = matching_indices(heap, pred);
    if selected.len() > 0 {
        assert(selected.contains(selected[0]));
        lemma_matching_indices_upto_contains(heap, pred, heap.len() as int, selected[0]);
        assert(pred(heap[selected[0]]));
        assert(false);
    }
}

/// Capability negotiation is a pure snapshot-plus-delta protocol. Adding a
/// delta makes the active snapshot reflect exactly the delta merged in, and
/// relinquishing it makes the snapshot reflect exactly the delta removed —
/// capability by capability, for any delta within the potential set.
pub proof fn lemma_capability_snapshot_delta(
    e0: JvmtiEnv,
    e1: JvmtiEnv,
    e2: JvmtiEnv,
    delta: Capabilities,
)
    requires
        e1 == (JvmtiEnv { active: Capabilities { bits: e0.active.bits | delta.bits }, ..e0 }),
        e2 == (JvmtiEnv { active: Capabilities { bits: e1.active.bits & !delta.bits }, ..e1 }),
    ensures
        forall|i: u128|
            i < 128 ==> (e1.active.spec_has(i) <==> (e0.active.spec_has(i) || delta.spec_has(i))),
        forall|i: u128|
            i < 128 ==> (e2.active.spec_has(i) <==> (e1.active.spec_has(i) && !delta.spec_has(
                i,
            ))),
        forall|i: u128|
            i < 128 && !delta.spec_has(i) ==> (e2.active.spec_has(i) <==> e0.active.spec_has(i)),
{
    lemma_union_has(e0.active, delta);
    lemma_difference_has(e1.active, delta);
}

/// Every visit of a walk delivered at least the object record, and a visit
/// the visitor did not abort answered every record of its object.
pub proof fn lemma_walk_visits_are_complete(
    pre: JvmtiEnv,
    filter: HeapFilterFlags,
    instanceof_class: Option<u64>,
    trace: HeapWalkTrace,
    post: JvmtiEnv,
    k: int,
)
    requires
        spec_walk_trace_ok(pre, filter, instanceof_class, trace, post),
        0 <= k < trace.events.len(),
    ensures
        spec_object_visit_ok(
            pre.heap@[trace.events[k].index],
            trace.events[k].records,
            trace.events[k].responses,
            trace.events[k].new_tag,
            trace.events[k].aborted,
        ),
        trace.events[k].responses.len() >= 1,
        !trace.events[k].aborted ==> trace.events[k].responses.len()
            == crate::env::spec_record_count(pre.heap@[trace.events[k].index]),
{
}

} // verus!
