use vstd::prelude::*;

use crate::model::{
    bind_check, bind_step, drain_runs, drain_slots, entry_runs, entry_slots, hook_check,
    hook_step, request_step, take_check, take_step, teardown_check, teardown_runs, teardown_step,
    unbind_check, unbind_step, write_check, write_step, EffectRun, EntryModel, HookError,
    HookKind, SlotModel, StoreModel,
};

verus! {

// ------------------------------------------------------------------
// Slot identity across renders
// ------------------------------------------------------------------

/// The store after a row of hook calls, one per element of `inits`.
pub open spec fn replay(s: StoreModel, inits: Seq<SlotModel>) -> StoreModel
    decreases inits.len(),
{
    if inits.len() == 0 {
        s
    } else {
        replay(hook_step(s, inits[0]), inits.drop_first())
    }
}

/// Same positions, same kinds: a render pass that requests, in order, the
/// kinds already stored from position `k` on reuses every slot and changes
/// none of them — only the cursor advances.
pub proof fn lemma_replay_preserves_slots(s: StoreModel, inits: Seq<SlotModel>, k: int)
    requires
        s.wf(),
        !s.destroyed,
        s.cursor == Option::Some(k),
        k + inits.len() <= s.slots.len(),
        forall|i: int| 0 <= i < inits.len() ==> (#[trigger] inits[i]).kind == s.slots[k + i].kind,
    ensures
        replay(s, inits) == (StoreModel { cursor: Option::Some(k + inits.len()), ..s }),
    decreases inits.len(),
{
    if inits.len() == 0 {
        assert(s == StoreModel { cursor: Option::Some(k), ..s });
    } else {
        assert(inits[0].kind == s.slots[k + 0].kind);
        let s1 = hook_step(s, inits[0]);
        assert(hook_check(s, inits[0].kind) == Result::<int, HookError>::Ok(k));
        assert(s1 == StoreModel { cursor: Option::Some(k + 1), ..s });
        assert(s1.wf());
        assert(forall|i: int|
            0 <= i < inits.drop_first().len() ==> (#[trigger] inits.drop_first()[i]).kind
                == s1.slots[(k + 1) + i].kind);
        lemma_replay_preserves_slots(s1, inits.drop_first(), k + 1);
        assert(replay(s, inits) == replay(s1, inits.drop_first()));
    }
}

/// Slot identity, not content, is preserved across renders: a value written
/// through position `h`'s handle between two renders is what the next render
/// pass finds when its hook calls, made in the same order as before, reach
/// position `h` — and that call reuses the slot rather than replacing it.
pub proof fn lemma_state_persists_across_renders(
    s: StoreModel,
    h: int,
    v: u64,
    inits: Seq<SlotModel>,
    next: SlotModel,
)
    requires
        s.wf(),
        !s.destroyed,
        s.cursor is None,
        0 <= h < s.slots.len(),
        s.slots[h].kind == HookKind::State,
        inits.len() == h,
        forall|i: int| 0 <= i < inits.len() ==> (#[trigger] inits[i]).kind == s.slots[i].kind,
        next.kind == HookKind::State,
    ensures
        ({
            let written = write_step(s, h, HookKind::State, v, true);
            let reached = replay(bind_step(written), inits);
            &&& reached.slots == written.slots
            &&& reached.slots[h].payload == v
            &&& hook_check(reached, HookKind::State) == Result::<int, HookError>::Ok(h)
            &&& hook_step(reached, next).slots == reached.slots
        }),
{
    let written = write_step(s, h, HookKind::State, v, true);
    assert(write_check(s, h, HookKind::State) is Ok);
    assert(written.slots == s.slots.update(h, SlotModel { payload: v, ..s.slots[h] }));
    assert(written.slots.len() == s.slots.len());
    assert(forall|j: int| 0 <= j < written.slots.len()
        ==> (#[trigger] written.slots[j]).kind == s.slots[j].kind);
    let bound = bind_step(written);
    assert(bound.wf()) by {
        assert(forall|i: int|
            0 <= i < bound.queue.len() ==> (#[trigger] bound.queue[i]).wf_in(bound.slots));
    }
    assert(forall|i: int|
        0 <= i < inits.len() ==> (#[trigger] inits[i]).kind == bound.slots[0 + i].kind);
    lemma_replay_preserves_slots(bound, inits, 0);
    let reached = replay(bound, inits);
    assert(reached.slots[h].payload == v);
    assert(reached.cursor == Option::Some(h));
    assert(hook_check(reached, HookKind::State) == Result::<int, HookError>::Ok(h));
}

// ------------------------------------------------------------------
// Changed call order fails fast
// ------------------------------------------------------------------

/// Requesting, at a position filled by an earlier render, a hook kind other
/// than the one stored there fails fast — and corrupts nothing: the store is
/// left exactly as it was.
pub proof fn lemma_kind_change_fails_fast(s: StoreModel, p: int, init: SlotModel)
    requires
        s.wf(),
        !s.destroyed,
        s.cursor == Option::Some(p),
        0 <= p < s.slots.len(),
        s.slots[p].kind != init.kind,
    ensures
        hook_check(s, init.kind) == Result::<int, HookError>::Err(HookError::KindMismatch),
        hook_step(s, init) == s,
{
}

/// A changed hook-call count between renders fails fast, never silently
/// corrupting the store. Once a render pass has committed the count, a call
/// at a fresh position (more calls than before) is refused and appends
/// nothing, and a pass that stops short of the stored slots (fewer calls
/// than before) is refused at its close and closes nothing.
pub proof fn lemma_count_change_fails_fast(s: StoreModel, p: int, init: SlotModel)
    requires
        s.wf(),
        !s.destroyed,
        s.cursor == Option::Some(p),
    ensures
        p == s.slots.len() && s.committed is Some ==> hook_check(s, init.kind) == Result::<
            int,
            HookError,
        >::Err(HookError::CountMismatch) && hook_step(s, init) == s,
        p < s.slots.len() ==> unbind_check(s) == Result::<(), HookError>::Err(
            HookError::CountMismatch,
        ) && unbind_step(s) == s,
{
}

// ------------------------------------------------------------------
// Effect cleanups run exactly once per registration
// ------------------------------------------------------------------

/// One drain of a plain effect registration: the stored cleanup (if one
/// exists) runs exactly once, before the callback, and the callback runs
/// exactly once — never a cleanup twice, never a callback before the cleanup.
pub proof fn lemma_effect_runs_cleanup_then_callback(slots: Seq<SlotModel>, e: EntryModel)
    requires
        e.wf_in(slots),
        slots[e.slot].kind == HookKind::Effect,
    ensures
        entry_runs(slots, e) == (match slots[e.slot].cleanup {
            Option::Some(c) => seq![EffectRun::Cleanup(c), EffectRun::Callback(e.callback)],
            Option::None => seq![EffectRun::Callback(e.callback)],
        }),
{
}

/// Across two consecutive renders of one plain effect slot, freshly mounted:
/// the first drain runs only the callback (no cleanup exists yet), and the
/// second drain runs the cleanup the first callback produced exactly once,
/// then the second callback.
pub proof fn lemma_effect_cleanup_runs_once(
    slots: Seq<SlotModel>,
    e1: EntryModel,
    e2: EntryModel,
)
    requires
        e1.wf_in(slots),
        slots[e1.slot].kind == HookKind::Effect,
        slots[e1.slot].cleanup is None,
        e1.yields_cleanup,
        e2.slot == e1.slot,
    ensures
        entry_runs(slots, e1) == seq![EffectRun::Callback(e1.callback)],
        entry_runs(entry_slots(slots, e1), e2) == seq![
            EffectRun::Cleanup(e1.callback),
            EffectRun::Callback(e2.callback),
        ],
{
    let after = entry_slots(slots, e1);
    assert(after[e1.slot].cleanup == Option::Some(e1.callback));
    assert(e2.wf_in(after));
}

/// The dependency-change pattern across four renders of one registration,
/// with dependency values `a`, `a`, `b`, `b` (`a != b`) and callbacks that
/// hand back cleanups: the callback fires at the first drain (fresh mount),
/// stays silent at the second, fires at the third after running the first
/// drain's cleanup, and stays silent at the fourth — two callback runs and
/// exactly one cleanup run in all.
pub proof fn lemma_effect_deps_change_pattern(
    slots: Seq<SlotModel>,
    e1: EntryModel,
    e2: EntryModel,
    e3: EntryModel,
    e4: EntryModel,
)
    requires
        e1.wf_in(slots),
        slots[e1.slot].kind == HookKind::EffectDeps,
        slots[e1.slot].cleanup is None,
        slots[e1.slot].deps == e1.deps,
        e2.slot == e1.slot,
        e3.slot == e1.slot,
        e4.slot == e1.slot,
        e1.yields_cleanup,
        e3.yields_cleanup,
        e2.deps == e1.deps,
        e3.deps != e1.deps,
        e4.deps == e3.deps,
    ensures
        ({
            let s1 = entry_slots(slots, e1);
            let s2 = entry_slots(s1, e2);
            let s3 = entry_slots(s2, e3);
            &&& entry_runs(slots, e1) == seq![EffectRun::Callback(e1.callback)]
            &&& entry_runs(s1, e2) == Seq::<EffectRun>::empty()
            &&& entry_runs(s2, e3) == seq![
                EffectRun::Cleanup(e1.callback),
                EffectRun::Callback(e3.callback),
            ]
            &&& entry_runs(s3, e4) == Seq::<EffectRun>::empty()
        }),
{
    let s1 = entry_slots(slots, e1);
    assert(s1[e1.slot].cleanup == Option::Some(e1.callback));
    assert(s1[e1.slot].deps == e1.deps);
    assert(e2.wf_in(s1));
    let s2 = entry_slots(s1, e2);
    assert(s2 == s1);
    assert(e3.wf_in(s2));
    let s3 = entry_slots(s2, e3);
    assert(s3[e1.slot].cleanup == Option::Some(e3.callback));
    assert(s3[e1.slot].deps == e3.deps);
    assert(e4.wf_in(s3));
}

// ------------------------------------------------------------------
// Teardown
// ------------------------------------------------------------------

/// How often `x` occurs among the runs.
pub open spec fn run_count(runs: Seq<EffectRun>, x: EffectRun) -> nat
    decreases runs.len(),
{
    if runs.len() == 0 {
        0
    } else {
        (if runs[0] == x {
            1nat
        } else {
            0nat
        }) + run_count(runs.drop_first(), x)
    }
}

/// How many slots store the cleanup id `c`.
pub open spec fn cleanup_count(slots: Seq<SlotModel>, c: u64) -> nat
    decreases slots.len(),
{
    if slots.len() == 0 {
        0
    } else {
        (if slots[0].cleanup == Option::Some(c) {
            1nat
        } else {
            0nat
        }) + cleanup_count(slots.drop_first(), c)
    }
}

/// Occurrence counting distributes over concatenation.
pub proof fn lemma_run_count_append(a: Seq<EffectRun>, b: Seq<EffectRun>, x: EffectRun)
    ensures
        run_count(a + b, x) == run_count(a, x) + run_count(b, x),
    decreases a.len(),
{
    if a.len() == 0 {
        assert(a + b =~= b);
    } else {
        assert((a + b)[0] == a[0]);
        assert((a + b).drop_first() =~= a.drop_first() + b);
        lemma_run_count_append(a.drop_first(), b, x);
    }
}

/// Teardown invokes every slot's registered cleanup exactly once: the
/// cleanup id `c` runs exactly as many times as slots store it.
pub proof fn lemma_teardown_runs_each_cleanup_once(slots: Seq<SlotModel>, c: u64)
    ensures
        run_count(teardown_runs(slots), EffectRun::Cleanup(c)) == cleanup_count(slots, c),
    decreases slots.len(),
{
    if slots.len() == 0 {
    } else {
        let head: Seq<EffectRun> = match slots[0].cleanup {
            Option::Some(cc) => seq![EffectRun::Cleanup(cc)],
            Option::None => Seq::empty(),
        };
        lemma_run_count_append(head, teardown_runs(slots.drop_first()), EffectRun::Cleanup(c));
        lemma_teardown_runs_each_cleanup_once(slots.drop_first(), c);
        match slots[0].cleanup {
            Option::Some(cc) => {
                assert(head.drop_first() =~= Seq::<EffectRun>::empty());
                assert(run_count(Seq::<EffectRun>::empty(), EffectRun::Cleanup(c)) == 0);
                assert(run_count(head, EffectRun::Cleanup(c)) == (if cc == c {
                    1nat
                } else {
                    0nat
                }));
            },
            Option::None => {
                assert(run_count(head, EffectRun::Cleanup(c)) == 0);
            },
        }
    }
}

/// After teardown no hook call on the instance is valid: binding a render
/// pass and calling a hook both fail fast with the destroyed signal.
pub proof fn lemma_no_hooks_after_teardown(s: StoreModel, kind: HookKind)
    requires
        teardown_check(s) is Ok,
    ensures
        teardown_step(s).destroyed,
        bind_check(teardown_step(s)) == Result::<(), HookError>::Err(HookError::Destroyed),
        hook_check(teardown_step(s), kind) == Result::<int, HookError>::Err(HookError::Destroyed),
{
}

// ------------------------------------------------------------------
// Drain order
// ------------------------------------------------------------------

/// Draining is compositional in registration order: however the queue is
/// split, the runs of the whole queue are the runs of the first part
/// followed by the runs of the second part against the store the first part
/// left behind.
pub proof fn lemma_drain_order_compositional(
    slots: Seq<SlotModel>,
    a: Seq<EntryModel>,
    b: Seq<EntryModel>,
)
    ensures
        drain_runs(slots, a + b) == drain_runs(slots, a) + drain_runs(drain_slots(slots, a), b),
        drain_slots(slots, a + b) == drain_slots(drain_slots(slots, a), b),
    decreases a.len(),
{
    if a.len() == 0 {
        assert(a + b =~= b);
        assert(drain_runs(slots, a) + drain_runs(slots, b) =~= drain_runs(slots, b));
    } else {
        assert((a + b)[0] == a[0]);
        assert((a + b).drop_first() =~= a.drop_first() + b);
        lemma_drain_order_compositional(entry_slots(slots, a[0]), a.drop_first(), b);
        assert(entry_runs(slots, a[0]) + (drain_runs(entry_slots(slots, a[0]), a.drop_first())
            + drain_runs(drain_slots(slots, a), b)) =~= (entry_runs(slots, a[0]) + drain_runs(
            entry_slots(slots, a[0]),
            a.drop_first(),
        )) + drain_runs(drain_slots(slots, a), b));
    }
}

/// The callback ids among the runs, in run order.
pub open spec fn callbacks_of(runs: Seq<EffectRun>) -> Seq<u64>
    decreases runs.len(),
{
    if runs.len() == 0 {
        Seq::empty()
    } else {
        (match runs[0] {
            EffectRun::Callback(id) => seq![id],
            EffectRun::Cleanup(_) => Seq::empty(),
        }) + callbacks_of(runs.drop_first())
    }
}

/// Extracting the callback ids distributes over concatenation.
pub proof fn lemma_callbacks_of_append(a: Seq<EffectRun>, b: Seq<EffectRun>)
    ensures
        callbacks_of(a + b) == callbacks_of(a) + callbacks_of(b),
    decreases a.len(),
{
    if a.len() == 0 {
        assert(a + b =~= b);
        assert(callbacks_of(a) + callbacks_of(b) =~= callbacks_of(b));
    } else {
        assert((a + b)[0] == a[0]);
        assert((a + b).drop_first() =~= a.drop_first() + b);
        lemma_callbacks_of_append(a.drop_first(), b);
        match a[0] {
            EffectRun::Callback(id) => {
                assert(seq![id] + (callbacks_of(a.drop_first()) + callbacks_of(b)) =~= (seq![id]
                    + callbacks_of(a.drop_first())) + callbacks_of(b));
            },
            EffectRun::Cleanup(_) => {
                assert(Seq::<u64>::empty() + (callbacks_of(a.drop_first()) + callbacks_of(b)) =~= (
                Seq::<u64>::empty() + callbacks_of(a.drop_first())) + callbacks_of(b));
            },
        }
    }
}

/// The callback ids of the one- and two-run sequences a plain effect entry
/// can produce.
proof fn lemma_callbacks_of_small(c: u64, id: u64)
    ensures
        callbacks_of(seq![EffectRun::Callback(id)]) == seq![id],
        callbacks_of(seq![EffectRun::Cleanup(c), EffectRun::Callback(id)]) == seq![id],
{
    assert(seq![EffectRun::Callback(id)].drop_first() =~= Seq::<EffectRun>::empty());
    assert(callbacks_of(Seq::<EffectRun>::empty()) == Seq::<u64>::empty());
    assert(callbacks_of(seq![EffectRun::Callback(id)]) =~= seq![id]);
    assert(seq![EffectRun::Cleanup(c), EffectRun::Callback(id)].drop_first() =~= seq![
        EffectRun::Callback(id),
    ]);
    assert(callbacks_of(seq![EffectRun::Cleanup(c), EffectRun::Callback(id)]) =~= seq![id]);
}

/// The post-render queue drains in the exact order callbacks were registered
/// within the pass: for a queue of plain effect entries the callback ids run
/// in entry order, one each.
pub proof fn lemma_drain_in_registration_order(slots: Seq<SlotModel>, q: Seq<EntryModel>)
    requires
        forall|i: int|
            0 <= i < q.len() ==> (#[trigger] q[i]).wf_in(slots) && slots[q[i].slot].kind
                == HookKind::Effect,
    ensures
        callbacks_of(drain_runs(slots, q)) == q.map_values(|e: EntryModel| e.callback),
    decreases q.len(),
{
    if q.len() == 0 {
        assert(callbacks_of(drain_runs(slots, q)) =~= q.map_values(|e: EntryModel| e.callback));
    } else {
        let es = entry_slots(slots, q[0]);
        assert(es.len() == slots.len());
        assert(forall|j: int| 0 <= j < es.len() ==> (#[trigger] es[j]).kind == slots[j].kind);
        assert(forall|i: int|
            0 <= i < q.drop_first().len() ==> (#[trigger] q.drop_first()[i]).wf_in(es)
                && es[q.drop_first()[i].slot].kind == HookKind::Effect);
        lemma_drain_in_registration_order(es, q.drop_first());
        lemma_callbacks_of_append(entry_runs(slots, q[0]), drain_runs(es, q.drop_first()));
        match slots[q[0].slot].cleanup {
            Option::Some(c) => {
                lemma_callbacks_of_small(c, q[0].callback);
                assert(entry_runs(slots, q[0]) == seq![
                    EffectRun::Cleanup(c),
                    EffectRun::Callback(q[0].callback),
                ]);
            },
            Option::None => {
                lemma_callbacks_of_small(0, q[0].callback);
                assert(entry_runs(slots, q[0]) == seq![EffectRun::Callback(q[0].callback)]);
            },
        }
        assert(q.map_values(|e: EntryModel| e.callback) =~= seq![q[0].callback]
            + q.drop_first().map_values(|e: EntryModel| e.callback));
        assert(callbacks_of(drain_runs(slots, q)) =~= q.map_values(|e: EntryModel| e.callback));
    }
}

// ------------------------------------------------------------------
// Re-render coalescing
// ------------------------------------------------------------------

/// A second re-render request issued before the scheduler runs coalesces
/// with the first: requesting twice leaves the store exactly as requesting
/// once does.
pub proof fn lemma_rerender_requests_coalesce(s: StoreModel)
    ensures
        request_step(request_step(s)) == request_step(s),
{
}

/// Coalesced requests are answered by exactly one render cycle: after two
/// requests the scheduler is owed one cycle, and after claiming it, none.
pub proof fn lemma_coalesced_requests_one_cycle(s: StoreModel)
    requires
        !s.destroyed,
    ensures
        take_check(request_step(request_step(s))),
        !take_check(take_step(request_step(request_step(s)))),
{
}

} // verus!
