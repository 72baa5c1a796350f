use vstd::prelude::*;

verus! {

/// Runtime tag of a hook slot: the concrete kind of state stored at a
/// position. A slot's kind is fixed when the slot is first created, and
/// every later render must request the same kind at the same position.
#[derive(Clone, Copy, PartialEq, Eq, Structural, Debug)]
pub enum HookKind {
    State,
    Reducer,
    Ref,
    Effect,
    EffectDeps,
}

/// One observable action performed while draining the post-render queue or
/// tearing an instance down: running a registered cleanup, or running an
/// effect callback. Callbacks and cleanups carry caller-chosen ids; running
/// them is the caller's (impure) work, while deciding which of them run and
/// in what order is this engine's.
#[derive(Clone, Copy, PartialEq, Eq, Structural, Debug)]
pub enum EffectRun {
    Cleanup(u64),
    Callback(u64),
}

/// Fail-fast signals for usage-invariant violations. Each marks a
/// programming error in the component author's code, not a recoverable
/// runtime condition; the engine refuses to continue rather than corrupt
/// its store.
#[derive(Clone, Copy, PartialEq, Eq, Structural, Debug)]
pub enum HookError {
    /// A hook was called while no render pass was bound.
    NotBound,
    /// A render pass was opened while another was active on the same
    /// instance (re-entrant rendering is not supported).
    AlreadyBound,
    /// The hook kind requested at a position differs from the kind stored
    /// there by an earlier render: the call order changed.
    KindMismatch,
    /// The render pass made more or fewer hook calls than the count the
    /// first completed render committed: the call count changed.
    CountMismatch,
    /// A slot handle does not refer to any slot of the instance.
    InvalidSlot,
    /// The instance was already torn down.
    Destroyed,
}

/// Mathematical model of one hook slot.
#[verifier::ext_equal]
pub struct SlotModel {
    pub kind: HookKind,
    pub payload: u64,
    pub cleanup: Option<u64>,
    pub deps: Seq<u64>,
}

/// Mathematical model of one post-render queue entry: which slot it belongs
/// to, the id of the deferred callback, whether running that callback hands
/// back a cleanup to store, and the dependency values current at the render
/// pass that registered it.
#[verifier::ext_equal]
pub struct EntryModel {
    pub slot: int,
    pub callback: u64,
    pub yields_cleanup: bool,
    pub deps: Seq<u64>,
}

/// Mathematical model of a component instance: its ordered slot store, its
/// post-render queue, the invocation context (the position cursor, present
/// exactly while a render pass is bound), the hook-call count committed by
/// the first completed render pass (every later pass must make exactly that
/// many calls), the coalesced re-render request flag, and whether the
/// instance was torn down.
#[verifier::ext_equal]
pub struct StoreModel {
    pub id: u64,
    pub slots: Seq<SlotModel>,
    pub queue: Seq<EntryModel>,
    pub cursor: Option<int>,
    pub committed: Option<int>,
    pub pending: bool,
    pub destroyed: bool,
}

impl EntryModel {
    /// The entry points at an existing effect slot of the store.
    pub open spec fn wf_in(self, slots: Seq<SlotModel>) -> bool {
        &&& 0 <= self.slot < slots.len()
        &&& (slots[self.slot].kind == HookKind::Effect
            || slots[self.slot].kind == HookKind::EffectDeps)
    }
}

impl StoreModel {
    /// Well-formedness: the cursor never points past the store, a committed
    /// call count equals the store's length (once committed, the store never
    /// grows or shrinks until teardown), every queue entry refers to an
    /// effect slot, and a destroyed instance is inert (unbound, empty, with
    /// no pending re-render).
    pub open spec fn wf(self) -> bool {
        &&& match self.cursor {
            Option::Some(p) => 0 <= p <= self.slots.len(),
            Option::None => true,
        }
        &&& match self.committed {
            Option::Some(n) => n == self.slots.len(),
            Option::None => true,
        }
        &&& forall|i: int|
            0 <= i < self.queue.len() ==> (#[trigger] self.queue[i]).wf_in(self.slots)
        &&& self.destroyed ==> {
            &&& self.cursor is None
            &&& self.committed is None
            &&& self.queue.len() == 0
            &&& !self.pending
            &&& self.slots.len() == 0
        }
    }
}

/// Whether opening a render pass is accepted, and the fail-fast signal when
/// it is not.
pub open spec fn bind_check(s: StoreModel) -> Result<(), HookError> {
    if s.destroyed {
        Result::Err(HookError::Destroyed)
    } else if s.cursor is Some {
        Result::Err(HookError::AlreadyBound)
    } else {
        Result::Ok(())
    }
}

/// Store after opening a render pass: the position cursor is reset to 0 and
/// the pass starts with an empty post-render queue. A refused bind changes
/// nothing.
pub open spec fn bind_step(s: StoreModel) -> StoreModel {
    if bind_check(s) is Ok {
        StoreModel { cursor: Option::Some(0), queue: Seq::empty(), ..s }
    } else {
        s
    }
}

/// Whether closing the render pass is accepted: a pass that stops short of
/// the slots already stored made fewer hook calls than the pass that created
/// them — a call-count change, refused fail-fast.
pub open spec fn unbind_check(s: StoreModel) -> Result<(), HookError> {
    if s.destroyed {
        Result::Err(HookError::Destroyed)
    } else {
        match s.cursor {
            Option::None => Result::Err(HookError::NotBound),
            Option::Some(p) => if p == s.slots.len() {
                Result::Ok(())
            } else {
                Result::Err(HookError::CountMismatch)
            },
        }
    }
}

/// Store after closing the render pass: the binding is released and the
/// pass's hook-call count is committed — every later pass must make exactly
/// this many calls. The queued entries wait for the commit. A refused close
/// changes nothing.
pub open spec fn unbind_step(s: StoreModel) -> StoreModel {
    if unbind_check(s) is Ok {
        StoreModel { cursor: Option::None, committed: Option::Some(s.slots.len() as int), ..s }
    } else {
        s
    }
}

/// The position a hook call is assigned, or the fail-fast signal: calls on a
/// destroyed instance or outside a bound pass are refused; so is a call
/// whose kind differs from the kind stored at the position by an earlier
/// render (the call order changed), and a call at a fresh position after a
/// render has already committed the call count (the count changed). Only
/// before the first commit may calls grow the store.
pub open spec fn hook_check(s: StoreModel, kind: HookKind) -> Result<int, HookError> {
    if s.destroyed {
        Result::Err(HookError::Destroyed)
    } else {
        match s.cursor {
            Option::None => Result::Err(HookError::NotBound),
            Option::Some(p) => if p < s.slots.len() {
                if s.slots[p].kind == kind {
                    Result::Ok(p)
                } else {
                    Result::Err(HookError::KindMismatch)
                }
            } else if s.committed is Some {
                Result::Err(HookError::CountMismatch)
            } else {
                Result::Ok(p)
            },
        }
    }
}

/// Store after one hook call: at a fresh position the initial slot is
/// appended, at an existing position the stored slot is reused unchanged;
/// either way the cursor advances by one. A refused call changes nothing.
pub open spec fn hook_step(s: StoreModel, init: SlotModel) -> StoreModel {
    match hook_check(s, init.kind) {
        Result::Ok(p) => StoreModel {
            slots: if p == s.slots.len() { s.slots.push(init) } else { s.slots },
            cursor: Option::Some(p + 1),
            ..s
        },
        Result::Err(_) => s,
    }
}

/// Whether writing through a slot handle of the given kind is accepted.
/// Writes to a destroyed instance are accepted as silent no-ops: a deferred
/// setter holds only a weak handle to its slot.
pub open spec fn write_check(s: StoreModel, h: int, kind: HookKind) -> Result<(), HookError> {
    if s.destroyed {
        Result::Ok(())
    } else if !(0 <= h < s.slots.len()) {
        Result::Err(HookError::InvalidSlot)
    } else if s.slots[h].kind != kind {
        Result::Err(HookError::KindMismatch)
    } else {
        Result::Ok(())
    }
}

/// Store after writing `v` through the handle `h`: the slot's payload is
/// replaced and, when the write `schedules`, a re-render request is
/// recorded (coalescing with any request already pending). No-op on a
/// destroyed instance, unchanged on a refused write.
pub open spec fn write_step(s: StoreModel, h: int, kind: HookKind, v: u64, schedules: bool) -> StoreModel {
    if s.destroyed {
        s
    } else if write_check(s, h, kind) is Ok {
        StoreModel {
            slots: s.slots.update(h, SlotModel { payload: v, ..s.slots[h] }),
            pending: s.pending || schedules,
            ..s
        }
    } else {
        s
    }
}

/// Store after a re-render request: a second request before the scheduler
/// runs coalesces into the already-pending one. A request on a destroyed
/// instance is dropped.
pub open spec fn request_step(s: StoreModel) -> StoreModel {
    if s.destroyed {
        s
    } else {
        StoreModel { pending: true, ..s }
    }
}

/// Whether the scheduler is owed a render cycle.
pub open spec fn take_check(s: StoreModel) -> bool {
    s.pending
}

/// Store after the scheduler claims the pending request (if any): all
/// coalesced requests are satisfied by the one claimed cycle.
pub open spec fn take_step(s: StoreModel) -> StoreModel {
    StoreModel { pending: false, ..s }
}

/// The initial slot installed by an effect hook: no cleanup stored yet.
pub open spec fn effect_init() -> SlotModel {
    SlotModel { kind: HookKind::Effect, payload: 0, cleanup: Option::None, deps: Seq::empty() }
}

/// The initial slot installed by a dependency-aware effect hook: no cleanup
/// stored yet, and the first render's dependencies recorded.
pub open spec fn effect_deps_init(deps: Seq<u64>) -> SlotModel {
    SlotModel { kind: HookKind::EffectDeps, payload: 0, cleanup: Option::None, deps }
}

/// Store after registering a plain effect: one hook call on an effect slot,
/// plus one entry appended to the post-render queue.
pub open spec fn effect_step(s: StoreModel, callback: u64, yields_cleanup: bool) -> StoreModel {
    match hook_check(s, HookKind::Effect) {
        Result::Ok(p) => {
            let s1 = hook_step(s, effect_init());
            StoreModel {
                queue: s1.queue.push(EntryModel { slot: p, callback, yields_cleanup, deps: Seq::empty() }),
                ..s1
            }
        },
        Result::Err(_) => s,
    }
}

/// Store after registering a dependency-aware effect: one hook call on a
/// dependency-aware effect slot, plus one entry carrying this render's
/// dependency values appended to the post-render queue. The dependencies
/// stored in the slot are not touched at registration; only the drain
/// updates them.
pub open spec fn effect_deps_step(s: StoreModel, callback: u64, yields_cleanup: bool, deps: Seq<u64>) -> StoreModel {
    match hook_check(s, HookKind::EffectDeps) {
        Result::Ok(p) => {
            let s1 = hook_step(s, effect_deps_init(deps));
            StoreModel {
                queue: s1.queue.push(EntryModel { slot: p, callback, yields_cleanup, deps }),
                ..s1
            }
        },
        Result::Err(_) => s,
    }
}

/// The observable runs draining one queue entry performs. A plain effect
/// runs the stored cleanup (if one exists) and then its callback on every
/// drain. A dependency-aware effect does so only when the dependencies
/// changed since the last run; with unchanged dependencies it runs the
/// callback alone when no cleanup is currently stored, to (re)establish
/// one, and otherwise does nothing.
pub open spec fn entry_runs(slots: Seq<SlotModel>, e: EntryModel) -> Seq<EffectRun> {
    if !e.wf_in(slots) {
        Seq::empty()
    } else {
        let sl = slots[e.slot];
        if sl.kind == HookKind::Effect || sl.deps != e.deps {
            match sl.cleanup {
                Option::Some(c) => seq![EffectRun::Cleanup(c), EffectRun::Callback(e.callback)],
                Option::None => seq![EffectRun::Callback(e.callback)],
            }
        } else if sl.cleanup is None {
            seq![EffectRun::Callback(e.callback)]
        } else {
            Seq::empty()
        }
    }
}

/// The slot store after draining one queue entry: whenever the entry's
/// callback ran, the cleanup it produced is stored (none, if the callback
/// yields no cleanup); when the dependencies changed they are stored as the
/// last-applied ones.
pub open spec fn entry_slots(slots: Seq<SlotModel>, e: EntryModel) -> Seq<SlotModel> {
    if !e.wf_in(slots) {
        slots
    } else {
        let sl = slots[e.slot];
        let stored = if e.yields_cleanup { Option::Some(e.callback) } else { Option::<u64>::None };
        if sl.kind == HookKind::Effect {
            slots.update(e.slot, SlotModel { cleanup: stored, ..sl })
        } else if sl.deps != e.deps {
            slots.update(e.slot, SlotModel { cleanup: stored, deps: e.deps, ..sl })
        } else if sl.cleanup is None {
            slots.update(e.slot, SlotModel { cleanup: stored, ..sl })
        } else {
            slots
        }
    }
}

/// The runs a full drain performs: the queue entries are processed in
/// registration order, each against the store as the entries before it left
/// it.
pub open spec fn drain_runs(slots: Seq<SlotModel>, q: Seq<EntryModel>) -> Seq<EffectRun>
    decreases q.len(),
{
    if q.len() == 0 {
        Seq::empty()
    } else {
        entry_runs(slots, q[0]) + drain_runs(entry_slots(slots, q[0]), q.drop_first())
    }
}

/// The slot store a full drain leaves behind.
pub open spec fn drain_slots(slots: Seq<SlotModel>, q: Seq<EntryModel>) -> Seq<SlotModel>
    decreases q.len(),
{
    if q.len() == 0 {
        slots
    } else {
        drain_slots(entry_slots(slots, q[0]), q.drop_first())
    }
}

/// Whether a drain is accepted: never on a destroyed instance, never while
/// a render pass is still bound (the commit lies between unbind and drain).
pub open spec fn drain_check(s: StoreModel) -> Result<(), HookError> {
    if s.destroyed {
        Result::Err(HookError::Destroyed)
    } else if s.cursor is Some {
        Result::Err(HookError::AlreadyBound)
    } else {
        Result::Ok(())
    }
}

/// Store after a drain: the slots updated entry by entry, and the queue
/// empty — an entry is never drained twice.
pub open spec fn drain_step(s: StoreModel) -> StoreModel {
    if drain_check(s) is Ok {
        StoreModel { slots: drain_slots(s.slots, s.queue), queue: Seq::empty(), ..s }
    } else {
        s
    }
}

/// The cleanup runs a teardown performs: every slot's stored cleanup, in
/// slot (registration) order, once each.
pub open spec fn teardown_runs(slots: Seq<SlotModel>) -> Seq<EffectRun>
    decreases slots.len(),
{
    if slots.len() == 0 {
        Seq::empty()
    } else {
        (match slots[0].cleanup {
            Option::Some(c) => seq![EffectRun::Cleanup(c)],
            Option::None => Seq::empty(),
        }) + teardown_runs(slots.drop_first())
    }
}

/// Whether a teardown is accepted: once per instance, and not in the middle
/// of a render pass.
pub open spec fn teardown_check(s: StoreModel) -> Result<(), HookError> {
    if s.destroyed {
        Result::Err(HookError::Destroyed)
    } else if s.cursor is Some {
        Result::Err(HookError::AlreadyBound)
    } else {
        Result::Ok(())
    }
}

/// Store after teardown: everything is dropped — the slots, the undrained
/// queue, and any pending re-render request — and the instance is inert.
pub open spec fn teardown_step(s: StoreModel) -> StoreModel {
    if teardown_check(s) is Ok {
        StoreModel {
            id: s.id,
            slots: Seq::empty(),
            queue: Seq::empty(),
            cursor: Option::None,
            committed: Option::None,
            pending: false,
            destroyed: true,
        }
    } else {
        s
    }
}

} // verus!
