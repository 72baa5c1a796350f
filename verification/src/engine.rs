use vstd::prelude::*;

use crate::model::{
    bind_check, bind_step, drain_check, drain_runs, drain_slots, drain_step, entry_runs,
    entry_slots, request_step, take_check, take_step, teardown_check, teardown_runs,
    teardown_step, unbind_check, unbind_step, EffectRun, EntryModel, HookError, HookKind,
    SlotModel, StoreModel,
};

verus! {

/// One hook slot: the kind fixed at creation, the owned payload, the cleanup
/// currently stored for the slot, and (for dependency-aware effects) the
/// last-applied dependency values.
pub struct Slot {
    pub kind: HookKind,
    pub payload: u64,
    pub cleanup: Option<u64>,
    pub deps: Vec<u64>,
}

impl View for Slot {
    type V = SlotModel;

    open spec fn view(&self) -> SlotModel {
        SlotModel { kind: self.kind, payload: self.payload, cleanup: self.cleanup, deps: self.deps@ }
    }
}

/// One post-render queue entry, appended during a render pass in hook-call
/// order and consumed exactly once by the drain after the commit.
pub struct EffectEntry {
    pub slot: usize,
    pub callback: u64,
    pub yields_cleanup: bool,
    pub deps: Vec<u64>,
}

impl View for EffectEntry {
    type V = EntryModel;

    open spec fn view(&self) -> EntryModel {
        EntryModel {
            slot: self.slot as int,
            callback: self.callback,
            yields_cleanup: self.yields_cleanup,
            deps: self.deps@,
        }
    }
}

/// A component instance: the owner of one ordered hook slot store and one
/// post-render effect queue, together with its invocation context (the
/// position cursor, present exactly while a render pass is bound), its
/// coalesced re-render request flag, and its teardown state.
pub struct Instance {
    pub id: u64,
    pub slots: Vec<Slot>,
    pub queue: Vec<EffectEntry>,
    pub cursor: Option<usize>,
    pub committed: Option<usize>,
    pub pending: bool,
    pub destroyed: bool,
}

impl View for Instance {
    type V = StoreModel;

    open spec fn view(&self) -> StoreModel {
        StoreModel {
            id: self.id,
            slots: self.slots@.map_values(|s: Slot| s@),
            queue: self.queue@.map_values(|e: EffectEntry| e@),
            cursor: match self.cursor {
                Option::Some(p) => Option::Some(p as int),
                Option::None => Option::None,
            },
            committed: match self.committed {
                Option::Some(n) => Option::Some(n as int),
                Option::None => Option::None,
            },
            pending: self.pending,
            destroyed: self.destroyed,
        }
    }
}

/// Exclusive access to the slot at `i`, for in-place updates.
fn slot_mut(slots: &mut Vec<Slot>, i: usize) -> (r: &mut Slot)
    requires
        i < old(slots).len(),
    ensures
        *r == old(slots)@[i as int],
        final(slots)@ == old(slots)@.update(i as int, *final(r)),
{
    &mut slots[i]
}

/// Replace the payload of the slot at `i`, leaving its kind, cleanup and
/// dependencies untouched.
pub(crate) fn slot_payload_mut(slots: &mut Vec<Slot>, i: usize, value: u64)
    requires
        i < old(slots).len(),
    ensures
        final(slots)@.len() == old(slots)@.len(),
        final(slots)@.map_values(|s: Slot| s@) == old(slots)@.map_values(|s: Slot| s@).update(
            i as int,
            SlotModel { payload: value, ..old(slots)@[i as int]@ },
        ),
{
    slot_mut(slots, i).payload = value;
    proof {
        assert(slots@.map_values(|s: Slot| s@) =~~= old(slots)@.map_values(|s: Slot| s@).update(
            i as int,
            SlotModel { payload: value, ..old(slots)@[i as int]@ },
        ));
    }
}

impl Instance {
    /// A freshly mounted instance under the reconciler's identity `id`: no
    /// slots, an empty queue, unbound, no committed call count yet, nothing
    /// pending.
    pub fn new(id: u64) -> (r: Instance)
        ensures
            r@.wf(),
            r@.id == id,
            r@.slots.len() == 0,
            r@.queue.len() == 0,
            r@.cursor is None,
            r@.committed is None,
            !r@.pending,
            !r@.destroyed,
    {
        let r = Instance {
            id,
            slots: Vec::new(),
            queue: Vec::new(),
            cursor: Option::None,
            committed: Option::None,
            pending: false,
            destroyed: false,
        };
        proof {
            assert(r@.slots =~= Seq::<SlotModel>::empty());
            assert(r@.queue =~= Seq::<EntryModel>::empty());
        }
        r
    }

    /// Open a render pass: associate the invocation context with this
    /// instance's store and reset the position counter to 0. Fails fast on a
    /// destroyed instance and on a re-entrant bind.
    pub fn bind(&mut self) -> (r: Result<(), HookError>)
        requires
            old(self)@.wf(),
        ensures
            final(self)@.wf(),
            r == bind_check(old(self)@),
            final(self)@ == bind_step(old(self)@),
    {
        if self.destroyed {
            return Result::Err(HookError::Destroyed);
        }
        if self.cursor.is_some() {
            return Result::Err(HookError::AlreadyBound);
        }
        self.cursor = Option::Some(0);
        self.queue = Vec::new();
        proof {
            assert(self@.queue =~= Seq::<EntryModel>::empty());
            assert(self@ =~~= bind_step(old(self)@));
        }
        Result::Ok(())
    }

    /// Close the render pass immediately after the render function returned,
    /// committing its hook-call count: every later pass must make exactly as
    /// many calls. A pass that stops short of the count that filled the
    /// store is refused fail-fast and stays open. The queued effect entries
    /// stay, waiting for the commit.
    pub fn unbind(&mut self) -> (r: Result<(), HookError>)
        requires
            old(self)@.wf(),
        ensures
            final(self)@.wf(),
            r == unbind_check(old(self)@),
            final(self)@ == unbind_step(old(self)@),
    {
        if self.destroyed {
            return Result::Err(HookError::Destroyed);
        }
        let p = match self.cursor {
            Option::Some(p) => p,
            Option::None => {
                return Result::Err(HookError::NotBound);
            },
        };
        if p != self.slots.len() {
            return Result::Err(HookError::CountMismatch);
        }
        self.cursor = Option::None;
        self.committed = Option::Some(p);
        proof {
            assert(self@ =~~= unbind_step(old(self)@));
        }
        Result::Ok(())
    }

    /// Record a re-render request for the scheduler. A second request before
    /// the scheduler runs coalesces with the first; a request on a destroyed
    /// instance is dropped.
    pub fn request_render(&mut self)
        requires
            old(self)@.wf(),
        ensures
            final(self)@.wf(),
            final(self)@ == request_step(old(self)@),
    {
        if !self.destroyed {
            self.pending = true;
        }
        proof {
            assert(self@ =~~= request_step(old(self)@));
        }
    }

    /// The scheduler claims the pending re-render request, if any: returns
    /// whether one render cycle is owed, and clears the flag, so that any
    /// number of coalesced requests results in exactly one cycle.
    pub fn take_render(&mut self) -> (r: bool)
        requires
            old(self)@.wf(),
        ensures
            final(self)@.wf(),
            r == take_check(old(self)@),
            final(self)@ == take_step(old(self)@),
    {
        let r = self.pending;
        self.pending = false;
        proof {
            assert(self@ =~~= take_step(old(self)@));
        }
        r
    }

    /// Drain the post-render queue once, after the surface commit: process
    /// the entries in registration order and return the observable runs in
    /// the exact order they are to be performed. The queue is left empty; an
    /// entry is never drained twice.
    pub fn drain(&mut self) -> (r: Result<Vec<EffectRun>, HookError>)
        requires
            old(self)@.wf(),
        ensures
            final(self)@.wf(),
            final(self)@ == drain_step(old(self)@),
            match r {
                Result::Ok(runs) => drain_check(old(self)@) is Ok
                    && runs@ == drain_runs(old(self)@.slots, old(self)@.queue),
                Result::Err(e) => drain_check(old(self)@) == Result::<(), HookError>::Err(e),
            },
    {
        if self.destroyed {
            return Result::Err(HookError::Destroyed);
        }
        if self.cursor.is_some() {
            return Result::Err(HookError::AlreadyBound);
        }
        let ghost s0 = self@.slots;
        let ghost q = self@.queue;
        let mut runs: Vec<EffectRun> = Vec::new();
        let n = self.queue.len();
        let mut i: usize = 0;
        proof {
            assert(q.skip(0) =~= q);
            assert(runs@ =~= Seq::<EffectRun>::empty());
            assert(runs@ + drain_runs(s0, q) =~= drain_runs(s0, q));
        }
        while i < n
            invariant
                i <= n,
                n == q.len(),
                self.id == old(self).id,
                self.cursor is None,
                self.pending == old(self).pending,
                !self.destroyed,
                self.committed == old(self).committed,
                self@.queue == q,
                self@.slots.len() == s0.len(),
                forall|j: int| i <= j < q.len() ==> (#[trigger] q[j]).wf_in(self@.slots),
                drain_runs(s0, q) == runs@ + drain_runs(self@.slots, q.skip(i as int)),
                drain_slots(s0, q) == drain_slots(self@.slots, q.skip(i as int)),
            decreases n - i,
        {
            let ghost prev = self@.slots;
            let ghost old_runs = runs@;
            proof {
                assert(q[i as int].wf_in(prev));
                assert(q.skip(i as int)[0] == q[i as int]);
                assert(q.skip(i as int).drop_first() =~= q.skip(i as int + 1));
            }
            let e_slot = self.queue[i].slot;
            let e_cb = self.queue[i].callback;
            let e_yields = self.queue[i].yields_cleanup;
            let stored: Option<u64> = if e_yields { Option::Some(e_cb) } else { Option::None };
            let kind = self.slots[e_slot].kind;
            if kind == HookKind::Effect {
                match self.slots[e_slot].cleanup {
                    Option::Some(c) => runs.push(EffectRun::Cleanup(c)),
                    Option::None => {},
                }
                runs.push(EffectRun::Callback(e_cb));
                slot_mut(&mut self.slots, e_slot).cleanup = stored;
            } else {
                let changed = !ids_equal(&self.slots[e_slot].deps, &self.queue[i].deps);
                if changed {
                    match self.slots[e_slot].cleanup {
                        Option::Some(c) => runs.push(EffectRun::Cleanup(c)),
                        Option::None => {},
                    }
                    runs.push(EffectRun::Callback(e_cb));
                    let new_deps = copy_ids(&self.queue[i].deps);
                    let sl = slot_mut(&mut self.slots, e_slot);
                    sl.cleanup = stored;
                    sl.deps = new_deps;
                } else if self.slots[e_slot].cleanup.is_none() {
                    runs.push(EffectRun::Callback(e_cb));
                    slot_mut(&mut self.slots, e_slot).cleanup = stored;
                }
            }
            proof {
                assert(runs@ =~= old_runs + entry_runs(prev, q[i as int]));
                assert(self@.slots =~~= entry_slots(prev, q[i as int]));
                assert(forall|j: int| i + 1 <= j < q.len()
                    ==> (#[trigger] q[j]).wf_in(self@.slots));
            }
            i += 1;
        }
        self.queue = Vec::new();
        proof {
            assert(q.skip(n as int) =~= Seq::<EntryModel>::empty());
            assert(runs@ =~= drain_runs(s0, q));
            assert(self@.queue =~= Seq::<EntryModel>::empty());
            assert(self@ =~~= drain_step(old(self)@));
        }
        Result::Ok(runs)
    }

    /// Tear the instance down: run every slot's stored cleanup exactly once,
    /// in slot order; drop the undrained queue and any pending re-render
    /// request. No hook call is valid on the instance afterwards.
    pub fn teardown(&mut self) -> (r: Result<Vec<EffectRun>, HookError>)
        requires
            old(self)@.wf(),
        ensures
            final(self)@.wf(),
            final(self)@ == teardown_step(old(self)@),
            match r {
                Result::Ok(runs) => teardown_check(old(self)@) is Ok
                    && runs@ == teardown_runs(old(self)@.slots),
                Result::Err(e) => teardown_check(old(self)@) == Result::<(), HookError>::Err(e),
            },
    {
        if self.destroyed {
            return Result::Err(HookError::Destroyed);
        }
        if self.cursor.is_some() {
            return Result::Err(HookError::AlreadyBound);
        }
        let ghost s0 = self@.slots;
        let mut runs: Vec<EffectRun> = Vec::new();
        let n = self.slots.len();
        let mut i: usize = 0;
        proof {
            assert(s0.skip(0) =~= s0);
            assert(runs@ =~= Seq::<EffectRun>::empty());
            assert(runs@ + teardown_runs(s0) =~= teardown_runs(s0));
        }
        while i < n
            invariant
                i <= n,
                n == s0.len(),
                self@.slots == s0,
                teardown_runs(s0) == runs@ + teardown_runs(s0.skip(i as int)),
            decreases n - i,
        {
            let ghost old_runs = runs@;
            proof {
                assert(s0.skip(i as int)[0] == s0[i as int]);
                assert(s0.skip(i as int).drop_first() =~= s0.skip(i as int + 1));
            }
            match self.slots[i].cleanup {
                Option::Some(c) => runs.push(EffectRun::Cleanup(c)),
                Option::None => {},
            }
            proof {
                match s0[i as int].cleanup {
                    Option::Some(c) => {
                        assert(runs@ =~= old_runs + seq![EffectRun::Cleanup(c)]);
                    },
                    Option::None => {
                        assert(runs@ =~= old_runs + Seq::<EffectRun>::empty());
                    },
                }
            }
            i += 1;
        }
        self.slots = Vec::new();
        self.queue = Vec::new();
        self.committed = Option::None;
        self.pending = false;
        self.destroyed = true;
        proof {
            assert(s0.skip(n as int) =~= Seq::<SlotModel>::empty());
            assert(runs@ =~= teardown_runs(s0));
            assert(self@.slots =~= Seq::<SlotModel>::empty());
            assert(self@.queue =~= Seq::<EntryModel>::empty());
            assert(self@ =~~= teardown_step(old(self)@));
        }
        Result::Ok(runs)
    }

    /// Read the payload stored at a slot handle.
    pub fn read_value(&self, handle: usize) -> (r: Result<u64, HookError>)
        ensures
            match r {
                Result::Ok(v) => handle < self@.slots.len()
                    && v == self@.slots[handle as int].payload,
                Result::Err(e) => e == HookError::InvalidSlot && handle >= self@.slots.len(),
            },
    {
        if handle < self.slots.len() {
            Result::Ok(self.slots[handle].payload)
        } else {
            Result::Err(HookError::InvalidSlot)
        }
    }
}

/// Whether two dependency-value vectors hold the same values in the same
/// order.
pub fn ids_equal(a: &Vec<u64>, b: &Vec<u64>) -> (r: bool)
    ensures
        r <==> a@ == b@,
{
    if a.len() != b.len() {
        return false;
    }
    let n = a.len();
    let mut i: usize = 0;
    while i < n
        invariant
            i <= n,
            n == a.len(),
            a.len() == b.len(),
            forall|j: int| 0 <= j < i ==> a@[j] == b@[j],
        decreases n - i,
    {
        if a[i] != b[i] {
            return false;
        }
        i += 1;
    }
    proof {
        assert(a@ =~= b@);
    }
    true
}

/// A copy of a dependency-value vector.
pub fn copy_ids(a: &Vec<u64>) -> (r: Vec<u64>)
    ensures
        r@ == a@,
{
    let n = a.len();
    let mut r: Vec<u64> = Vec::new();
    let mut i: usize = 0;
    while i < n
        invariant
            i <= n,
            n == a.len(),
            r@ == a@.take(i as int),
        decreases n - i,
    {
        r.push(a[i]);
        proof {
            assert(r@ =~= a@.take(i as int + 1));
        }
        i += 1;
    }
    proof {
        assert(a@.take(n as int) =~= a@);
    }
    r
}

} // verus!
