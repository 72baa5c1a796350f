use vstd::prelude::*;

use crate::engine::{copy_ids, EffectEntry, Instance, Slot};
use crate::model::{
    effect_deps_init, effect_deps_step, effect_init, effect_step, hook_check, hook_step,
    write_check, write_step, HookError, HookKind, SlotModel,
};

verus! {

/// The slot template a state hook installs on first render.
pub open spec fn state_init(init: u64) -> SlotModel {
    SlotModel { kind: HookKind::State, payload: init, cleanup: Option::None, deps: Seq::empty() }
}

/// The slot template a reducer hook installs on first render.
pub open spec fn reducer_init(init: u64) -> SlotModel {
    SlotModel { kind: HookKind::Reducer, payload: init, cleanup: Option::None, deps: Seq::empty() }
}

/// The slot template a ref hook installs on first render.
pub open spec fn ref_init(init: u64) -> SlotModel {
    SlotModel { kind: HookKind::Ref, payload: init, cleanup: Option::None, deps: Seq::empty() }
}

/// Low level building block of the hooks, used to create the pre-defined
/// ones: initialise-or-fetch the slot at the current position of the bound
/// render pass. `init` is the slot to install if this position is seen for
/// the first time on this instance; at an existing position only `init.kind`
/// is consulted (it must match the kind fixed at creation) and the stored
/// slot is left untouched. Once a render pass has committed, the call count
/// is fixed: a call past it fails fast instead of growing the store.
/// Advances the position counter by one and returns the position: the
/// caller's stable handle to the slot.
pub fn use_hook(inst: &mut Instance, init: Slot) -> (r: Result<usize, HookError>)
    requires
        old(inst)@.wf(),
    ensures
        final(inst)@.wf(),
        final(inst)@ == hook_step(old(inst)@, init@),
        match r {
            Result::Ok(p) => hook_check(old(inst)@, init.kind) == Result::<int, HookError>::Ok(
                p as int,
            ),
            Result::Err(e) => hook_check(old(inst)@, init.kind) == Result::<int, HookError>::Err(
                e,
            ),
        },
{
    if inst.destroyed {
        return Result::Err(HookError::Destroyed);
    }
    let p = match inst.cursor {
        Option::Some(p) => p,
        Option::None => {
            return Result::Err(HookError::NotBound);
        },
    };
    if p < inst.slots.len() {
        if !(inst.slots[p].kind == init.kind) {
            return Result::Err(HookError::KindMismatch);
        }
        inst.cursor = Option::Some(p + 1);
        proof {
            assert(inst@ =~~= hook_step(old(inst)@, init@));
        }
        Result::Ok(p)
    } else {
        if inst.committed.is_some() {
            return Result::Err(HookError::CountMismatch);
        }
        inst.slots.push(init);
        inst.cursor = Option::Some(inst.slots.len());
        proof {
            assert(inst@.slots =~~= old(inst)@.slots.push(init@));
            assert(inst@ =~~= hook_step(old(inst)@, init@));
        }
        Result::Ok(p)
    }
}

/// State hook: install `init` at the current position on first render;
/// return the slot handle together with the value stored as of the start of
/// this render pass.
pub fn use_state(inst: &mut Instance, init: u64) -> (r: Result<(usize, u64), HookError>)
    requires
        old(inst)@.wf(),
    ensures
        final(inst)@.wf(),
        final(inst)@ == hook_step(old(inst)@, state_init(init)),
        match r {
            Result::Ok(pv) => hook_check(old(inst)@, HookKind::State) == Result::<
                int,
                HookError,
            >::Ok(pv.0 as int) && pv.1 == final(inst)@.slots[pv.0 as int].payload && pv.1 == (
            if pv.0 < old(inst)@.slots.len() {
                old(inst)@.slots[pv.0 as int].payload
            } else {
                init
            }),
            Result::Err(e) => hook_check(old(inst)@, HookKind::State) == Result::<
                int,
                HookError,
            >::Err(e),
        },
{
    let slot = Slot {
        kind: HookKind::State,
        payload: init,
        cleanup: Option::None,
        deps: Vec::new(),
    };
    proof {
        assert(slot@ =~~= state_init(init));
    }
    let p = match use_hook(inst, slot) {
        Result::Ok(p) => p,
        Result::Err(e) => {
            return Result::Err(e);
        },
    };
    let v = inst.slots[p].payload;
    Result::Ok((p, v))
}

/// Setter of a state hook: write the new value into the slot and schedule a
/// re-render (coalescing with any request already pending). On a destroyed
/// instance the setter holds a dangling weak handle and the call is a silent
/// no-op.
pub fn set_state(inst: &mut Instance, handle: usize, value: u64) -> (r: Result<(), HookError>)
    requires
        old(inst)@.wf(),
    ensures
        final(inst)@.wf(),
        final(inst)@ == write_step(old(inst)@, handle as int, HookKind::State, value, true),
        r == write_check(old(inst)@, handle as int, HookKind::State),
{
    write_value(inst, handle, HookKind::State, value, true)
}

/// Reducer hook: install `init` at the current position on first render;
/// return the slot handle together with the state as of the start of this
/// render pass.
pub fn use_reducer(inst: &mut Instance, init: u64) -> (r: Result<(usize, u64), HookError>)
    requires
        old(inst)@.wf(),
    ensures
        final(inst)@.wf(),
        final(inst)@ == hook_step(old(inst)@, reducer_init(init)),
        match r {
            Result::Ok(pv) => hook_check(old(inst)@, HookKind::Reducer) == Result::<
                int,
                HookError,
            >::Ok(pv.0 as int) && pv.1 == final(inst)@.slots[pv.0 as int].payload && pv.1 == (
            if pv.0 < old(inst)@.slots.len() {
                old(inst)@.slots[pv.0 as int].payload
            } else {
                init
            }),
            Result::Err(e) => hook_check(old(inst)@, HookKind::Reducer) == Result::<
                int,
                HookError,
            >::Err(e),
        },
{
    let slot = Slot {
        kind: HookKind::Reducer,
        payload: init,
        cleanup: Option::None,
        deps: Vec::new(),
    };
    proof {
        assert(slot@ =~~= reducer_init(init));
    }
    let p = match use_hook(inst, slot) {
        Result::Ok(p) => p,
        Result::Err(e) => {
            return Result::Err(e);
        },
    };
    let v = inst.slots[p].payload;
    Result::Ok((p, v))
}

/// Dispatch of a reducer hook: apply the pure reduction `reduce` to the
/// stored state and the message, store the result, and schedule a re-render.
/// On a destroyed instance the dispatcher holds a dangling weak handle, the
/// reduction does not run, and the call is a silent no-op.
pub fn dispatch<F: Fn(u64, u64) -> u64>(
    inst: &mut Instance,
    handle: usize,
    reduce: F,
    msg: u64,
) -> (r: Result<(), HookError>)
    requires
        old(inst)@.wf(),
        forall|a: (u64, u64)| #[trigger] call_requires(reduce, a),
    ensures
        final(inst)@.wf(),
        r == write_check(old(inst)@, handle as int, HookKind::Reducer),
        old(inst)@.destroyed || r is Err ==> final(inst)@ == old(inst)@,
        !old(inst)@.destroyed && r is Ok ==> exists|next: u64|
            call_ensures(reduce, (old(inst)@.slots[handle as int].payload, msg), next)
                && final(inst)@ == write_step(
                old(inst)@,
                handle as int,
                HookKind::Reducer,
                next,
                true,
            ),
{
    if inst.destroyed {
        return Result::Ok(());
    }
    if handle >= inst.slots.len() {
        return Result::Err(HookError::InvalidSlot);
    }
    if !(inst.slots[handle].kind == HookKind::Reducer) {
        return Result::Err(HookError::KindMismatch);
    }
    let current = inst.slots[handle].payload;
    let next = reduce(current, msg);
    write_value(inst, handle, HookKind::Reducer, next, true)
}

/// Ref hook: a mutable cell whose identity is stable across renders and
/// whose mutation does not trigger a re-render. Installs `init` at the
/// current position on first render; returns the slot handle together with
/// the current value.
pub fn use_ref(inst: &mut Instance, init: u64) -> (r: Result<(usize, u64), HookError>)
    requires
        old(inst)@.wf(),
    ensures
        final(inst)@.wf(),
        final(inst)@ == hook_step(old(inst)@, ref_init(init)),
        match r {
            Result::Ok(pv) => hook_check(old(inst)@, HookKind::Ref) == Result::<
                int,
                HookError,
            >::Ok(pv.0 as int) && pv.1 == final(inst)@.slots[pv.0 as int].payload && pv.1 == (
            if pv.0 < old(inst)@.slots.len() {
                old(inst)@.slots[pv.0 as int].payload
            } else {
                init
            }),
            Result::Err(e) => hook_check(old(inst)@, HookKind::Ref) == Result::<
                int,
                HookError,
            >::Err(e),
        },
{
    let slot = Slot { kind: HookKind::Ref, payload: init, cleanup: Option::None, deps: Vec::new() };
    proof {
        assert(slot@ =~~= ref_init(init));
    }
    let p = match use_hook(inst, slot) {
        Result::Ok(p) => p,
        Result::Err(e) => {
            return Result::Err(e);
        },
    };
    let v = inst.slots[p].payload;
    Result::Ok((p, v))
}

/// Write through a ref hook's handle: the value is replaced and no re-render
/// is scheduled — the imperative escape hatch. Silent no-op on a destroyed
/// instance.
pub fn set_ref(inst: &mut Instance, handle: usize, value: u64) -> (r: Result<(), HookError>)
    requires
        old(inst)@.wf(),
    ensures
        final(inst)@.wf(),
        final(inst)@ == write_step(old(inst)@, handle as int, HookKind::Ref, value, false),
        r == write_check(old(inst)@, handle as int, HookKind::Ref),
{
    write_value(inst, handle, HookKind::Ref, value, false)
}

/// Effect hook: register `callback` to run after this render pass commits.
/// At the drain, the cleanup stored by the previous run (if any) runs first,
/// then the callback, and the cleanup the callback hands back is stored.
/// `callback` is the caller's id for the deferred action; `yields_cleanup`
/// says whether running it hands back a cleanup (the id of a cleanup is the
/// id of the registration that produced it).
pub fn use_effect(inst: &mut Instance, callback: u64, yields_cleanup: bool) -> (r: Result<
    usize,
    HookError,
>)
    requires
        old(inst)@.wf(),
    ensures
        final(inst)@.wf(),
        final(inst)@ == effect_step(old(inst)@, callback, yields_cleanup),
        match r {
            Result::Ok(p) => hook_check(old(inst)@, HookKind::Effect) == Result::<
                int,
                HookError,
            >::Ok(p as int),
            Result::Err(e) => hook_check(old(inst)@, HookKind::Effect) == Result::<
                int,
                HookError,
            >::Err(e),
        },
{
    let slot = Slot {
        kind: HookKind::Effect,
        payload: 0,
        cleanup: Option::None,
        deps: Vec::new(),
    };
    proof {
        assert(slot@ =~~= effect_init());
    }
    let p = match use_hook(inst, slot) {
        Result::Ok(p) => p,
        Result::Err(e) => {
            return Result::Err(e);
        },
    };
    inst.queue.push(EffectEntry { slot: p, callback, yields_cleanup, deps: Vec::new() });
    proof {
        assert(inst@.queue =~= hook_step(old(inst)@, effect_init()).queue.push(
            crate::model::EntryModel {
                slot: p as int,
                callback,
                yields_cleanup,
                deps: Seq::empty(),
            },
        ));
        assert(inst@ =~~= effect_step(old(inst)@, callback, yields_cleanup));
    }
    Result::Ok(p)
}

/// Dependency-aware effect hook: like the effect hook, but the callback runs
/// at a drain only when `deps` differ (by value) from the dependencies
/// stored by the last run — or, with unchanged dependencies, once more when
/// no cleanup is currently stored, to (re)establish one. The slot installed
/// on first render stores this render's dependencies, so the first drain
/// fires through the no-cleanup-stored rule.
pub fn use_effect_with_deps(
    inst: &mut Instance,
    callback: u64,
    yields_cleanup: bool,
    deps: Vec<u64>,
) -> (r: Result<usize, HookError>)
    requires
        old(inst)@.wf(),
    ensures
        final(inst)@.wf(),
        final(inst)@ == effect_deps_step(old(inst)@, callback, yields_cleanup, deps@),
        match r {
            Result::Ok(p) => hook_check(old(inst)@, HookKind::EffectDeps) == Result::<
                int,
                HookError,
            >::Ok(p as int),
            Result::Err(e) => hook_check(old(inst)@, HookKind::EffectDeps) == Result::<
                int,
                HookError,
            >::Err(e),
        },
{
    let entry_deps = copy_ids(&deps);
    let slot = Slot {
        kind: HookKind::EffectDeps,
        payload: 0,
        cleanup: Option::None,
        deps,
    };
    proof {
        assert(slot@ =~~= effect_deps_init(slot.deps@));
    }
    let ghost dv = slot.deps@;
    let p = match use_hook(inst, slot) {
        Result::Ok(p) => p,
        Result::Err(e) => {
            return Result::Err(e);
        },
    };
    inst.queue.push(EffectEntry { slot: p, callback, yields_cleanup, deps: entry_deps });
    proof {
        assert(inst@.queue =~= hook_step(old(inst)@, effect_deps_init(dv)).queue.push(
            crate::model::EntryModel { slot: p as int, callback, yields_cleanup, deps: dv },
        ));
        assert(inst@ =~~= effect_deps_step(old(inst)@, callback, yields_cleanup, dv));
    }
    Result::Ok(p)
}

/// Write `value` through the handle of a slot of the given kind; shared body
/// of the state and ref setters.
fn write_value(
    inst: &mut Instance,
    handle: usize,
    kind: HookKind,
    value: u64,
    schedules: bool,
) -> (r: Result<(), HookError>)
    requires
        old(inst)@.wf(),
    ensures
        final(inst)@.wf(),
        final(inst)@ == write_step(old(inst)@, handle as int, kind, value, schedules),
        r == write_check(old(inst)@, handle as int, kind),
{
    if inst.destroyed {
        return Result::Ok(());
    }
    if handle >= inst.slots.len() {
        return Result::Err(HookError::InvalidSlot);
    }
    if !(inst.slots[handle].kind == kind) {
        return Result::Err(HookError::KindMismatch);
    }
    crate::engine::slot_payload_mut(&mut inst.slots, handle, value);
    if schedules {
        inst.pending = true;
    }
    proof {
        assert(inst@ =~~= write_step(old(inst)@, handle as int, kind, value, schedules));
    }
    Result::Ok(())
}

} // verus!
