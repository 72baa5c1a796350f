use hooks_core::engine::{Instance, Slot};
use hooks_core::hooks::{dispatch, set_ref, set_state, use_effect, use_hook, use_ref, use_reducer, use_state};
use hooks_core::model::{HookError, HookKind};

#[test]
fn state_persists_across_renders() {
    let mut inst = Instance::new(1);
    assert_eq!(inst.bind(), Ok(()));
    let (h, v) = use_state(&mut inst, 7).unwrap();
    assert_eq!((h, v), (0, 7));
    assert_eq!(inst.unbind(), Ok(()));
    // Mutate through the handle between the renders.
    assert_eq!(set_state(&mut inst, h, 42), Ok(()));
    assert_eq!(inst.bind(), Ok(()));
    let (h2, v2) = use_state(&mut inst, 7).unwrap();
    assert_eq!(h2, h);
    assert_eq!(v2, 42);
    assert_eq!(inst.unbind(), Ok(()));
}

#[test]
fn hook_outside_binding_fails_fast() {
    let mut inst = Instance::new(2);
    assert_eq!(use_state(&mut inst, 1), Err(HookError::NotBound));
}

#[test]
fn reentrant_bind_fails_fast() {
    let mut inst = Instance::new(3);
    assert_eq!(inst.bind(), Ok(()));
    assert_eq!(inst.bind(), Err(HookError::AlreadyBound));
}

#[test]
fn unbind_without_bind_fails_fast() {
    let mut inst = Instance::new(4);
    assert_eq!(inst.unbind(), Err(HookError::NotBound));
}

#[test]
fn kind_change_fails_fast_without_corruption() {
    let mut inst = Instance::new(5);
    inst.bind().unwrap();
    use_state(&mut inst, 5).unwrap();
    inst.unbind().unwrap();
    inst.bind().unwrap();
    // Position 0 holds a state slot; asking for an effect there must fail.
    assert_eq!(use_effect(&mut inst, 9, true), Err(HookError::KindMismatch));
    // The stored state is untouched.
    assert_eq!(inst.read_value(0), Ok(5));
    // The correct call still succeeds at the same position.
    assert_eq!(use_state(&mut inst, 5), Ok((0, 5)));
    inst.unbind().unwrap();
}

#[test]
fn extra_hook_call_fails_fast() {
    let mut inst = Instance::new(15);
    inst.bind().unwrap();
    use_state(&mut inst, 1).unwrap();
    inst.unbind().unwrap();
    inst.bind().unwrap();
    assert_eq!(use_state(&mut inst, 1), Ok((0, 1)));
    // More hook calls than the committed render made: fail fast.
    assert_eq!(use_state(&mut inst, 2), Err(HookError::CountMismatch));
    // Nothing was appended.
    assert_eq!(inst.read_value(1), Err(HookError::InvalidSlot));
}

#[test]
fn missing_hook_call_fails_fast() {
    let mut inst = Instance::new(16);
    inst.bind().unwrap();
    use_state(&mut inst, 1).unwrap();
    use_ref(&mut inst, 2).unwrap();
    inst.unbind().unwrap();
    inst.bind().unwrap();
    use_state(&mut inst, 1).unwrap();
    // The pass stops one hook call short of the committed count: fail fast,
    // the pass stays open and nothing is committed.
    assert_eq!(inst.unbind(), Err(HookError::CountMismatch));
    // Completing the pass at the committed count closes it.
    use_ref(&mut inst, 2).unwrap();
    assert_eq!(inst.unbind(), Ok(()));
}

#[test]
fn first_render_fixes_the_count() {
    let mut inst = Instance::new(17);
    // The first pass may make any number of calls; it commits the count.
    inst.bind().unwrap();
    use_state(&mut inst, 1).unwrap();
    use_state(&mut inst, 2).unwrap();
    use_state(&mut inst, 3).unwrap();
    inst.unbind().unwrap();
    // The next pass must make exactly three.
    inst.bind().unwrap();
    use_state(&mut inst, 1).unwrap();
    use_state(&mut inst, 2).unwrap();
    use_state(&mut inst, 3).unwrap();
    assert_eq!(use_state(&mut inst, 4), Err(HookError::CountMismatch));
    assert_eq!(inst.unbind(), Ok(()));
}

#[test]
fn use_hook_reuses_slot_at_position() {
    let mut inst = Instance::new(6);
    inst.bind().unwrap();
    let first = Slot { kind: HookKind::State, payload: 11, cleanup: None, deps: Vec::new() };
    assert_eq!(use_hook(&mut inst, first), Ok(0));
    inst.unbind().unwrap();
    inst.bind().unwrap();
    // The second render's initializer value is ignored: the slot is reused.
    let again = Slot { kind: HookKind::State, payload: 99, cleanup: None, deps: Vec::new() };
    assert_eq!(use_hook(&mut inst, again), Ok(0));
    assert_eq!(inst.read_value(0), Ok(11));
    inst.unbind().unwrap();
}

#[test]
fn ref_updates_without_scheduling() {
    let mut inst = Instance::new(7);
    inst.bind().unwrap();
    let (h, v) = use_ref(&mut inst, 3).unwrap();
    assert_eq!(v, 3);
    inst.unbind().unwrap();
    assert_eq!(set_ref(&mut inst, h, 8), Ok(()));
    // Mutating a ref never triggers a re-render.
    assert!(!inst.take_render());
    assert_eq!(inst.read_value(h), Ok(8));
}

#[test]
fn reducer_dispatch_applies_reduction() {
    let mut inst = Instance::new(8);
    inst.bind().unwrap();
    let (h, v) = use_reducer(&mut inst, 10).unwrap();
    assert_eq!(v, 10);
    inst.unbind().unwrap();
    assert_eq!(dispatch(&mut inst, h, |state: u64, msg: u64| state.wrapping_add(msg), 5), Ok(()));
    assert_eq!(inst.read_value(h), Ok(15));
    // Dispatch schedules a re-render.
    assert!(inst.take_render());
}

#[test]
fn coalesced_requests_single_cycle() {
    let mut inst = Instance::new(9);
    inst.request_render();
    inst.request_render();
    // Two requests before the scheduler runs: exactly one cycle owed.
    assert!(inst.take_render());
    assert!(!inst.take_render());
}

#[test]
fn setter_requests_coalesce() {
    let mut inst = Instance::new(10);
    inst.bind().unwrap();
    let (h, _) = use_state(&mut inst, 0).unwrap();
    inst.unbind().unwrap();
    assert_eq!(set_state(&mut inst, h, 1), Ok(()));
    assert_eq!(set_state(&mut inst, h, 2), Ok(()));
    assert!(inst.take_render());
    assert!(!inst.take_render());
    assert_eq!(inst.read_value(h), Ok(2));
}

#[test]
fn invalid_slot_handle_is_refused() {
    let mut inst = Instance::new(11);
    assert_eq!(set_state(&mut inst, 0, 9), Err(HookError::InvalidSlot));
    assert_eq!(inst.read_value(3), Err(HookError::InvalidSlot));
}

#[test]
fn setter_on_wrong_kind_is_refused() {
    let mut inst = Instance::new(12);
    inst.bind().unwrap();
    let (h, _) = use_ref(&mut inst, 0).unwrap();
    inst.unbind().unwrap();
    assert_eq!(set_state(&mut inst, h, 1), Err(HookError::KindMismatch));
}

#[test]
fn setter_after_teardown_is_silent_noop() {
    let mut inst = Instance::new(13);
    inst.bind().unwrap();
    let (h, _) = use_state(&mut inst, 4).unwrap();
    inst.unbind().unwrap();
    inst.teardown().unwrap();
    // The setter holds a weak handle: after teardown it does nothing.
    assert_eq!(set_state(&mut inst, h, 9), Ok(()));
    assert!(!inst.take_render());
}

#[test]
fn no_hook_calls_after_teardown() {
    let mut inst = Instance::new(14);
    inst.bind().unwrap();
    use_state(&mut inst, 1).unwrap();
    inst.unbind().unwrap();
    inst.teardown().unwrap();
    assert_eq!(inst.bind(), Err(HookError::Destroyed));
    assert_eq!(use_state(&mut inst, 1), Err(HookError::Destroyed));
    assert_eq!(inst.teardown(), Err(HookError::Destroyed));
}
