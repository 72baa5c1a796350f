use hooks_core::engine::Instance;
use hooks_core::hooks::{use_effect, use_effect_with_deps, use_ref, use_state};
use hooks_core::model::{EffectRun, HookError};

#[test]
fn effect_fires_after_every_commit() {
    let mut inst = Instance::new(30);
    inst.bind().unwrap();
    use_effect(&mut inst, 1, true).unwrap();
    inst.unbind().unwrap();
    // First commit: no cleanup exists yet, only the callback runs.
    assert_eq!(inst.drain().unwrap(), vec![EffectRun::Callback(1)]);
    inst.bind().unwrap();
    use_effect(&mut inst, 2, true).unwrap();
    inst.unbind().unwrap();
    // Second commit: the first registration's cleanup runs exactly once,
    // then the new callback.
    assert_eq!(inst.drain().unwrap(), vec![EffectRun::Cleanup(1), EffectRun::Callback(2)]);
}

#[test]
fn effect_deps_fire_only_on_change() {
    let mut inst = Instance::new(31);
    // Render 1, dependencies A.
    inst.bind().unwrap();
    use_effect_with_deps(&mut inst, 1, true, vec![5]).unwrap();
    inst.unbind().unwrap();
    assert_eq!(inst.drain().unwrap(), vec![EffectRun::Callback(1)]);
    // Render 2, dependencies A again: nothing runs.
    inst.bind().unwrap();
    use_effect_with_deps(&mut inst, 2, true, vec![5]).unwrap();
    inst.unbind().unwrap();
    assert_eq!(inst.drain().unwrap(), Vec::<EffectRun>::new());
    // Render 3, dependencies B: render 1's cleanup runs, then the callback.
    inst.bind().unwrap();
    use_effect_with_deps(&mut inst, 3, true, vec![9]).unwrap();
    inst.unbind().unwrap();
    assert_eq!(inst.drain().unwrap(), vec![EffectRun::Cleanup(1), EffectRun::Callback(3)]);
    // Render 4, dependencies B again: nothing runs.
    inst.bind().unwrap();
    use_effect_with_deps(&mut inst, 4, true, vec![9]).unwrap();
    inst.unbind().unwrap();
    assert_eq!(inst.drain().unwrap(), Vec::<EffectRun>::new());
    // Across the four renders: exactly 2 callback runs and 1 cleanup run.
    // Teardown runs the cleanup stored by render 3.
    assert_eq!(inst.teardown().unwrap(), vec![EffectRun::Cleanup(3)]);
}

#[test]
fn effect_deps_refire_when_no_cleanup_stored() {
    let mut inst = Instance::new(32);
    inst.bind().unwrap();
    use_effect_with_deps(&mut inst, 1, false, vec![5]).unwrap();
    inst.unbind().unwrap();
    assert_eq!(inst.drain().unwrap(), vec![EffectRun::Callback(1)]);
    // Same dependencies, but the callback handed back no cleanup: it runs
    // once more to (re)establish one.
    inst.bind().unwrap();
    use_effect_with_deps(&mut inst, 2, false, vec![5]).unwrap();
    inst.unbind().unwrap();
    assert_eq!(inst.drain().unwrap(), vec![EffectRun::Callback(2)]);
}

#[test]
fn drain_runs_in_registration_order() {
    let mut inst = Instance::new(33);
    inst.bind().unwrap();
    use_state(&mut inst, 0).unwrap();
    use_effect(&mut inst, 10, true).unwrap();
    use_state(&mut inst, 1).unwrap();
    use_effect(&mut inst, 20, true).unwrap();
    use_ref(&mut inst, 2).unwrap();
    use_effect(&mut inst, 30, true).unwrap();
    use_effect(&mut inst, 40, true).unwrap();
    use_state(&mut inst, 3).unwrap();
    use_effect(&mut inst, 50, true).unwrap();
    inst.unbind().unwrap();
    assert_eq!(
        inst.drain().unwrap(),
        vec![
            EffectRun::Callback(10),
            EffectRun::Callback(20),
            EffectRun::Callback(30),
            EffectRun::Callback(40),
            EffectRun::Callback(50),
        ]
    );
}

#[test]
fn drain_consumes_the_queue_once() {
    let mut inst = Instance::new(34);
    inst.bind().unwrap();
    use_effect(&mut inst, 1, true).unwrap();
    inst.unbind().unwrap();
    assert_eq!(inst.drain().unwrap(), vec![EffectRun::Callback(1)]);
    // A second drain finds nothing: entries are never drained twice.
    assert_eq!(inst.drain().unwrap(), Vec::<EffectRun>::new());
}

#[test]
fn drain_during_render_pass_fails_fast() {
    let mut inst = Instance::new(35);
    inst.bind().unwrap();
    use_effect(&mut inst, 1, true).unwrap();
    assert_eq!(inst.drain(), Err(HookError::AlreadyBound));
    inst.unbind().unwrap();
}

#[test]
fn mixed_effect_kinds_drain_in_order() {
    let mut inst = Instance::new(36);
    inst.bind().unwrap();
    use_effect(&mut inst, 1, true).unwrap();
    use_effect_with_deps(&mut inst, 2, true, vec![7]).unwrap();
    inst.unbind().unwrap();
    assert_eq!(inst.drain().unwrap(), vec![EffectRun::Callback(1), EffectRun::Callback(2)]);
    inst.bind().unwrap();
    use_effect(&mut inst, 3, true).unwrap();
    use_effect_with_deps(&mut inst, 4, true, vec![7]).unwrap();
    inst.unbind().unwrap();
    // The plain effect re-fires (cleanup first); the dependency-aware one,
    // with unchanged dependencies and a stored cleanup, stays silent.
    assert_eq!(inst.drain().unwrap(), vec![EffectRun::Cleanup(1), EffectRun::Callback(3)]);
}

#[test]
fn teardown_runs_each_stored_cleanup_once_in_order() {
    let mut inst = Instance::new(37);
    inst.bind().unwrap();
    use_effect(&mut inst, 1, true).unwrap();
    use_state(&mut inst, 0).unwrap();
    use_effect(&mut inst, 2, true).unwrap();
    inst.unbind().unwrap();
    assert_eq!(inst.drain().unwrap(), vec![EffectRun::Callback(1), EffectRun::Callback(2)]);
    // Every slot's stored cleanup runs exactly once, in slot order; the
    // state slot has none to run.
    assert_eq!(inst.teardown().unwrap(), vec![EffectRun::Cleanup(1), EffectRun::Cleanup(2)]);
}

#[test]
fn teardown_drops_pending_work() {
    let mut inst = Instance::new(38);
    inst.bind().unwrap();
    use_effect(&mut inst, 1, true).unwrap();
    inst.unbind().unwrap();
    inst.request_render();
    // Destroyed before the commit was drained: the undrained entries are
    // dropped (no callback ever ran, so no cleanup is stored) and the
    // pending re-render is cancelled.
    assert_eq!(inst.teardown().unwrap(), Vec::<EffectRun>::new());
    assert!(!inst.take_render());
    assert_eq!(inst.drain(), Err(HookError::Destroyed));
}

#[test]
fn teardown_during_render_pass_fails_fast() {
    let mut inst = Instance::new(39);
    inst.bind().unwrap();
    assert_eq!(inst.teardown(), Err(HookError::AlreadyBound));
    inst.unbind().unwrap();
}
