use hooks_core::context::{use_context, ContextProvider};
use hooks_core::engine::Instance;
use hooks_core::listener::oninput_value;
use hooks_core::model::HookError;

#[test]
fn context_read_subscribes_once() {
    let mut provider = ContextProvider::new(100);
    let mut inst = Instance::new(21);
    // Context is a hook: reading outside a render pass fails fast.
    assert_eq!(use_context(&mut provider, &inst), Err(HookError::NotBound));
    inst.bind().unwrap();
    assert_eq!(use_context(&mut provider, &inst), Ok(100));
    // Subscribing twice is the same as subscribing once.
    assert_eq!(use_context(&mut provider, &inst), Ok(100));
    inst.unbind().unwrap();
    assert_eq!(provider.provide(200), vec![21]);
    inst.bind().unwrap();
    assert_eq!(use_context(&mut provider, &inst), Ok(200));
    inst.unbind().unwrap();
}

#[test]
fn context_unsubscribe_on_teardown() {
    let mut provider = ContextProvider::new(1);
    let mut first = Instance::new(71);
    let mut second = Instance::new(72);
    first.bind().unwrap();
    use_context(&mut provider, &first).unwrap();
    first.unbind().unwrap();
    second.bind().unwrap();
    use_context(&mut provider, &second).unwrap();
    second.unbind().unwrap();
    assert_eq!(provider.provide(2), vec![71, 72]);
    first.teardown().unwrap();
    provider.unsubscribe(71);
    // Only the surviving subscriber is told, in subscription order.
    assert_eq!(provider.provide(3), vec![72]);
}

#[test]
fn context_read_after_teardown_fails_fast() {
    let mut provider = ContextProvider::new(5);
    let mut inst = Instance::new(73);
    inst.teardown().unwrap();
    assert_eq!(use_context(&mut provider, &inst), Err(HookError::Destroyed));
}

#[test]
fn input_value_prefers_form_elements() {
    assert_eq!(
        oninput_value(Some("a".to_string()), Some("b".to_string()), Some("c".to_string())),
        Some("a".to_string())
    );
    assert_eq!(
        oninput_value(None, Some("b".to_string()), Some("c".to_string())),
        Some("b".to_string())
    );
    assert_eq!(oninput_value(None, None, Some("c".to_string())), Some("c".to_string()));
    assert_eq!(oninput_value(None, None, None), None::<String>);
}
