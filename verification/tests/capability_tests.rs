use mouse_keyboard_input::capability::{CapabilityRegistry, ControlCall};
use mouse_keyboard_input::key_codes::{
    BTN_LEFT, EV_ABS, EV_KEY, EV_REL, EV_SYN, KEY_A, KEY_B, REL_WHEEL, REL_X, REL_Y,
};
use mouse_keyboard_input::Error;

fn count(calls: &[ControlCall], call: ControlCall) -> usize {
    calls.iter().filter(|c| **c == call).count()
}

#[test]
fn the_first_code_of_a_type_enables_the_type_first() {
    let mut registry = CapabilityRegistry::new();
    assert_eq!(
        registry.register(EV_KEY, KEY_A),
        Ok(vec![ControlCall::EnableEventType(EV_KEY), ControlCall::EnableKey(KEY_A)])
    );
    assert_eq!(
        registry.register(EV_REL, REL_X),
        Ok(vec![ControlCall::EnableEventType(EV_REL), ControlCall::EnableRelative(REL_X)])
    );
}

#[test]
fn a_later_code_of_a_type_does_not_enable_the_type_again() {
    let mut registry = CapabilityRegistry::new();
    registry.register(EV_KEY, KEY_A).unwrap();
    assert_eq!(registry.register(EV_KEY, KEY_B), Ok(vec![ControlCall::EnableKey(KEY_B)]));
    assert_eq!(registry.register(EV_KEY, BTN_LEFT), Ok(vec![ControlCall::EnableKey(BTN_LEFT)]));
    assert_eq!(count(&registry.calls(), ControlCall::EnableEventType(EV_KEY)), 1);
}

#[test]
fn registering_twice_takes_no_call_the_second_time() {
    let mut registry = CapabilityRegistry::new();
    registry.register(EV_KEY, KEY_A).unwrap();
    assert_eq!(registry.register(EV_KEY, KEY_A), Ok(vec![]));
    assert_eq!(registry.register(EV_KEY, KEY_A), Ok(vec![]));
    assert_eq!(
        registry.calls(),
        vec![ControlCall::EnableEventType(EV_KEY), ControlCall::EnableKey(KEY_A)]
    );
}

#[test]
fn each_type_is_enabled_once_across_many_registrations() {
    let mut registry = CapabilityRegistry::new();
    for round in 0..3 {
        for code in 1..255u16 {
            registry.register(EV_KEY, code).unwrap();
        }
        for code in [REL_X, REL_Y, REL_WHEEL] {
            registry.register(EV_REL, code).unwrap();
        }
        let calls = registry.calls();
        assert_eq!(calls.len(), 2 + 254 + 3, "round {}", round);
        assert_eq!(count(&calls, ControlCall::EnableEventType(EV_KEY)), 1);
        assert_eq!(count(&calls, ControlCall::EnableEventType(EV_REL)), 1);
        for code in 1..255u16 {
            assert_eq!(count(&calls, ControlCall::EnableKey(code)), 1);
        }
    }
    let calls = registry.calls();
    assert_eq!(calls[0], ControlCall::EnableEventType(EV_KEY));
    assert_eq!(calls[1], ControlCall::EnableKey(1));
    assert_eq!(calls[255], ControlCall::EnableEventType(EV_REL));
    assert_eq!(calls[256], ControlCall::EnableRelative(REL_X));
}

#[test]
fn a_type_that_was_not_registered_is_not_enabled() {
    let mut registry = CapabilityRegistry::new();
    registry.register(EV_KEY, KEY_A).unwrap();
    assert_eq!(count(&registry.calls(), ControlCall::EnableEventType(EV_REL)), 0);
    assert!(registry.is_enabled(EV_KEY));
    assert!(!registry.is_enabled(EV_REL));
}

#[test]
fn what_is_registered_can_be_asked() {
    let mut registry = CapabilityRegistry::new();
    assert!(!registry.is_registered(EV_KEY, KEY_A));
    registry.register(EV_KEY, KEY_A).unwrap();
    registry.register(EV_REL, REL_X).unwrap();
    assert!(registry.is_registered(EV_KEY, KEY_A));
    assert!(registry.is_registered(EV_REL, REL_X));
    assert!(!registry.is_registered(EV_KEY, KEY_B));
    assert!(!registry.is_registered(EV_REL, KEY_A));
    assert!(!registry.is_registered(EV_KEY, REL_X));
    assert!(!registry.is_registered(EV_ABS, REL_X));
}

#[test]
fn the_same_number_is_a_key_and_an_axis() {
    let mut registry = CapabilityRegistry::new();
    registry.register(EV_KEY, 1).unwrap();
    assert_eq!(
        registry.register(EV_REL, 1),
        Ok(vec![ControlCall::EnableEventType(EV_REL), ControlCall::EnableRelative(1)])
    );
}

#[test]
fn only_keys_and_relative_axes_can_be_registered() {
    let mut registry = CapabilityRegistry::new();
    assert_eq!(registry.register(EV_ABS, 0), Err(Error::CapabilityError));
    assert_eq!(registry.register(EV_SYN, 0), Err(Error::CapabilityError));
    assert_eq!(registry.register(0xffff, 7), Err(Error::CapabilityError));
    assert_eq!(registry.calls(), vec![]);
}

#[test]
fn nothing_is_registered_once_the_registry_is_closed() {
    let mut registry = CapabilityRegistry::new();
    registry.register(EV_KEY, KEY_A).unwrap();
    assert!(!registry.frozen());
    registry.freeze();
    assert!(registry.frozen());
    assert_eq!(registry.register(EV_KEY, KEY_B), Err(Error::AlreadyCreated));
    assert_eq!(registry.register(EV_KEY, KEY_A), Err(Error::AlreadyCreated));
    assert_eq!(registry.register(EV_ABS, 0), Err(Error::AlreadyCreated));
    assert_eq!(
        registry.calls(),
        vec![ControlCall::EnableEventType(EV_KEY), ControlCall::EnableKey(KEY_A)]
    );
    assert!(registry.is_registered(EV_KEY, KEY_A));
}
