use std::cell::Cell;
use xcomponent::{
    push_decimal, register_xcomponent_callbacks, touch_event_failure, Level,
    RegisterCallbackError, XCOMPONENT_PROPERTY,
};

static TABLE: [u32; 4] = [10, 20, 30, 40];

#[test]
fn host_registration_succeeds() {
    let asked = Cell::new("");
    let registered: Cell<Option<(usize, &'static [u32; 4])>> = Cell::new(None);
    let r = register_xcomponent_callbacks(
        &TABLE,
        |name| {
            asked.set(name);
            Ok(77u64)
        },
        |object| {
            assert_eq!(object, 77);
            (0, 0xabc0)
        },
        |component, t| {
            registered.set(Some((component, t)));
            0
        },
    );
    assert_eq!(r, Ok(()));
    assert_eq!(asked.get(), "__NATIVE_XCOMPONENT_OBJ__");
    assert_eq!(XCOMPONENT_PROPERTY, "__NATIVE_XCOMPONENT_OBJ__");
    let (component, t) = registered.get().unwrap();
    assert_eq!(component, 0xabc0);
    assert!(std::ptr::eq(t, &TABLE));
}

#[test]
fn host_registration_missing_property() {
    let r = register_xcomponent_callbacks(
        &TABLE,
        |_| Err::<u64, String>("no such property".to_string()),
        |_: u64| -> (i32, usize) { panic!("unwrap after a failed lookup") },
        |_, _| -> i32 { panic!("register after a failed lookup") },
    );
    assert_eq!(
        r,
        Err(RegisterCallbackError::XcomponentPropertyMissing("no such property".to_string()))
    );
}

#[test]
fn host_registration_unwrap_failure() {
    let r = register_xcomponent_callbacks(
        &TABLE,
        |_| Ok(1u8),
        |_| (9, 0),
        |_, _| -> i32 { panic!("register after a failed unwrap") },
    );
    assert_eq!(r, Err(RegisterCallbackError::UnwrapXComponentFailed(9)));
}

#[test]
fn host_registration_register_failure() {
    let r = register_xcomponent_callbacks(&TABLE, |_| Ok(1u8), |_| (0, 0x10), |_, _| -401);
    assert_eq!(r, Err(RegisterCallbackError::RegisterCallbackFailed(-401)));
}

#[test]
fn host_registration_first_failure_wins() {
    let unwrapped = Cell::new(false);
    let r = register_xcomponent_callbacks(
        &TABLE,
        |_| Err::<u8, String>("gone".to_string()),
        |_| {
            unwrapped.set(true);
            (5, 0)
        },
        |_, _| -> i32 { panic!("register after a failed lookup") },
    );
    assert_eq!(r, Err(RegisterCallbackError::XcomponentPropertyMissing("gone".to_string())));
    assert!(!unwrapped.get());
    let r = register_xcomponent_callbacks(
        &TABLE,
        |_| Ok(1u8),
        |_| (5, 0),
        |_, _| -> i32 { panic!("register after a failed unwrap") },
    );
    assert_eq!(r, Err(RegisterCallbackError::UnwrapXComponentFailed(5)));
}

#[test]
fn host_registration_twice_calls_native_twice() {
    let calls = Cell::new(0u32);
    for _ in 0..2 {
        let r = register_xcomponent_callbacks(&TABLE, |_| Ok(1u8), |_| (0, 0x10), |_, _| {
            calls.set(calls.get() + 1);
            0
        });
        assert_eq!(r, Ok(()));
    }
    assert_eq!(calls.get(), 2);
}

#[test]
fn error_text() {
    let s: String = RegisterCallbackError::UnwrapXComponentFailed(-3).into();
    assert_eq!(s, "UnwrapXComponentFailed(-3)");
    let s: String = RegisterCallbackError::RegisterCallbackFailed(401).into();
    assert_eq!(s, "RegisterCallbackFailed(401)");
    let s: String = RegisterCallbackError::XcomponentPropertyMissing("say \"hi\"".to_string()).into();
    assert_eq!(s, "XcomponentPropertyMissing(\"say \\\"hi\\\"\")");
    let e = RegisterCallbackError::RegisterCallbackFailed(i32::MIN);
    assert_eq!(String::from(e.clone()), format!("{:?}", e));
}

#[test]
fn decimal_text() {
    let mut s = String::from("n=");
    push_decimal(&mut s, 0);
    assert_eq!(s, "n=0");
    for n in [7, -7, 10, 12345, -100, i32::MAX, i32::MIN] {
        let mut s = String::new();
        push_decimal(&mut s, n);
        assert_eq!(s, n.to_string());
    }
}

#[test]
fn touch_event_failure_diagnostic() {
    let d = touch_event_failure(-12);
    assert_eq!(d.level, Level::Error);
    assert_eq!(d.message, "OH_NativeXComponent_GetTouchEvent failed with -12");
    assert_eq!(touch_event_failure(3).message, "OH_NativeXComponent_GetTouchEvent failed with 3");
}
