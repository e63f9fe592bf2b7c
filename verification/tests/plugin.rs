use ext_plugin::error::{Error, PlatformFailure};
use ext_plugin::registry::AppState;
use ext_plugin::{desktop, init, mobile, registration_request, setup, Platform, RegistrationRequest};

#[test]
fn entry_point_descriptor_name() {
    let descriptor = init();
    assert_eq!(descriptor.name, "ext");
}

#[test]
fn android_request_identifier_pair() {
    match registration_request(Platform::Android) {
        RegistrationRequest::AndroidPlugin { domain, class_name } => {
            assert_eq!(domain, "tauri.plugin.ext");
            assert_eq!(class_name, "ExtPlugin");
        },
        _ => panic!("the Android path must request an Android plugin-class registration"),
    }
}

#[test]
fn ios_request_entry_symbol() {
    match registration_request(Platform::Ios) {
        RegistrationRequest::IosEntry { entry_symbol } => {
            assert_eq!(entry_symbol, "init_plugin_ext");
        },
        _ => panic!("the iOS path must request an entry-symbol binding"),
    }
}

#[test]
fn desktop_request_plugin_name() {
    match registration_request(Platform::Desktop) {
        RegistrationRequest::DesktopBackend { plugin_name } => {
            assert_eq!(plugin_name, "ext");
        },
        _ => panic!("the desktop path must request a backend registration"),
    }
}

#[test]
fn setup_success_registers_retrievable_handle() {
    for platform in [Platform::Desktop, Platform::Android, Platform::Ios] {
        let mut state = AppState::new();
        let result = setup(&mut state, platform, Ok(42));
        assert!(result.is_ok());
        let expected = mobile::init(Ok(42)).unwrap();
        assert_eq!(state.retrieve(), Some(expected));
    }
}

#[test]
fn setup_failure_registers_nothing() {
    let mut state = AppState::new();
    let failure = PlatformFailure::Registration {
        message: String::from("class not found"),
    };
    let result = setup(&mut state, Platform::Android, Err(failure));
    match result {
        Err(Error::Registration { message }) => assert_eq!(message, "class not found"),
        _ => panic!("a failed native registration must surface the registration-failure error"),
    }
    assert_eq!(state.retrieve(), None);
}

#[test]
fn setup_failure_leaves_previous_handle() {
    let mut state = AppState::new();
    assert!(setup(&mut state, Platform::Ios, Ok(5)).is_ok());
    let before = state.retrieve();
    let failure = PlatformFailure::Registration {
        message: String::from("missing entry symbol"),
    };
    assert!(setup(&mut state, Platform::Ios, Err(failure)).is_err());
    assert_eq!(state.retrieve(), before);
}

#[test]
fn setup_twice_overwrites_handle() {
    let mut state = AppState::new();
    assert!(setup(&mut state, Platform::Desktop, Ok(1)).is_ok());
    let first = state.retrieve().unwrap();
    assert!(setup(&mut state, Platform::Desktop, Ok(2)).is_ok());
    let second = state.retrieve().unwrap();
    assert_ne!(first, second);
    assert_eq!(Some(second), Some(mobile::init(Ok(2)).unwrap()));
}

#[test]
fn mobile_init_wraps_success() {
    let handle = mobile::init(Ok(9)).unwrap();
    let again = mobile::init(Ok(9)).unwrap();
    assert_eq!(handle, again);
    let other = mobile::init(Ok(10)).unwrap();
    assert_ne!(handle, other);
}

#[test]
fn mobile_init_propagates_registration_failure() {
    let failure = PlatformFailure::Registration {
        message: String::from("binder error"),
    };
    match mobile::init(Err(failure)) {
        Err(Error::Registration { message }) => assert_eq!(message, "binder error"),
        _ => panic!("a registration failure must pass through unchanged"),
    }
}

#[test]
fn mobile_init_propagates_deserialization_failure() {
    let failure = PlatformFailure::Deserialization {
        message: String::from("invalid config"),
    };
    match mobile::init(Err(failure)) {
        Err(Error::Deserialization { message }) => assert_eq!(message, "invalid config"),
        _ => panic!("a deserialization failure must pass through unchanged"),
    }
}

#[test]
fn desktop_init_matches_mobile_completion() {
    let desktop_handle = desktop::init(Ok(3)).unwrap();
    let mobile_handle = mobile::init(Ok(3)).unwrap();
    assert_eq!(desktop_handle, mobile_handle);
    let failure = PlatformFailure::Registration {
        message: String::from("construction failed"),
    };
    assert!(desktop::init(Err(failure)).is_err());
}

#[test]
fn error_message_exposed() {
    let registration = PlatformFailure::Registration {
        message: String::from("no class"),
    }
    .into_error();
    assert_eq!(registration.message(), "no class");
    let deserialization = PlatformFailure::Deserialization {
        message: String::from("bad field"),
    }
    .into_error();
    assert_eq!(deserialization.message(), "bad field");
}

#[test]
fn platform_failure_into_error_keeps_kind() {
    let failure = PlatformFailure::Deserialization {
        message: String::from("bad field"),
    };
    assert!(matches!(failure.into_error(), Error::Deserialization { .. }));
}

#[test]
fn fresh_state_holds_nothing() {
    let state = AppState::new();
    assert_eq!(state.retrieve(), None);
}

#[test]
fn manage_stores_handle() {
    let mut state = AppState::new();
    let handle = mobile::init(Ok(11)).unwrap();
    state.manage(handle);
    assert_eq!(state.retrieve(), Some(handle));
}
