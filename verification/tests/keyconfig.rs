use vibinremote::errors::VibinRemoteError;
use vibinremote::validate::{validate_key_name, CanonicalKey};
use vibinremote::{
    classify_response, default_url_timeout, generate_key_to_keyconfig, process_key_event,
    request_timeout_seconds, AppConfig, DispatchOutcome, KeyActionTable, KeyConfig, KeyEvent,
};

#[test]
fn it_generates_keyconfig() {
    // Setup.
    let up_url = "/url/path/up";
    let down_url = "/url/path/down";

    let keyconfig_up = KeyConfig { url: up_url.to_string() };
    let keyconfig_down = KeyConfig { url: down_url.to_string() };

    let test_keymap = vec![
        ("PageUp".to_string(), keyconfig_up),
        ("PageDown".to_string(), keyconfig_down),
    ];

    // Code under test.
    let keyconfig = generate_key_to_keyconfig(&AppConfig {
        vibin: "vibin.local".to_string(),
        request_timeout: Some(1),
        keymap: test_keymap,
    })
    .unwrap();

    // Expect to get back a table from canonical keys to the expected KeyConfig urls.
    assert_eq!(keyconfig.len(), 2);
    assert_eq!(keyconfig.get(CanonicalKey::PageUp).unwrap().url, up_url);
    assert_eq!(keyconfig.get(CanonicalKey::PageDown).unwrap().url, down_url);
}

#[test]
fn valid_names_give_matching_keys() {
    assert_eq!(validate_key_name("PageUp").unwrap(), CanonicalKey::PageUp);
    assert_eq!(validate_key_name("PageDown").unwrap(), CanonicalKey::PageDown);
    assert_eq!(validate_key_name("Alt").unwrap(), CanonicalKey::Alt);
    assert_eq!(validate_key_name("F12").unwrap(), CanonicalKey::F12);
    assert_eq!(validate_key_name("KeyA").unwrap(), CanonicalKey::KeyA);
    assert_eq!(validate_key_name("Kp9").unwrap(), CanonicalKey::Kp9);
    assert_eq!(validate_key_name("Function").unwrap(), CanonicalKey::Function);
    assert_eq!(validate_key_name("Space").unwrap(), CanonicalKey::Space);
}

#[test]
fn unrecognized_names_fail_with_invalid_key_name() {
    for name in ["", "pageup", "PAGEUP", "NotAKey", "PageUp ", "Page Up"] {
        match validate_key_name(name) {
            Err(VibinRemoteError::InvalidKeyName { key_name }) => assert_eq!(key_name, name),
            other => panic!("expected InvalidKeyName for {:?}, got {:?}", name, other),
        }
    }
}

#[test]
fn build_fails_on_invalid_name() {
    let keymap = vec![
        ("PageUp".to_string(), KeyConfig { url: "/up".to_string() }),
        ("Bogus".to_string(), KeyConfig { url: "/x".to_string() }),
    ];
    let result = generate_key_to_keyconfig(&AppConfig {
        vibin: "vibin.local".to_string(),
        request_timeout: Some(1),
        keymap,
    });
    match result {
        Err(VibinRemoteError::InvalidKeyName { key_name }) => assert_eq!(key_name, "Bogus"),
        other => panic!("expected InvalidKeyName, got {:?}", other),
    }
}

#[test]
fn build_duplicate_name_last_wins() {
    let keymap = vec![
        ("PageUp".to_string(), KeyConfig { url: "/a".to_string() }),
        ("PageUp".to_string(), KeyConfig { url: "/b".to_string() }),
    ];
    let table = generate_key_to_keyconfig(&AppConfig {
        vibin: "vibin.local".to_string(),
        request_timeout: Some(1),
        keymap,
    })
    .unwrap();
    assert_eq!(table.len(), 1);
    assert_eq!(table.get(CanonicalKey::PageUp).unwrap().url, "/b");
}

#[test]
fn empty_table_has_no_entries() {
    let table = KeyActionTable::empty();
    assert_eq!(table.len(), 0);
    assert!(table.get(CanonicalKey::PageUp).is_none());
}

#[test]
fn release_of_registered_key_enqueues_one_envelope() {
    let keymap = vec![("PageUp".to_string(), KeyConfig { url: "/url/path/up".to_string() })];
    let table = generate_key_to_keyconfig(&AppConfig {
        vibin: "vibin.local".to_string(),
        request_timeout: Some(1),
        keymap,
    })
    .unwrap();

    let envelope = process_key_event(&table, "vibin.local", KeyEvent::Release(CanonicalKey::PageUp));
    assert_eq!(envelope.unwrap(), "http://vibin.local/url/path/up");

    // A press of the same key dispatches nothing.
    assert!(process_key_event(&table, "vibin.local", KeyEvent::Press(CanonicalKey::PageUp)).is_none());
    // A release of an unregistered key dispatches nothing.
    assert!(process_key_event(&table, "vibin.local", KeyEvent::Release(CanonicalKey::KeyA)).is_none());
    // Other event kinds dispatch nothing.
    assert!(process_key_event(&table, "vibin.local", KeyEvent::Other).is_none());
}

#[test]
fn status_200_is_delivered() {
    let outcome = classify_response(Some(200));
    assert_eq!(outcome, DispatchOutcome::Delivered);
    assert!(!outcome.is_failure());
}

#[test]
fn status_500_is_reported_as_http_error() {
    let outcome = classify_response(Some(500));
    assert_eq!(outcome, DispatchOutcome::HttpError(500));
    assert!(outcome.is_failure());
}

#[test]
fn transport_failure_is_reported() {
    let outcome = classify_response(None);
    assert_eq!(outcome, DispatchOutcome::TransportError);
    assert!(outcome.is_failure());
}

#[test]
fn default_timeout_is_one_second() {
    assert_eq!(default_url_timeout(), Some(1));
    assert_eq!(request_timeout_seconds(None), 1);
    assert_eq!(request_timeout_seconds(Some(1)), 1);
    assert_eq!(request_timeout_seconds(Some(30)), 30);
}

#[test]
fn error_messages_describe_the_error() {
    let config_err = VibinRemoteError::AppConfigError("Could not load config data".to_string());
    assert_eq!(config_err.message(), "Could not load config data");

    let key_err = VibinRemoteError::InvalidKeyName { key_name: "Bogus".to_string() };
    assert_eq!(key_err.message(), "Provided key name was invalid: Bogus");
}

#[test]
fn end_to_end_release_yields_one_call() {
    // Config: vibin "h", request_timeout 1, keymap PageUp -> /x.
    let config = AppConfig {
        vibin: "h".to_string(),
        request_timeout: Some(1),
        keymap: vec![("PageUp".to_string(), KeyConfig { url: "/x".to_string() })],
    };
    let table = generate_key_to_keyconfig(&config).unwrap();

    // A synthetic release of PageUp yields exactly one outbound call to
    // http://h/x with a 1-second timeout.
    let envelope = process_key_event(&table, &config.vibin, KeyEvent::Release(CanonicalKey::PageUp));
    assert_eq!(envelope.unwrap(), "http://h/x");
    assert_eq!(request_timeout_seconds(config.request_timeout), 1);
}
