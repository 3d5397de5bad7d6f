use mlx_rs::device::{
    backend_answer, c_key, get_size_answer, get_string_answer, info_debug_text, is_string_answer,
    keys_read_step, Device, DeviceType, InfoDebugValue, KeysReadAction, KeysReadEvent,
    KeysReadState,
};
use mlx_rs::error::Exception;

#[test]
fn gpu_description() {
    assert_eq!(Device::gpu().describe(), "Device(gpu, 0)");
    assert_eq!(Device::cpu().describe(), "Device(cpu, 0)");
    assert_eq!(Device::new(DeviceType::Cpu, 1).describe(), "Device(cpu, 1)");
    assert_eq!(Device::new(DeviceType::Gpu, 1234).describe(), "Device(gpu, 1234)");
    assert_eq!(Device::new(DeviceType::Gpu, -7).describe(), "Device(gpu, -7)");
    assert_eq!(Device::new(DeviceType::Cpu, i32::MIN).describe(), "Device(cpu, -2147483648)");
    assert_eq!(Device::new(DeviceType::Cpu, i32::MAX).describe(), "Device(cpu, 2147483647)");
}

#[test]
fn device_fields_and_equality() {
    let d = Device::new(DeviceType::Gpu, 3);
    assert_eq!(d.get_index().unwrap(), 3);
    assert_eq!(d.get_type().unwrap(), DeviceType::Gpu);
    assert!(Device::cpu() == Device::new(DeviceType::Cpu, 0));
    assert!(Device::cpu() != Device::gpu());
    assert!(Device::gpu() != Device::new(DeviceType::Gpu, 1));
}

#[test]
fn same_type_and_index_are_equal_devices() {
    assert!(Device::new(DeviceType::Gpu, 1) == Device::new(DeviceType::Gpu, 1));
    assert!(Device::cpu() == Device::new(DeviceType::Cpu, 0));
    assert!(Device::gpu() == Device::new(DeviceType::Gpu, 0));
}

#[test]
fn info_key_with_nul_is_invalid() {
    assert!(c_key("memory_size").is_ok());
    assert_eq!(c_key("memory\0size").unwrap_err().what(), "Invalid key");
}

#[test]
fn answers_carry_value_or_backend_message() {
    assert_eq!(is_string_answer(0, true, None).unwrap(), true);
    assert_eq!(is_string_answer(1, false, None).unwrap_err().what(), "Device info key is missing");
    assert_eq!(
        is_string_answer(1, false, Some(Exception::custom("[device_info] no such key"))).unwrap_err().what(),
        "[device_info] no such key"
    );
    assert_eq!(get_string_answer(0, "Apple M3 Max".to_string(), None).unwrap(), "Apple M3 Max");
    assert_eq!(
        get_string_answer(1, String::new(), None).unwrap_err().what(),
        "Device info key is missing or is not a string"
    );
    assert_eq!(get_size_answer(0, 64, None).unwrap(), 64);
    assert_eq!(
        get_size_answer(1, 0, None).unwrap_err().what(),
        "Device info key is missing or is not a size"
    );
    assert_eq!(backend_answer(0, 'x', None, "fallback").unwrap(), 'x');
    assert_eq!(backend_answer(2, 'x', None, "fallback").unwrap_err().what(), "fallback");
}

#[test]
fn info_description_is_a_map() {
    assert_eq!(info_debug_text(&[]), "{}");
    let entries = vec![
        ("device_name".to_string(), InfoDebugValue::Text(Some("Apple \"M3\"".to_string()))),
        ("memory_size".to_string(), InfoDebugValue::Size(Some(137_438_953_472))),
        ("architecture".to_string(), InfoDebugValue::Text(None)),
        ("resource_limit".to_string(), InfoDebugValue::Size(None)),
        ("odd".to_string(), InfoDebugValue::Error),
    ];
    assert_eq!(
        info_debug_text(&entries),
        r#"{"device_name": Some("Apple \"M3\""), "memory_size": Some(137438953472), "architecture": None, "resource_limit": None, "odd": "<error>"}"#
    );
}

fn expect_error(action: KeysReadAction) -> String {
    match action {
        KeysReadAction::Fail { error } => error.what().to_string(),
        _ => panic!("expected a failure"),
    }
}

#[test]
fn keys_are_read_in_order() {
    let (s, keys, a) = keys_read_step(
        KeysReadState::GettingKeys,
        Vec::new(),
        KeysReadEvent::KeysRead { status: 0, len: 2, recorded: None },
    );
    assert!(matches!(a, KeysReadAction::ReadKey { index: 0 }));
    let (s, keys, a) = keys_read_step(
        s,
        keys,
        KeysReadEvent::KeyRead { status: 0, key: "architecture".to_string(), recorded: None },
    );
    assert!(matches!(a, KeysReadAction::ReadKey { index: 1 }));
    let (s, keys, a) = keys_read_step(
        s,
        keys,
        KeysReadEvent::KeyRead { status: 0, key: "device_name".to_string(), recorded: None },
    );
    assert!(matches!(s, KeysReadState::Finished));
    assert!(matches!(a, KeysReadAction::Finish));
    assert_eq!(keys, vec!["architecture", "device_name"]);
}

#[test]
fn no_keys_finishes_at_once() {
    let (s, keys, a) = keys_read_step(
        KeysReadState::GettingKeys,
        Vec::new(),
        KeysReadEvent::KeysRead { status: 0, len: 0, recorded: None },
    );
    assert!(matches!(s, KeysReadState::Finished));
    assert!(matches!(a, KeysReadAction::Finish));
    assert!(keys.is_empty());
}

#[test]
fn key_read_failures_report_backend_message_or_fallback() {
    let (s, _, a) = keys_read_step(
        KeysReadState::GettingKeys,
        Vec::new(),
        KeysReadEvent::KeysRead { status: 1, len: 0, recorded: None },
    );
    assert!(matches!(s, KeysReadState::Finished));
    assert_eq!(expect_error(a), "Failed to get device info keys");

    let (_, keys, a) = keys_read_step(
        KeysReadState::ReadingKey { index: 1, len: 3 },
        vec!["architecture".to_string()],
        KeysReadEvent::KeyRead { status: 1, key: String::new(), recorded: Some(Exception::custom("boom")) },
    );
    assert_eq!(expect_error(a), "boom");
    assert_eq!(keys, vec!["architecture"]);

    let (_, _, a) = keys_read_step(
        KeysReadState::ReadingKey { index: 0, len: 1 },
        Vec::new(),
        KeysReadEvent::KeyRead { status: 1, key: String::new(), recorded: None },
    );
    assert_eq!(expect_error(a), "Failed to read device info key");
}
