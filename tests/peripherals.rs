use obniz::ad::AdConfig;
use obniz::api::request::Plugin;
use obniz::display::{DisplayRawColorDepth, PinAssignment, RawDisplayConfig};
use obniz::error::{validate_pin, ObnizError};
use obniz::io::{Direction, IoConfig, OutputType, PullType};
use obniz::key::{ad_key, io_key, pwm_key, uart_key};
use obniz::mock::MockConfig;
use obniz::switch::{SwitchAction, SwitchResponse, SwitchState};

#[test]
fn test_ad_config_creation() {
    let config = AdConfig { stream: true };
    assert!(config.stream);

    let config = AdConfig { stream: false };
    assert!(!config.stream);
}

#[test]
fn ad_test_channel_key_generation() {
    assert_eq!(ad_key(0), "ad0");
    assert_eq!(ad_key(11), "ad11");
}

#[test]
fn test_plugin_serialize() {
    let plugin = Plugin { send: vec![1, 2, 3] };
    assert_eq!(plugin.send, vec![1, 2, 3]);
}

#[test]
fn test_raw_display_config_validation() {
    let config = RawDisplayConfig {
        width: 128,
        height: 64,
        color_depth: DisplayRawColorDepth::OneBit,
        data: vec![0; 1024],
    };
    assert_eq!(config.width, 128);
    assert_eq!(config.height, 64);
}

#[test]
fn test_pin_assignment_creation() {
    let assignment = PinAssignment {
        pin: 5,
        module_name: "spi".to_string(),
        pin_name: "mosi".to_string(),
    };

    assert_eq!(assignment.pin, 5);
    assert_eq!(assignment.module_name, "spi");
    assert_eq!(assignment.pin_name, "mosi");
}

#[test]
fn test_pin_validation() {
    assert!(validate_pin(0).is_ok());
    assert!(validate_pin(5).is_ok());
    assert!(validate_pin(11).is_ok());

    assert!(validate_pin(12).is_err());
    assert!(validate_pin(255).is_err());
}

#[test]
fn test_io_config_serialization() {
    let config = IoConfig {
        direction: Direction::Output,
        value: Some(true),
        output_type: Some(OutputType::PushPull5v),
        pull_type: Some(PullType::PullUp5v),
        stream: Some(false),
    };

    assert_eq!(config.direction, Direction::Output);
    assert_eq!(config.value, Some(true));
}

#[test]
fn it_works() {
    assert_eq!(2 + 2, 4);
}

#[test]
fn pwm_test_channel_key_generation() {
    assert_eq!(pwm_key(0), "pwm0");
    assert_eq!(pwm_key(5), "pwm5");
}

#[test]
fn test_switch_state_display() {
    assert_eq!(SwitchState::Released.to_string(), "none");
    assert_eq!(SwitchState::Push.to_string(), "push");
    assert_eq!(SwitchState::Left.to_string(), "left");
    assert_eq!(SwitchState::Right.to_string(), "right");
}

#[test]
fn test_switch_state_equality() {
    assert_eq!(SwitchState::Released, SwitchState::Released);
    assert_eq!(SwitchState::Push, SwitchState::Push);
    assert_ne!(SwitchState::Released, SwitchState::Push);
    assert_ne!(SwitchState::Left, SwitchState::Right);
}

#[test]
fn uart_test_channel_key_generation() {
    assert_eq!(uart_key(0), "uart0");
    assert_eq!(uart_key(1), "uart1");
}

#[test]
fn test_io_config_creation() {
    let config = IoConfig {
        direction: Direction::Output,
        value: Some(true),
        output_type: Some(OutputType::PushPull5v),
        pull_type: Some(PullType::PullUp5v),
        stream: Some(false),
    };

    assert_eq!(config.direction, Direction::Output);
    assert_eq!(config.value, Some(true));
    assert_eq!(config.output_type, Some(OutputType::PushPull5v));
    assert_eq!(config.pull_type, Some(PullType::PullUp5v));
    assert_eq!(config.stream, Some(false));
}

#[test]
fn test_switch_states_and_actions() {
    assert_eq!(SwitchState::Released, SwitchState::Released);
    assert_eq!(SwitchState::Push, SwitchState::Push);
    assert_ne!(SwitchState::Released, SwitchState::Push);
    assert_ne!(SwitchState::Left, SwitchState::Right);

    assert_eq!(SwitchState::Released.to_string(), "none");
    assert_eq!(SwitchState::Push.to_string(), "push");
    assert_eq!(SwitchState::Left.to_string(), "left");
    assert_eq!(SwitchState::Right.to_string(), "right");

    let response = SwitchResponse {
        state: SwitchState::Push,
        action: SwitchAction::Push,
    };

    assert_eq!(response.state, SwitchState::Push);
    assert_eq!(response.action, SwitchAction::Push);
}

#[test]
fn unit_tests_test_error_types() {
    let pin_error = ObnizError::InvalidPin(15);
    assert_eq!(
        pin_error.to_string(),
        "Invalid pin number: 15. Valid range is 0-11"
    );

    let connection_error = ObnizError::Connection("Failed to connect".to_string());
    assert_eq!(
        connection_error.to_string(),
        "Connection error: Failed to connect"
    );

    let timeout_error = ObnizError::Timeout;
    assert_eq!(timeout_error.to_string(), "Operation timed out");

    let json_error = ObnizError::JsonParse("Invalid JSON".to_string());
    assert_eq!(json_error.to_string(), "JSON parse error: Invalid JSON");

    let io_error = ObnizError::IoOperation("Pin read failed".to_string());
    assert_eq!(io_error.to_string(), "IO operation error: Pin read failed");
}

#[test]
fn integration_tests_test_error_types() {
    let pin_error = ObnizError::InvalidPin(15);
    assert!(pin_error.to_string().contains("Invalid pin number: 15"));

    let connection_error = ObnizError::Connection("Failed to connect".to_string());
    assert!(connection_error.to_string().contains("Connection error"));

    let timeout_error = ObnizError::Timeout;
    assert_eq!(timeout_error.to_string(), "Operation timed out");

    let json_error = ObnizError::JsonParse("Invalid JSON".to_string());
    assert!(json_error.to_string().contains("JSON parse error"));
}

#[test]
fn test_error_validation() {
    let result = validate_pin(15);
    assert!(result.is_err());

    match result {
        Err(ObnizError::InvalidPin(pin)) => assert_eq!(pin, 15),
        _ => panic!("Expected InvalidPin error"),
    }
}

#[test]
fn test_validation_functions() {
    assert!(validate_pin(0).is_ok());
    assert!(validate_pin(5).is_ok());
    assert!(validate_pin(11).is_ok());

    assert!(validate_pin(12).is_err());
    assert!(validate_pin(255).is_err());

    match validate_pin(20) {
        Err(ObnizError::InvalidPin(pin)) => assert_eq!(pin, 20),
        _ => panic!("Expected InvalidPin error"),
    }
}

#[test]
fn test_key_generation_patterns() {
    for i in 0..=11u8 {
        assert_eq!(io_key(i), format!("io{}", i));
    }
    for i in 0..=11u8 {
        assert_eq!(ad_key(i), format!("ad{}", i));
    }
    for i in 0..=5u8 {
        assert_eq!(pwm_key(i), format!("pwm{}", i));
    }
    for i in 0..=2u8 {
        assert_eq!(uart_key(i), format!("uart{}", i));
    }
}

#[test]
fn error_messages_of_every_variant() {
    assert_eq!(ObnizError::WebSocket("closed".to_string()).to_string(), "WebSocket error: closed");
    assert_eq!(ObnizError::CallbackError("x".to_string()).to_string(), "Callback error: x");
    assert_eq!(ObnizError::DeviceNotFound("1234".to_string()).to_string(), "Device not found: 1234");
    assert_eq!(ObnizError::PermissionDenied.to_string(), "Permission denied");
    assert_eq!(ObnizError::Generic("boom".to_string()).to_string(), "Error: boom");
    assert_eq!(
        ObnizError::InvalidPin(255).to_string(),
        "Invalid pin number: 255. Valid range is 0-11"
    );
    assert_eq!(
        ObnizError::InvalidPin(0).to_string(),
        "Invalid pin number: 0. Valid range is 0-11"
    );
}

#[test]
fn mock_config_default() {
    let config = MockConfig::default();
    assert_eq!(config.device_id, "mock-device");
    assert!(!config.should_fail_connection);
    assert!(!config.should_timeout);
    assert_eq!(config.default_delay_ms, 10);
}
