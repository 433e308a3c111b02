use booster_sdk::commands::{finger_force, finger_speed, GripperCommand};
use booster_sdk::light_control::SetLedLightColorParameter;
use booster_sdk::robot::{GripperMode, Hand};

#[test]
fn test_gripper_command_builders() {
    let open = GripperCommand::open(Hand::Left);
    assert_eq!(open.motion_param, 0);
    assert_eq!(open.mode, GripperMode::Position);

    let close = GripperCommand::close(Hand::Right);
    assert_eq!(close.motion_param, 1000);

    let grasp = GripperCommand::grasp(Hand::Left, 600);
    assert_eq!(grasp.mode, GripperMode::Force);
    assert_eq!(grasp.motion_param, 600);
}

#[test]
fn grasp_force_is_clamped() {
    assert_eq!(GripperCommand::grasp(Hand::Left, 10).motion_param, 50);
    assert_eq!(GripperCommand::grasp(Hand::Left, 5000).motion_param, 1000);
}

#[test]
fn gripper_control_message() {
    let c = GripperCommand::grasp(Hand::Right, 700).to_dds_control();
    assert_eq!(c.hand_index, 1);
    assert_eq!(c.position, 0);
    assert_eq!(c.force, 700);
    assert_eq!(c.speed, 500);

    let c = GripperCommand::close(Hand::Left).to_dds_control();
    assert_eq!(c.hand_index, 0);
    assert_eq!(c.position, 1000);
    assert_eq!(c.force, 0);
}

#[test]
fn led_color_from_hex() {
    assert_eq!(
        SetLedLightColorParameter::from_hex("  #FF8000 "),
        Some(SetLedLightColorParameter { r: 255, g: 128, b: 0 })
    );
    assert_eq!(
        SetLedLightColorParameter::from_hex("#0a0B0c"),
        Some(SetLedLightColorParameter { r: 10, g: 11, b: 12 })
    );
    assert_eq!(SetLedLightColorParameter::from_hex("FF8000"), None);
    assert_eq!(SetLedLightColorParameter::from_hex("#FF80"), None);
    assert_eq!(SetLedLightColorParameter::from_hex("#GG8000"), None);
    assert_eq!(
        SetLedLightColorParameter::from_hex("#+f0102"),
        Some(SetLedLightColorParameter { r: 15, g: 1, b: 2 })
    );
}

#[test]
fn finger_values_are_clamped() {
    assert_eq!(finger_force(1500), 1000);
    assert_eq!(finger_force(0), 0);
    assert_eq!(finger_speed(50), 50);
    assert_eq!(finger_speed(0), 1);
    assert_eq!(finger_speed(2000), 1000);
}
