use booster_sdk::b1::{Action, BodyControl, GetModeResponse, GetStatusResponse, LocoApiId};
use booster_sdk::low_level::{CommandType, FallEvent};
use booster_sdk::motor::MotorMode;
use booster_sdk::robot::{Finger, Frame, Hand, JointB1, JointB1_7DOF, RobotMode};
use booster_sdk::x5_camera::{CameraControlStatus, GetStatusResponse as CameraStatusResponse};

#[test]
fn test_robot_mode_conversion() {
    assert_eq!(RobotMode::try_from(0), Ok(RobotMode::Damping));
    assert_eq!(RobotMode::try_from(2), Ok(RobotMode::Walking));
    assert_eq!(RobotMode::try_from(99), Err(()));

    assert_eq!(i32::from(RobotMode::Walking), 2);
}

#[test]
fn test_joint_counts() {
    assert_eq!(JointB1::COUNT, 23);
    assert_eq!(JointB1_7DOF::COUNT, 29);
    assert_eq!(Finger::COUNT, 6);
}

#[test]
fn test_joint_indexing() {
    assert_eq!(usize::from(JointB1::HeadYaw), 0);
    assert_eq!(usize::from(JointB1::Waist), 10);
    assert_eq!(usize::from(JointB1::RightCrankDown), 22);

    assert_eq!(JointB1::try_from(0), Ok(JointB1::HeadYaw));
    assert!(JointB1::try_from(23).is_err());
}

#[test]
fn test_motor_mode_conversion() {
    assert_eq!(MotorMode::try_from(0u8), Ok(MotorMode::Servo));
    assert_eq!(MotorMode::try_from(1u8), Ok(MotorMode::Damping));
    assert_eq!(MotorMode::try_from(2u8), Err(()));

    assert_eq!(u8::from(MotorMode::Servo), 0);
}

#[test]
fn low_level_command_type_roundtrip() {
    assert_eq!(CommandType::try_from(0u32), Ok(CommandType::Parallel));
    assert_eq!(CommandType::try_from(1u32), Ok(CommandType::Serial));
    assert!(CommandType::try_from(2u32).is_err());

    assert_eq!(CommandType::try_from(0u8), Ok(CommandType::Parallel));
    assert_eq!(CommandType::try_from(1u8), Ok(CommandType::Serial));
    assert!(CommandType::try_from(2u8).is_err());

    assert_eq!(u32::from(CommandType::Parallel), 0);
    assert_eq!(u8::from(CommandType::Parallel), 0);
}

#[test]
fn fall_event_default_is_clear() {
    let e = FallEvent::default();
    assert_eq!(e.timestamp, 0);
    assert!(!e.detected);
}

#[test]
fn loco_api_ids_round_trip() {
    assert_eq!(i32::from(LocoApiId::ChangeMode), 2000);
    assert_eq!(i32::from(LocoApiId::ExitWbcGait), 2036);
    assert_eq!(LocoApiId::try_from(2017), Ok(LocoApiId::GetMode));
    assert_eq!(LocoApiId::try_from(2003), Err("invalid value"));
}

#[test]
fn negative_codes_read_back() {
    assert_eq!(booster_sdk::b1::Frame::try_from(-1), Ok(booster_sdk::b1::Frame::Unknown));
    assert_eq!(i32::from(booster_sdk::b1::BoosterHandType::Unknown), -1);
    assert_eq!(booster_sdk::b1::DanceId::try_from(1000), Ok(booster_sdk::b1::DanceId::Stop));
    assert_eq!(i32::from(booster_sdk::robot::Direction::Negative), -1);
}

#[test]
fn frame_names() {
    assert_eq!(Frame::Body.as_str(), "body");
    assert_eq!(Frame::LeftHand.as_str(), "left_hand");
    assert_eq!(Frame::RightFoot.as_str(), "right_foot");
}

#[test]
fn hand_codes() {
    assert_eq!(usize::from(Hand::Right), 1);
    assert_eq!(i32::from(Hand::Left), 0);
    assert_eq!(Hand::try_from(1usize), Ok(Hand::Right));
    assert_eq!(Hand::try_from(2i32), Err(()));
}

#[test]
fn status_response_enums() {
    let s = GetStatusResponse {
        current_mode: 2,
        current_body_control: 12,
        current_actions: vec![1, 99, 15, -3],
    };
    assert_eq!(s.current_mode_enum(), Some(RobotMode::Walking));
    assert_eq!(s.current_body_control_enum(), Some(BodyControl::WbcGait));
    assert_eq!(s.current_actions_enum(), vec![Action::HandShake, Action::RunRecordedTraj]);

    assert_eq!(GetModeResponse { mode: 7 }.mode_enum(), None);
    assert_eq!(GetModeResponse { mode: 3 }.mode_enum(), Some(RobotMode::Custom));

    assert_eq!(CameraStatusResponse { status: 2 }.status_enum(), Some(CameraControlStatus::CameraStatusError));
    assert_eq!(CameraStatusResponse { status: 4 }.status_enum(), None);
}
