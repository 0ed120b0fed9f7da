//! Tests of the shared capability contract: pass-through reads, lock
//! failure, output bitmask updates and rumble clamping.

use std::sync::Arc;
use std::sync::RwLock;

use wpilib_hid::ds::DsData;
use wpilib_hid::ds::JoystickError;
use wpilib_hid::ds::JoystickInputs;
use wpilib_hid::ds::RobotState;
use wpilib_hid::hid::GenericHID;
use wpilib_hid::hid::JoystickSide;
use wpilib_hid::hid::ThreadSafeDs;
use wpilib_hid::joystick::Joystick;

/// A snapshot with one device on port 0: six axes, three buttons, two hats.
fn sample_source() -> ThreadSafeDs {
    let inputs = JoystickInputs {
        axes: vec![7, -3, 11, 42, 5, -128],
        buttons: vec![true, false, true],
        povs: vec![-1, 90],
    };
    Arc::new(RwLock::new(DsData { joysticks: vec![inputs], state: RobotState::Enabled }))
}

#[test]
fn raw_reads_pass_through() {
    let j = Joystick::new(0, sample_source());
    assert_eq!(j.get_raw_axis(0), Ok(7));
    assert_eq!(j.get_raw_axis(1), Ok(-3));
    assert_eq!(j.get_raw_axis(5), Ok(-128));
    assert_eq!(j.get_raw_button(1), Ok(true));
    assert_eq!(j.get_raw_button(2), Ok(false));
    assert_eq!(j.get_raw_button(3), Ok(true));
    assert_eq!(j.get_pov(0), Ok(-1));
    assert_eq!(j.get_pov(1), Ok(90));
}

#[test]
fn out_of_range_channel_is_reported() {
    let j = Joystick::new(0, sample_source());
    assert_eq!(j.get_raw_axis(6), Err(JoystickError::ChannelOutOfRange));
    assert_eq!(j.get_raw_button(0), Err(JoystickError::ChannelOutOfRange));
    assert_eq!(j.get_raw_button(4), Err(JoystickError::ChannelOutOfRange));
    assert_eq!(j.get_pov(2), Err(JoystickError::ChannelOutOfRange));
}

#[test]
fn unconnected_port_is_reported() {
    let j = Joystick::new(3, sample_source());
    assert_eq!(j.get_raw_axis(0), Err(JoystickError::ChannelOutOfRange));
    assert_eq!(j.get_raw_button(1), Err(JoystickError::ChannelOutOfRange));
    assert_eq!(j.get_pov(0), Err(JoystickError::ChannelOutOfRange));
}

#[test]
fn locked_source_is_unreachable() {
    let source = sample_source();
    let j = Joystick::new(0, source.clone());
    let guard = source.write().unwrap();
    assert_eq!(j.get_raw_axis(0), Err(JoystickError::DataSourceUnreachable));
    assert_eq!(j.get_raw_button(1), Err(JoystickError::DataSourceUnreachable));
    assert_eq!(j.get_pov(0), Err(JoystickError::DataSourceUnreachable));
    assert_eq!(j.get_x(), Err(JoystickError::DataSourceUnreachable));
    drop(guard);
    assert_eq!(j.get_raw_axis(0), Ok(7));
}

#[test]
fn reads_see_concurrent_updates() {
    let source = sample_source();
    let j = Joystick::new(0, source.clone());
    assert_eq!(j.get_raw_axis(0), Ok(7));
    source.write().unwrap().joysticks[0].axes[0] = -77;
    assert_eq!(j.get_raw_axis(0), Ok(-77));
}

#[test]
fn set_output_round_trip_restores_mask() {
    let mut j = Joystick::new(0, sample_source());
    let w0 = j.set_outputs(0b1010);
    assert_eq!(w0.outputs, 0b1010);
    let w1 = j.set_output(1, true);
    assert_eq!(w1.outputs, 0b1011);
    let w2 = j.set_output(1, false);
    assert_eq!(w2.outputs, 0b1010);
}

#[test]
fn set_output_touches_only_its_bit() {
    let mut j = Joystick::new(0, sample_source());
    let w = j.set_output(5, true);
    assert_eq!(w.outputs, 0b10000);
    let w = j.set_output(1, true);
    assert_eq!(w.outputs, 0b10001);
    let w = j.set_output(5, false);
    assert_eq!(w.outputs, 0b00001);
    let w = j.set_output(64, true);
    assert_eq!(w.outputs, 0b00001 | (1u64 << 63));
}

#[test]
fn writes_carry_full_word() {
    let mut j = Joystick::new(2, sample_source());
    let w = j.set_output(3, true);
    assert_eq!(w.port, 2);
    assert_eq!(w.left_rumble, 0);
    assert_eq!(w.right_rumble, 0);
    let scaled = (0.5f32 * 65535.0).round() as i64;
    let w = j.set_rumble(JoystickSide::LeftHand, scaled);
    assert_eq!(w.port, 2);
    assert_eq!(w.outputs, 0b100);
    assert_eq!(w.left_rumble, 32768);
    let w = j.set_outputs(0);
    assert_eq!(w.outputs, 0);
    assert_eq!(w.left_rumble, 32768);
}

#[test]
fn rumble_over_unit_intensity_clamps_high() {
    let mut j = Joystick::new(0, sample_source());
    let scaled = (1.5f32 * 65535.0).round() as i64;
    let w = j.set_rumble(JoystickSide::LeftHand, scaled);
    assert_eq!(w.left_rumble, 65535);
    assert_eq!(w.right_rumble, 0);
}

#[test]
fn rumble_negative_intensity_clamps_low() {
    let mut j = Joystick::new(0, sample_source());
    let high = (1.0f32 * 65535.0).round() as i64;
    j.set_rumble(JoystickSide::RightHand, high);
    let scaled = (-0.25f32 * 65535.0).round() as i64;
    let w = j.set_rumble(JoystickSide::RightHand, scaled);
    assert_eq!(w.right_rumble, 0);
    assert_eq!(w.left_rumble, 0);
}

#[test]
fn rumble_sides_are_independent() {
    let mut j = Joystick::new(0, sample_source());
    let left = (0.25f32 * 65535.0).round() as i64;
    let w = j.set_rumble(JoystickSide::LeftHand, left);
    assert_eq!(w.left_rumble, 16384);
    assert_eq!(w.right_rumble, 0);
    let right = (0.75f32 * 65535.0).round() as i64;
    let w = j.set_rumble(JoystickSide::RightHand, right);
    assert_eq!(w.left_rumble, 16384);
    assert_eq!(w.right_rumble, 49151);
}

#[test]
fn empty_snapshot_has_no_channels() {
    let source: ThreadSafeDs =
        Arc::new(RwLock::new(DsData { joysticks: vec![], state: RobotState::Disabled }));
    let j = Joystick::new(0, source);
    assert_eq!(j.get_raw_axis(0), Err(JoystickError::ChannelOutOfRange));
    assert_eq!(j.get_raw_button(1), Err(JoystickError::ChannelOutOfRange));
    assert_eq!(j.get_pov(0), Err(JoystickError::ChannelOutOfRange));
}

#[test]
fn full_mask_clears_one_bit_at_a_time() {
    let mut j = Joystick::new(0, sample_source());
    let w = j.set_outputs(u64::MAX);
    assert_eq!(w.outputs, u64::MAX);
    let w = j.set_output(1, false);
    assert_eq!(w.outputs, u64::MAX - 1);
    let w = j.set_output(64, false);
    assert_eq!(w.outputs, (u64::MAX - 1) & !(1u64 << 63));
}

#[test]
fn rumble_scaling_formula_is_exact() {
    let mut j = Joystick::new(0, sample_source());
    let scaled = (0.37f32 * 65535.0).round() as i64;
    let w = j.set_rumble(JoystickSide::RightHand, scaled);
    assert_eq!(w.right_rumble, 24248);
    let scaled = (1.0f32 * 65535.0).round() as i64;
    let w = j.set_rumble(JoystickSide::RightHand, scaled);
    assert_eq!(w.right_rumble, 65535);
    let w = j.set_rumble(JoystickSide::RightHand, 0);
    assert_eq!(w.right_rumble, 0);
}

#[test]
fn get_port_reports_binding() {
    let j = Joystick::new(4, sample_source());
    assert_eq!(j.get_port(), 4);
}

#[test]
fn snapshot_reports_robot_state() {
    let source = sample_source();
    let snapshot = source.read().unwrap().clone();
    assert!(matches!(snapshot.get_state(), RobotState::Enabled));
    assert_eq!(snapshot.get_joystick_axis(0, 3), Ok(42));
    assert_eq!(snapshot.get_joystick_button(0, 3), Ok(true));
    assert_eq!(snapshot.get_joystick_pov(0, 1), Ok(90));
}
