//! Tests of the generic joystick variant: the default channel map, slot
//! reassignment, named getters and the paired X/Y read.

use std::sync::Arc;
use std::sync::RwLock;

use wpilib_hid::ds::DsData;
use wpilib_hid::ds::JoystickError;
use wpilib_hid::ds::JoystickInputs;
use wpilib_hid::ds::RobotState;
use wpilib_hid::hid::ThreadSafeDs;
use wpilib_hid::joystick::Joystick;

/// A snapshot with one device on port 1 whose axis values equal ten
/// times their index, so every read names the channel it came from.
fn indexed_source() -> ThreadSafeDs {
    let inputs = JoystickInputs {
        axes: vec![0, 10, 20, 30, 40, 50],
        buttons: vec![true, false],
        povs: vec![-1],
    };
    Arc::new(RwLock::new(DsData { joysticks: vec![JoystickInputs {
        axes: vec![],
        buttons: vec![],
        povs: vec![],
    }, inputs], state: RobotState::Disabled }))
}

#[test]
fn default_channel_map() {
    let j = Joystick::new(1, indexed_source());
    assert_eq!(j.get_x_channel(), 0);
    assert_eq!(j.get_y_channel(), 1);
    assert_eq!(j.get_z_channel(), 2);
    assert_eq!(j.get_twist_channel(), 2);
    assert_eq!(j.get_throttle_channel(), 3);
}

#[test]
fn named_getters_follow_default_map() {
    let j = Joystick::new(1, indexed_source());
    assert_eq!(j.get_x(), Ok(0));
    assert_eq!(j.get_y(), Ok(10));
    assert_eq!(j.get_z(), Ok(20));
    assert_eq!(j.get_twist(), Ok(20));
    assert_eq!(j.get_throttle(), Ok(30));
}

#[test]
fn default_z_and_twist_alias_axis_two() {
    let j = Joystick::new(1, indexed_source());
    assert_eq!(j.get_z(), j.get_twist());
    assert_eq!(j.get_z(), Ok(20));
}

#[test]
fn y_reassignment_redirects_y_only() {
    let mut j = Joystick::new(1, indexed_source());
    assert_eq!(j.get_y(), Ok(10));
    j.set_y_channel(5);
    assert_eq!(j.get_y_channel(), 5);
    assert_eq!(j.get_y(), Ok(50));
    assert_eq!(j.get_x(), Ok(0));
    assert_eq!(j.get_z(), Ok(20));
    assert_eq!(j.get_twist(), Ok(20));
    assert_eq!(j.get_throttle(), Ok(30));
}

#[test]
fn every_slot_reassigns_independently() {
    let mut j = Joystick::new(1, indexed_source());
    j.set_x_channel(4);
    j.set_z_channel(5);
    j.set_twist_channel(0);
    j.set_throttle_channel(1);
    assert_eq!(j.get_x(), Ok(40));
    assert_eq!(j.get_y(), Ok(10));
    assert_eq!(j.get_z(), Ok(50));
    assert_eq!(j.get_twist(), Ok(0));
    assert_eq!(j.get_throttle(), Ok(10));
}

#[test]
fn reassigned_channel_can_point_nowhere() {
    let mut j = Joystick::new(1, indexed_source());
    j.set_y_channel(9);
    assert_eq!(j.get_y(), Err(JoystickError::ChannelOutOfRange));
    assert_eq!(j.get_x(), Ok(0));
}

#[test]
fn trigger_and_top_buttons() {
    let j = Joystick::new(1, indexed_source());
    assert_eq!(j.get_trigger(), Ok(true));
    assert_eq!(j.get_top(), Ok(false));
}

#[test]
fn axis_given_reads_snapshot_directly() {
    let source = indexed_source();
    let j = Joystick::new(1, source.clone());
    let snapshot = source.read().unwrap().clone();
    assert_eq!(j.get_axis_given(&snapshot, 0), Ok(0));
    assert_eq!(j.get_axis_given(&snapshot, 1), Ok(10));
    assert_eq!(j.get_axis_given(&snapshot, 4), Ok(30));
    assert_eq!(j.get_axis_given(&snapshot, 1), j.get_y());
}

#[test]
fn read_xy_pairs_the_mapped_axes() {
    let mut j = Joystick::new(1, indexed_source());
    assert_eq!(j.read_xy(), Ok((0, 10)));
    j.set_y_channel(4);
    assert_eq!(j.read_xy(), Ok((0, 40)));
}

#[test]
fn read_xy_propagates_first_failure() {
    let source = indexed_source();
    let mut j = Joystick::new(1, source.clone());
    j.set_x_channel(9);
    assert_eq!(j.read_xy(), Err(JoystickError::ChannelOutOfRange));
    let guard = source.write().unwrap();
    assert_eq!(j.read_xy(), Err(JoystickError::DataSourceUnreachable));
    drop(guard);
}
