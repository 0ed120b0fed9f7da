//! The Xbox controller variant: fixed named accessors over the shared
//! capability contract, with no reassignable state.
//!
//! Every accessor forwards to the contract with a hardcoded channel
//! index: ten 1-based buttons, six raw axes and one POV hat (the D-pad).
//! The left-stick Y accessor reads raw axis 10 while every other axis
//! uses an index in 0 to 5; confirm that number against the target
//! hardware's axis numbering before relying on it.

use vstd::prelude::*;

use crate::ds::JoystickError;
use crate::hid::GenericHID;
use crate::hid::GenericHIDData;
use crate::hid::GetHID;
use crate::hid::JoystickOutputs;
use crate::hid::ThreadSafeDs;

verus! {

/// Handle input from Xbox 360 or Xbox One controllers connected to the
/// Driver Station.
pub struct XboxController {
    hid: GenericHIDData,
}

impl GetHID for XboxController {
    closed spec fn hid_data(&self) -> GenericHIDData {
        self.hid
    }

    closed spec fn with_hid(&self, hid: GenericHIDData) -> XboxController {
        XboxController { hid }
    }

    fn get_hid_data(&self) -> (r: &GenericHIDData) {
        &self.hid
    }

    fn get_hid_data_mut(&mut self) -> (r: &mut GenericHIDData) {
        &mut self.hid
    }

    proof fn lemma_with_hid(s: XboxController, hid: GenericHIDData) {
    }
}

impl GenericHID for XboxController {

}

impl XboxController {
    /// A controller bound to `port` and the shared snapshot handle, with
    /// all-zero cached outputs and rumble.
    pub fn new(port: usize, ds: ThreadSafeDs) -> (c: XboxController)
        ensures
            c.hid_data()@ == (JoystickOutputs {
                port,
                outputs: 0u64,
                left_rumble: 0u16,
                right_rumble: 0u16,
            }),
            c.hid_data().spec_ds() == ds,
    {
        XboxController { hid: GenericHIDData::new(port, ds) }
    }

    /// The A button: 1-based button 1.
    pub fn get_a(&self) -> (r: Result<bool, JoystickError>)
        ensures
            r matches Err(e) ==> (e == JoystickError::DataSourceUnreachable || e
                == JoystickError::ChannelOutOfRange),
    {
        self.get_raw_button(1)
    }

    /// The B button: 1-based button 2.
    pub fn get_b(&self) -> (r: Result<bool, JoystickError>)
        ensures
            r matches Err(e) ==> (e == JoystickError::DataSourceUnreachable || e
                == JoystickError::ChannelOutOfRange),
    {
        self.get_raw_button(2)
    }

    /// The X button: 1-based button 3.
    pub fn get_x(&self) -> (r: Result<bool, JoystickError>)
        ensures
            r matches Err(e) ==> (e == JoystickError::DataSourceUnreachable || e
                == JoystickError::ChannelOutOfRange),
    {
        self.get_raw_button(3)
    }

    /// The Y button: 1-based button 4.
    pub fn get_y(&self) -> (r: Result<bool, JoystickError>)
        ensures
            r matches Err(e) ==> (e == JoystickError::DataSourceUnreachable || e
                == JoystickError::ChannelOutOfRange),
    {
        self.get_raw_button(4)
    }

    /// The left bumper: 1-based button 5.
    pub fn get_left_bumper(&self) -> (r: Result<bool, JoystickError>)
        ensures
            r matches Err(e) ==> (e == JoystickError::DataSourceUnreachable || e
                == JoystickError::ChannelOutOfRange),
    {
        self.get_raw_button(5)
    }

    /// The right bumper: 1-based button 6.
    pub fn get_right_bumper(&self) -> (r: Result<bool, JoystickError>)
        ensures
            r matches Err(e) ==> (e == JoystickError::DataSourceUnreachable || e
                == JoystickError::ChannelOutOfRange),
    {
        self.get_raw_button(6)
    }

    /// The back button: 1-based button 7.
    pub fn get_back(&self) -> (r: Result<bool, JoystickError>)
        ensures
            r matches Err(e) ==> (e == JoystickError::DataSourceUnreachable || e
                == JoystickError::ChannelOutOfRange),
    {
        self.get_raw_button(7)
    }

    /// The start button: 1-based button 8.
    pub fn get_start(&self) -> (r: Result<bool, JoystickError>)
        ensures
            r matches Err(e) ==> (e == JoystickError::DataSourceUnreachable || e
                == JoystickError::ChannelOutOfRange),
    {
        self.get_raw_button(8)
    }

    /// The left stick pressed in: 1-based button 9.
    pub fn get_left_stick_pressed(&self) -> (r: Result<bool, JoystickError>)
        ensures
            r matches Err(e) ==> (e == JoystickError::DataSourceUnreachable || e
                == JoystickError::ChannelOutOfRange),
    {
        self.get_raw_button(9)
    }

    /// The right stick pressed in: 1-based button 10.
    pub fn get_right_stick_pressed(&self) -> (r: Result<bool, JoystickError>)
        ensures
            r matches Err(e) ==> (e == JoystickError::DataSourceUnreachable || e
                == JoystickError::ChannelOutOfRange),
    {
        self.get_raw_button(10)
    }

    /// The left trigger: raw axis 2.
    pub fn get_left_trigger(&self) -> (r: Result<i32, JoystickError>)
        ensures
            r matches Err(e) ==> (e == JoystickError::DataSourceUnreachable || e
                == JoystickError::ChannelOutOfRange),
    {
        self.get_raw_axis(2)
    }

    /// The right trigger: raw axis 3.
    pub fn get_right_trigger(&self) -> (r: Result<i32, JoystickError>)
        ensures
            r matches Err(e) ==> (e == JoystickError::DataSourceUnreachable || e
                == JoystickError::ChannelOutOfRange),
    {
        self.get_raw_axis(3)
    }

    /// The left stick, X direction: raw axis 0.
    pub fn get_left_x(&self) -> (r: Result<i32, JoystickError>)
        ensures
            r matches Err(e) ==> (e == JoystickError::DataSourceUnreachable || e
                == JoystickError::ChannelOutOfRange),
    {
        self.get_raw_axis(0)
    }

    /// The left stick, Y direction: raw axis 10, out of line with the
    /// other axes' 0-to-5 numbering; confirm against the target
    /// hardware before relying on it.
    pub fn get_left_y(&self) -> (r: Result<i32, JoystickError>)
        ensures
            r matches Err(e) ==> (e == JoystickError::DataSourceUnreachable || e
                == JoystickError::ChannelOutOfRange),
    {
        self.get_raw_axis(10)
    }

    /// The right stick, X direction: raw axis 4.
    pub fn get_right_x(&self) -> (r: Result<i32, JoystickError>)
        ensures
            r matches Err(e) ==> (e == JoystickError::DataSourceUnreachable || e
                == JoystickError::ChannelOutOfRange),
    {
        self.get_raw_axis(4)
    }

    /// The right stick, Y direction: raw axis 5.
    pub fn get_right_y(&self) -> (r: Result<i32, JoystickError>)
        ensures
            r matches Err(e) ==> (e == JoystickError::DataSourceUnreachable || e
                == JoystickError::ChannelOutOfRange),
    {
        self.get_raw_axis(5)
    }

    /// The directional pad: POV hat 0.
    pub fn get_arrow_pad(&self) -> (r: Result<i16, JoystickError>)
        ensures
            r matches Err(e) ==> (e == JoystickError::DataSourceUnreachable || e
                == JoystickError::ChannelOutOfRange),
    {
        self.get_pov(0)
    }
}

} // verus!
