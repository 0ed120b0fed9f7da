//! The Driver Station's live input snapshot.
//!
//! [`DsData`] holds, per port, the raw axis, button and POV values that the
//! connected device last reported, plus the robot enable state. Devices never
//! own a snapshot; they read one coherent copy through a shared handle (see
//! [`crate::hid`]). Every lookup here is total: an index with no physical
//! input behind it is answered with [`JoystickError::ChannelOutOfRange`],
//! never with a substituted default.

use vstd::prelude::*;

verus! {

/// Why a read through the device capability contract failed.
#[derive(Clone, Copy, Debug, PartialEq, Eq, Structural)]
pub enum JoystickError {
    /// The shared input snapshot could not be locked for reading.
    DataSourceUnreachable,
    /// The requested axis, button or POV index has no corresponding
    /// physical input on the connected device.
    ChannelOutOfRange,
}

/// The robot enable state, consulted by control-loop callers; the device
/// capability layer itself never reads it.
#[derive(Clone, Copy, Debug, PartialEq, Eq, Structural)]
pub enum RobotState {
    Disabled,
    Enabled,
}

/// The inputs one connected device reports in a snapshot.
#[derive(Clone)]
pub struct JoystickInputs {
    /// Raw axis readings, one per 0-based axis index. A reading is the
    /// device's fixed-point word; scaling it to a unit range is the
    /// caller's concern, not this layer's.
    pub axes: Vec<i32>,
    /// `buttons[k]` is the pressed state of 1-based button `k + 1`.
    pub buttons: Vec<bool>,
    /// POV hat angles in degrees, one per 0-based hat index; `-1` means
    /// centered / no input.
    pub povs: Vec<i16>,
}

/// One coherent snapshot of every port's inputs.
#[derive(Clone)]
pub struct DsData {
    /// Per-port device inputs, indexed by port number.
    pub joysticks: Vec<JoystickInputs>,
    /// Whether the robot is currently enabled.
    pub state: RobotState,
}

impl DsData {
    /// The axis value this snapshot reports for `(port, axis)`.
    pub open spec fn spec_joystick_axis(&self, port: int, axis: int) -> Result<i32, JoystickError> {
        if 0 <= port < self.joysticks@.len() && 0 <= axis < self.joysticks@[port].axes@.len() {
            Ok(self.joysticks@[port].axes@[axis])
        } else {
            Err(JoystickError::ChannelOutOfRange)
        }
    }

    /// The pressed state this snapshot reports for 1-based button `button`
    /// on `port`.
    pub open spec fn spec_joystick_button(&self, port: int, button: int) -> Result<
        bool,
        JoystickError,
    > {
        if 0 <= port < self.joysticks@.len() && 1 <= button
            <= self.joysticks@[port].buttons@.len() {
            Ok(self.joysticks@[port].buttons@[button - 1])
        } else {
            Err(JoystickError::ChannelOutOfRange)
        }
    }

    /// The POV angle this snapshot reports for `(port, pov)`.
    pub open spec fn spec_joystick_pov(&self, port: int, pov: int) -> Result<i16, JoystickError> {
        if 0 <= port < self.joysticks@.len() && 0 <= pov < self.joysticks@[port].povs@.len() {
            Ok(self.joysticks@[port].povs@[pov])
        } else {
            Err(JoystickError::ChannelOutOfRange)
        }
    }

    /// Look up a raw axis value; exactly the stored value, untransformed.
    pub fn get_joystick_axis(&self, port: usize, axis: usize) -> (r: Result<i32, JoystickError>)
        ensures
            r == self.spec_joystick_axis(port as int, axis as int),
    {
        if port < self.joysticks.len() && axis < self.joysticks[port].axes.len() {
            Ok(self.joysticks[port].axes[axis])
        } else {
            Err(JoystickError::ChannelOutOfRange)
        }
    }

    /// Look up a 1-based button's pressed state; exactly the stored value.
    pub fn get_joystick_button(&self, port: usize, button: usize) -> (r: Result<
        bool,
        JoystickError,
    >)
        ensures
            r == self.spec_joystick_button(port as int, button as int),
    {
        if port < self.joysticks.len() && 1 <= button && button <= self.joysticks[port].buttons.len() {
            Ok(self.joysticks[port].buttons[button - 1])
        } else {
            Err(JoystickError::ChannelOutOfRange)
        }
    }

    /// Look up a POV hat angle; exactly the stored value.
    pub fn get_joystick_pov(&self, port: usize, pov: usize) -> (r: Result<i16, JoystickError>)
        ensures
            r == self.spec_joystick_pov(port as int, pov as int),
    {
        if port < self.joysticks.len() && pov < self.joysticks[port].povs.len() {
            Ok(self.joysticks[port].povs[pov])
        } else {
            Err(JoystickError::ChannelOutOfRange)
        }
    }

    /// The robot enable state of this snapshot.
    pub fn get_state(&self) -> (r: RobotState)
        ensures
            r == self.state,
    {
        self.state
    }
}

/// Reads are pass-through: for every pair the snapshot has an input for, the
/// lookup yields exactly the stored value, and for every pair it does not,
/// it yields `ChannelOutOfRange` — never a transformed or substituted value.
pub proof fn lemma_reads_pass_through(d: DsData, port: int, channel: int)
    ensures
        (0 <= port < d.joysticks@.len() && 0 <= channel < d.joysticks@[port].axes@.len())
            ==> d.spec_joystick_axis(port, channel) == Ok::<i32, JoystickError>(
            d.joysticks@[port].axes@[channel],
        ),
        !(0 <= port < d.joysticks@.len() && 0 <= channel < d.joysticks@[port].axes@.len())
            ==> d.spec_joystick_axis(port, channel) == Err::<i32, JoystickError>(
            JoystickError::ChannelOutOfRange,
        ),
        (0 <= port < d.joysticks@.len() && 1 <= channel <= d.joysticks@[port].buttons@.len())
            ==> d.spec_joystick_button(port, channel) == Ok::<bool, JoystickError>(
            d.joysticks@[port].buttons@[channel - 1],
        ),
        !(0 <= port < d.joysticks@.len() && 1 <= channel <= d.joysticks@[port].buttons@.len())
            ==> d.spec_joystick_button(port, channel) == Err::<bool, JoystickError>(
            JoystickError::ChannelOutOfRange,
        ),
        (0 <= port < d.joysticks@.len() && 0 <= channel < d.joysticks@[port].povs@.len())
            ==> d.spec_joystick_pov(port, channel) == Ok::<i16, JoystickError>(
            d.joysticks@[port].povs@[channel],
        ),
        !(0 <= port < d.joysticks@.len() && 0 <= channel < d.joysticks@[port].povs@.len())
            ==> d.spec_joystick_pov(port, channel) == Err::<i16, JoystickError>(
            JoystickError::ChannelOutOfRange,
        ),
{
}

} // verus!
