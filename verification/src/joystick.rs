//! The generic joystick variant: a reassignable 5-slot channel map
//! (X, Y, Z, Twist, Throttle) over the shared capability contract, plus
//! predefined trigger and top buttons.
//!
//! Each named getter forwards to a raw-axis read through the current
//! mapping; reassigning one slot redirects that getter's reads without
//! affecting any other slot. By default Z and Twist share raw axis 2.

use vstd::prelude::*;

use crate::ds::DsData;
use crate::ds::JoystickError;
use crate::hid::GenericHID;
use crate::hid::GenericHIDData;
use crate::hid::GetHID;
use crate::hid::JoystickOutputs;
use crate::hid::ThreadSafeDs;

verus! {

broadcast use vstd::array::group_array_axioms;

/// The channel map slot a named getter consults: X, Y, Z, Twist and
/// Throttle, in that order.
pub const X_SLOT: usize = 0;

/// Slot of the Y mapping.
pub const Y_SLOT: usize = 1;

/// Slot of the Z mapping.
pub const Z_SLOT: usize = 2;

/// Slot of the Twist mapping.
pub const TWIST_SLOT: usize = 3;

/// Slot of the Throttle mapping.
pub const THROTTLE_SLOT: usize = 4;

/// The channel map a fresh joystick starts with: Z and Twist share raw
/// axis 2 by design.
pub open spec fn default_channels() -> Seq<usize> {
    seq![0usize, 1usize, 2usize, 2usize, 3usize]
}

/// Struct for almost any FRC-legal joystick: the shared state record and
/// a reassignable channel map.
pub struct Joystick {
    hid: GenericHIDData,
    axes: [usize; 5],
}

impl GetHID for Joystick {
    closed spec fn hid_data(&self) -> GenericHIDData {
        self.hid
    }

    closed spec fn with_hid(&self, hid: GenericHIDData) -> Joystick {
        Joystick { hid, axes: self.axes }
    }

    fn get_hid_data(&self) -> (r: &GenericHIDData) {
        &self.hid
    }

    fn get_hid_data_mut(&mut self) -> (r: &mut GenericHIDData) {
        &mut self.hid
    }

    proof fn lemma_with_hid(s: Joystick, hid: GenericHIDData) {
    }
}

impl GenericHID for Joystick {

}

impl Joystick {
    /// The current channel map: which raw axis each slot reads.
    pub closed spec fn channels(&self) -> Seq<usize> {
        self.axes@
    }

    /// Which raw-axis lookup the named getter of `slot` performs against
    /// snapshot `d`: the device's port and the slot's mapped channel.
    pub open spec fn spec_axis_read(&self, d: DsData, slot: int) -> Result<i32, JoystickError>
        recommends
            0 <= slot < 5,
    {
        d.spec_joystick_axis(self.hid_data()@.port as int, self.channels()[slot] as int)
    }

    /// The raw axis the X getter reads on a fresh joystick.
    pub const DEFAULT_X_AXIS: usize = 0;

    /// The raw axis the Y getter reads on a fresh joystick.
    pub const DEFAULT_Y_AXIS: usize = 1;

    /// The raw axis the Z getter reads on a fresh joystick.
    pub const DEFAULT_Z_AXIS: usize = 2;

    /// The raw axis the Twist getter reads on a fresh joystick: axis 2,
    /// shared with Z by design.
    pub const DEFAULT_TWIST_AXIS: usize = 2;

    /// The raw axis the Throttle getter reads on a fresh joystick.
    pub const DEFAULT_THROTTLE_AXIS: usize = 3;

    /// A joystick bound to `port` and the shared snapshot handle, with
    /// the default channel map and all-zero cached outputs.
    pub fn new(port: usize, ds: ThreadSafeDs) -> (j: Joystick)
        ensures
            j.channels() =~= default_channels(),
            j.hid_data()@ == (JoystickOutputs {
                port,
                outputs: 0u64,
                left_rumble: 0u16,
                right_rumble: 0u16,
            }),
            j.hid_data().spec_ds() == ds,
    {
        Joystick {
            hid: GenericHIDData::new(port, ds),
            axes: [
                Joystick::DEFAULT_X_AXIS,
                Joystick::DEFAULT_Y_AXIS,
                Joystick::DEFAULT_Z_AXIS,
                Joystick::DEFAULT_TWIST_AXIS,
                Joystick::DEFAULT_THROTTLE_AXIS,
            ],
        }
    }

    /// The raw axis the X getter currently reads.
    pub fn get_x_channel(&self) -> (r: usize)
        ensures
            r == self.channels()[X_SLOT as int],
    {
        self.axes[0]
    }

    /// Reassign the X getter to raw axis `channel`; no other slot and no
    /// cached output state moves.
    pub fn set_x_channel(&mut self, channel: usize)
        ensures
            final(self).channels() == old(self).channels().update(X_SLOT as int, channel),
            final(self).hid_data() == old(self).hid_data(),
    {
        self.axes[0] = channel;
    }

    /// The raw axis the Y getter currently reads.
    pub fn get_y_channel(&self) -> (r: usize)
        ensures
            r == self.channels()[Y_SLOT as int],
    {
        self.axes[1]
    }

    /// Reassign the Y getter to raw axis `channel`; no other slot and no
    /// cached output state moves.
    pub fn set_y_channel(&mut self, channel: usize)
        ensures
            final(self).channels() == old(self).channels().update(Y_SLOT as int, channel),
            final(self).hid_data() == old(self).hid_data(),
    {
        self.axes[1] = channel;
    }

    /// The raw axis the Z getter currently reads.
    pub fn get_z_channel(&self) -> (r: usize)
        ensures
            r == self.channels()[Z_SLOT as int],
    {
        self.axes[2]
    }

    /// Reassign the Z getter to raw axis `channel`; no other slot and no
    /// cached output state moves.
    pub fn set_z_channel(&mut self, channel: usize)
        ensures
            final(self).channels() == old(self).channels().update(Z_SLOT as int, channel),
            final(self).hid_data() == old(self).hid_data(),
    {
        self.axes[2] = channel;
    }

    /// The raw axis the Twist getter currently reads.
    pub fn get_twist_channel(&self) -> (r: usize)
        ensures
            r == self.channels()[TWIST_SLOT as int],
    {
        self.axes[3]
    }

    /// Reassign the Twist getter to raw axis `channel`; no other slot and
    /// no cached output state moves.
    pub fn set_twist_channel(&mut self, channel: usize)
        ensures
            final(self).channels() == old(self).channels().update(TWIST_SLOT as int, channel),
            final(self).hid_data() == old(self).hid_data(),
    {
        self.axes[3] = channel;
    }

    /// The raw axis the Throttle getter currently reads.
    pub fn get_throttle_channel(&self) -> (r: usize)
        ensures
            r == self.channels()[THROTTLE_SLOT as int],
    {
        self.axes[4]
    }

    /// Reassign the Throttle getter to raw axis `channel`; no other slot
    /// and no cached output state moves.
    pub fn set_throttle_channel(&mut self, channel: usize)
        ensures
            final(self).channels() == old(self).channels().update(THROTTLE_SLOT as int, channel),
            final(self).hid_data() == old(self).hid_data(),
    {
        self.axes[4] = channel;
    }

    /// Read the mapped axis of `slot` from snapshot `d`: the
    /// deterministic lookup behind the named getters, exactly the
    /// snapshot's value for this device's port and the slot's channel.
    pub fn get_axis_given(&self, d: &DsData, slot: usize) -> (r: Result<i32, JoystickError>)
        requires
            slot < 5,
        ensures
            r == self.spec_axis_read(*d, slot as int),
    {
        d.get_joystick_axis(self.get_port(), self.axes[slot])
    }

    /// Get the X value of the joystick through the current mapping.
    pub fn get_x(&self) -> (r: Result<i32, JoystickError>)
        ensures
            r matches Err(e) ==> (e == JoystickError::DataSourceUnreachable || e
                == JoystickError::ChannelOutOfRange),
    {
        self.get_raw_axis(self.axes[0])
    }

    /// Get the Y value of the joystick through the current mapping.
    pub fn get_y(&self) -> (r: Result<i32, JoystickError>)
        ensures
            r matches Err(e) ==> (e == JoystickError::DataSourceUnreachable || e
                == JoystickError::ChannelOutOfRange),
    {
        self.get_raw_axis(self.axes[1])
    }

    /// Get the Z value of the joystick through the current mapping.
    pub fn get_z(&self) -> (r: Result<i32, JoystickError>)
        ensures
            r matches Err(e) ==> (e == JoystickError::DataSourceUnreachable || e
                == JoystickError::ChannelOutOfRange),
    {
        self.get_raw_axis(self.axes[2])
    }

    /// Get the twist value of the joystick through the current mapping.
    pub fn get_twist(&self) -> (r: Result<i32, JoystickError>)
        ensures
            r matches Err(e) ==> (e == JoystickError::DataSourceUnreachable || e
                == JoystickError::ChannelOutOfRange),
    {
        self.get_raw_axis(self.axes[3])
    }

    /// Get the throttle value of the joystick through the current mapping.
    pub fn get_throttle(&self) -> (r: Result<i32, JoystickError>)
        ensures
            r matches Err(e) ==> (e == JoystickError::DataSourceUnreachable || e
                == JoystickError::ChannelOutOfRange),
    {
        self.get_raw_axis(self.axes[4])
    }

    /// The trigger: predefined as 1-based button 1.
    pub fn get_trigger(&self) -> (r: Result<bool, JoystickError>)
        ensures
            r matches Err(e) ==> (e == JoystickError::DataSourceUnreachable || e
                == JoystickError::ChannelOutOfRange),
    {
        self.get_raw_button(1)
    }

    /// The top button: predefined as 1-based button 2.
    pub fn get_top(&self) -> (r: Result<bool, JoystickError>)
        ensures
            r matches Err(e) ==> (e == JoystickError::DataSourceUnreachable || e
                == JoystickError::ChannelOutOfRange),
    {
        self.get_raw_button(2)
    }

    /// The X and Y values behind the derived magnitude and direction:
    /// X is read first, then Y, each through the current mapping; the
    /// first failure is propagated and the second read is not attempted.
    pub fn read_xy(&self) -> (r: Result<(i32, i32), JoystickError>)
        ensures
            r matches Err(e) ==> (e == JoystickError::DataSourceUnreachable || e
                == JoystickError::ChannelOutOfRange),
    {
        let x = match self.get_x() {
            Ok(v) => v,
            Err(e) => {
                return Err(e);
            },
        };
        let y = match self.get_y() {
            Ok(v) => v,
            Err(e) => {
                return Err(e);
            },
        };
        Ok((x, y))
    }
}

/// An output-affecting call replaces only the state record: the device
/// that [`GetHID::with_hid`] yields carries the new record and exactly
/// the channel map it had before.
pub broadcast proof fn lemma_with_hid_keeps_channels(j: Joystick, h: GenericHIDData)
    ensures
        (#[trigger] j.with_hid(h)).channels() == j.channels(),
        j.with_hid(h).hid_data() == h,
{
}

/// Reassigning the Y slot redirects the Y getter's lookup to the new raw
/// axis and leaves every other slot's lookup exactly as it was, on every
/// snapshot.
pub proof fn lemma_y_reassignment_isolated(j: Joystick, j2: Joystick, d: DsData, channel: usize)
    requires
        j.channels().len() == 5,
        j2.channels() == j.channels().update(Y_SLOT as int, channel),
        j2.hid_data() == j.hid_data(),
    ensures
        j2.spec_axis_read(d, Y_SLOT as int) == d.spec_joystick_axis(
            j.hid_data()@.port as int,
            channel as int,
        ),
        j2.spec_axis_read(d, X_SLOT as int) == j.spec_axis_read(d, X_SLOT as int),
        j2.spec_axis_read(d, Z_SLOT as int) == j.spec_axis_read(d, Z_SLOT as int),
        j2.spec_axis_read(d, TWIST_SLOT as int) == j.spec_axis_read(d, TWIST_SLOT as int),
        j2.spec_axis_read(d, THROTTLE_SLOT as int) == j.spec_axis_read(d, THROTTLE_SLOT as int),
{
}

/// With the default channel map, Z and Twist alias one raw axis: a Z
/// read and a Twist read of the same snapshot are the same lookup.
pub proof fn lemma_default_z_twist_alias(j: Joystick, d: DsData)
    requires
        j.channels() == default_channels(),
    ensures
        j.spec_axis_read(d, Z_SLOT as int) == j.spec_axis_read(d, TWIST_SLOT as int),
{
}

} // verus!
