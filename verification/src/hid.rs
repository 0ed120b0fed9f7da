//! The shared HID capability contract and per-device state record.
//!
//! [`GenericHIDData`] is the state every device variant carries: the port it
//! is bound to, a shared handle to the Driver Station snapshot, and the
//! cached output word (bitmask plus both rumble levels). [`GetHID`] is the
//! bridge a variant implements to expose that record; [`GenericHID`] is the
//! capability contract itself, implemented once here in terms of the record.
//!
//! Output-affecting calls mutate the cached state and return the full
//! [`JoystickOutputs`] word: the hardware layer's write primitive is
//! port-scoped and monolithic, so the caller transmits the whole word and
//! must never assume a partial write is possible.

use std::sync::Arc;
use std::sync::RwLock;
use vstd::prelude::*;

use crate::ds::DsData;
use crate::ds::JoystickError;

verus! {

/// A shared, concurrently readable handle to the live Driver Station
/// snapshot. Many devices hold clones of one handle; none owns it.
pub type ThreadSafeDs = Arc<RwLock<DsData>>;

#[verifier::external_type_specification]
#[verifier::external_body]
#[verifier::reject_recursive_types(T)]
pub struct ExRwLock<T: ?Sized>(RwLock<T>);

/// Relies on `std::sync::RwLock::try_read`: it yields shared access to the
/// guarded snapshot, or fails when a writer holds the lock or the lock is
/// poisoned. Which snapshot a successful read yields depends on the
/// concurrent writer, so nothing is promised of the `Ok` value.
#[verifier::external_body]
fn read_shared(ds: &ThreadSafeDs) -> (r: Result<DsData, JoystickError>)
    ensures
        r matches Err(e) ==> e == JoystickError::DataSourceUnreachable,
{
    match ds.try_read() {
        Ok(guard) => Ok(guard.clone()),
        Err(_) => Err(JoystickError::DataSourceUnreachable),
    }
}

/// Enum for addressing one physical side of a controller.
#[derive(Clone, Copy, Debug, PartialEq, Eq, Structural)]
pub enum JoystickSide {
    /// Left side of the controller while held upright.
    LeftHand,
    /// Right side of the controller while held upright.
    RightHand,
}

/// The full port-scoped word one hardware write transmits: the cached
/// output bitmask and both rumble levels, keyed by port. Every
/// output-affecting call returns the complete updated word, since the
/// hardware layer always transmits all of it together. It is also the
/// abstract view of a device's [`GenericHIDData`] record.
#[derive(Clone, Copy, Debug, PartialEq, Eq, Structural)]
pub struct JoystickOutputs {
    /// The physical connection slot the word is addressed to.
    pub port: usize,
    /// One bit per digital output channel; bit `k` holds the most recently
    /// requested value for output channel `k + 1`.
    pub outputs: u64,
    /// Left rumble level, always within `[0, 65535]`.
    pub left_rumble: u16,
    /// Right rumble level, always within `[0, 65535]`.
    pub right_rumble: u16,
}

/// Information that all HIDs have: the bound port, the shared handle to
/// the Driver Station snapshot, and the cached output state.
pub struct GenericHIDData {
    port: usize,
    ds: ThreadSafeDs,
    outputs: u64,
    left_rumble: u16,
    right_rumble: u16,
}

impl View for GenericHIDData {
    type V = JoystickOutputs;

    closed spec fn view(&self) -> JoystickOutputs {
        JoystickOutputs {
            port: self.port,
            outputs: self.outputs,
            left_rumble: self.left_rumble,
            right_rumble: self.right_rumble,
        }
    }
}

impl GenericHIDData {
    /// The shared snapshot handle this record reads through.
    pub closed spec fn spec_ds(&self) -> ThreadSafeDs {
        self.ds
    }

    /// The record whose cached output word is `w` and whose port and
    /// snapshot handle are this record's. Output-affecting calls describe
    /// their effect on a device as replacing its record with this.
    pub closed spec fn spec_with_word(&self, w: JoystickOutputs) -> GenericHIDData {
        GenericHIDData {
            port: w.port,
            outputs: w.outputs,
            left_rumble: w.left_rumble,
            right_rumble: w.right_rumble,
            ds: self.ds,
        }
    }

    /// A fresh record bound to `port` and to the shared snapshot handle,
    /// with all-zero cached outputs and rumble.
    pub fn new(port: usize, ds: ThreadSafeDs) -> (r: Self)
        ensures
            r@ == (JoystickOutputs { port, outputs: 0u64, left_rumble: 0u16, right_rumble: 0u16 }),
            r.spec_ds() == ds,
    {
        GenericHIDData { port, ds, outputs: 0, left_rumble: 0, right_rumble: 0 }
    }
}

/// In the all-zero bitmask a fresh record starts with, every output
/// channel reads as clear.
pub proof fn lemma_zero_word_clear(k: u64)
    requires
        k < 64,
    ensures
        !bit_set(0u64, k),
{
    assert(0u64 & (1u64 << k) == 0) by (bit_vector);
}

/// Whether bit `k` of bitmask `m` is set.
pub open spec fn bit_set(m: u64, k: u64) -> bool {
    m & (1u64 << k) != 0
}

/// The output word after requesting boolean `value` on 1-based output
/// `n`: bit `n - 1` is rewritten to `value`, everything else is kept.
pub open spec fn spec_set_output(s: JoystickOutputs, n: u64, value: bool) -> JoystickOutputs
    recommends
        1 <= n <= 64,
{
    JoystickOutputs {
        outputs: (s.outputs & !(1u64 << ((n - 1) as u64))) | (
        (if value {
            1u64
        } else {
            0u64
        }) << ((n - 1) as u64)),
        ..s
    }
}

/// `scaled` clamped into the representable rumble range `[0, 65535]`.
pub open spec fn clamp_level(scaled: i64) -> u16 {
    if scaled < 0 {
        0u16
    } else if scaled > 65535 {
        65535u16
    } else {
        scaled as u16
    }
}

/// The output word after a rumble request of pre-scaled magnitude
/// `scaled` on `side`: that side's field takes the clamped level,
/// everything else is kept.
pub open spec fn spec_set_rumble(s: JoystickOutputs, side: JoystickSide, scaled: i64) -> JoystickOutputs {
    match side {
        JoystickSide::LeftHand => JoystickOutputs { left_rumble: clamp_level(scaled), ..s },
        JoystickSide::RightHand => JoystickOutputs { right_rumble: clamp_level(scaled), ..s },
    }
}

/// Bridge between a device variant's own fields and the shared capability
/// contract: a variant exposes its state record, and [`GenericHID`] is
/// implemented once in terms of that record.
pub trait GetHID: Sized {
    /// The device's shared state record.
    spec fn hid_data(&self) -> GenericHIDData;

    /// The device with its state record replaced and everything the
    /// variant adds (such as a channel mapping) kept.
    spec fn with_hid(&self, hid: GenericHIDData) -> Self;

    /// Borrow the state record.
    fn get_hid_data(&self) -> (r: &GenericHIDData)
        ensures
            *r == self.hid_data(),
    ;

    /// Borrow the state record for mutation; only the record can change
    /// through the returned reference.
    fn get_hid_data_mut(&mut self) -> (r: &mut GenericHIDData)
        ensures
            *r == old(self).hid_data(),
            *final(self) == old(self).with_hid(*final(r)),
    ;

    /// Replacing the record through `with_hid` yields a device that
    /// carries exactly that record; every variant proves it of its own
    /// representation.
    proof fn lemma_with_hid(s: Self, hid: GenericHIDData)
        ensures
            s.with_hid(hid).hid_data() == hid,
    ;
}

/// The shared capability contract: axis, button and POV reads keyed by
/// this device's port, and output and rumble writes that mutate the
/// cached record and yield the full word to transmit.
pub trait GenericHID: GetHID {
    /// Read raw axis `axis` on this device's port from the shared
    /// snapshot: exactly the snapshot's stored value. Fails with
    /// `DataSourceUnreachable` when the snapshot cannot be locked and
    /// with `ChannelOutOfRange` when it has no such axis; no state is
    /// mutated either way.
    fn get_raw_axis(&self, axis: usize) -> (r: Result<i32, JoystickError>)
        ensures
            r matches Err(e) ==> (e == JoystickError::DataSourceUnreachable || e
                == JoystickError::ChannelOutOfRange),
    {
        match read_shared(&self.get_hid_data().ds) {
            Ok(d) => d.get_joystick_axis(self.get_hid_data().port, axis),
            Err(e) => Err(e),
        }
    }

    /// Read 1-based button `button` on this device's port from the shared
    /// snapshot: exactly the snapshot's stored value, under the same
    /// failure contract as `get_raw_axis`.
    fn get_raw_button(&self, button: usize) -> (r: Result<bool, JoystickError>)
        ensures
            r matches Err(e) ==> (e == JoystickError::DataSourceUnreachable || e
                == JoystickError::ChannelOutOfRange),
    {
        match read_shared(&self.get_hid_data().ds) {
            Ok(d) => d.get_joystick_button(self.get_hid_data().port, button),
            Err(e) => Err(e),
        }
    }

    /// Read POV hat `pov` on this device's port from the shared snapshot:
    /// the angle in degrees, or `-1` for centered, exactly as stored,
    /// under the same failure contract as `get_raw_axis`.
    fn get_pov(&self, pov: usize) -> (r: Result<i16, JoystickError>)
        ensures
            r matches Err(e) ==> (e == JoystickError::DataSourceUnreachable || e
                == JoystickError::ChannelOutOfRange),
    {
        match read_shared(&self.get_hid_data().ds) {
            Ok(d) => d.get_joystick_pov(self.get_hid_data().port, pov),
            Err(e) => Err(e),
        }
    }

    /// Request boolean `value` on 1-based output `output_number`: bit
    /// `output_number - 1` of the cached bitmask is rewritten and no
    /// other bit moves. Returns the full updated word for the caller to
    /// transmit to the hardware layer.
    fn set_output(&mut self, output_number: u64, value: bool) -> (w: JoystickOutputs)
        requires
            1 <= output_number <= 64,
        ensures
            *final(self) == old(self).with_hid(old(self).hid_data().spec_with_word(
                spec_set_output(old(self).hid_data()@, output_number, value),
            )),
            final(self).hid_data()@ == spec_set_output(old(self).hid_data()@, output_number, value),
            final(self).hid_data().spec_ds() == old(self).hid_data().spec_ds(),
            w == spec_set_output(old(self).hid_data()@, output_number, value),
    {
        let o: u64 = output_number - 1;
        let hid = self.get_hid_data_mut();
        hid.outputs = (hid.outputs & !(1u64 << o)) | ((if value {
            1u64
        } else {
            0u64
        }) << o);
        let w = JoystickOutputs {
            port: hid.port,
            outputs: hid.outputs,
            left_rumble: hid.left_rumble,
            right_rumble: hid.right_rumble,
        };
        proof {
            Self::lemma_with_hid(
                *old(self),
                old(self).hid_data().spec_with_word(
                    spec_set_output(old(self).hid_data()@, output_number, value),
                ),
            );
        }
        w
    }

    /// Replace the entire cached output bitmask in one step and return
    /// the full updated word for the caller to transmit.
    fn set_outputs(&mut self, value: u64) -> (w: JoystickOutputs)
        ensures
            *final(self) == old(self).with_hid(old(self).hid_data().spec_with_word(
                (JoystickOutputs { outputs: value, ..old(self).hid_data()@ }),
            )),
            final(self).hid_data()@ == (JoystickOutputs {
                outputs: value,
                ..old(self).hid_data()@
            }),
            final(self).hid_data().spec_ds() == old(self).hid_data().spec_ds(),
            w == (JoystickOutputs { outputs: value, ..old(self).hid_data()@ }),
    {
        let hid = self.get_hid_data_mut();
        hid.outputs = value;
        let w = JoystickOutputs {
            port: hid.port,
            outputs: hid.outputs,
            left_rumble: hid.left_rumble,
            right_rumble: hid.right_rumble,
        };
        proof {
            Self::lemma_with_hid(
                *old(self),
                old(self).hid_data().spec_with_word(
                    JoystickOutputs { outputs: value, ..old(self).hid_data()@ },
                ),
            );
        }
        w
    }

    /// Request rumble of pre-scaled magnitude `scaled` on `side`. The
    /// caller scales a unit intensity by 65535 beforehand; any
    /// out-of-range magnitude is silently clamped into `[0, 65535]`,
    /// never rejected. Only the addressed side's stored level changes.
    /// Returns the full updated word for the caller to transmit.
    fn set_rumble(&mut self, side: JoystickSide, scaled: i64) -> (w: JoystickOutputs)
        ensures
            *final(self) == old(self).with_hid(old(self).hid_data().spec_with_word(
                spec_set_rumble(old(self).hid_data()@, side, scaled),
            )),
            final(self).hid_data()@ == spec_set_rumble(old(self).hid_data()@, side, scaled),
            final(self).hid_data().spec_ds() == old(self).hid_data().spec_ds(),
            w == spec_set_rumble(old(self).hid_data()@, side, scaled),
    {
        let level: u16 = if scaled < 0 {
            0u16
        } else if scaled > 65535 {
            65535u16
        } else {
            scaled as u16
        };
        let hid = self.get_hid_data_mut();
        match side {
            JoystickSide::LeftHand => hid.left_rumble = level,
            JoystickSide::RightHand => hid.right_rumble = level,
        }
        let w = JoystickOutputs {
            port: hid.port,
            outputs: hid.outputs,
            left_rumble: hid.left_rumble,
            right_rumble: hid.right_rumble,
        };
        proof {
            Self::lemma_with_hid(
                *old(self),
                old(self).hid_data().spec_with_word(
                    spec_set_rumble(old(self).hid_data()@, side, scaled),
                ),
            );
        }
        w
    }

    /// The port this device is bound to; pure, never fails.
    fn get_port(&self) -> (r: usize)
        ensures
            r == self.hid_data()@.port,
    {
        self.get_hid_data().port
    }
}

/// Requesting one output touches only its own bit: bit `n - 1` takes
/// exactly the requested value, every other bit and every other field of
/// the word are unchanged.
pub proof fn lemma_set_output_isolates(s: JoystickOutputs, n: u64, value: bool, i: u64)
    requires
        1 <= n <= 64,
        i < 64,
    ensures
        i == n - 1 ==> bit_set(spec_set_output(s, n, value).outputs, i) == value,
        i != n - 1 ==> bit_set(spec_set_output(s, n, value).outputs, i) == bit_set(s.outputs, i),
        spec_set_output(s, n, value).port == s.port,
        spec_set_output(s, n, value).left_rumble == s.left_rumble,
        spec_set_output(s, n, value).right_rumble == s.right_rumble,
{
    let m = s.outputs;
    let k = (n - 1) as u64;
    let v = if value {
        1u64
    } else {
        0u64
    };
    assert(i == k && v == 1 ==> ((m & !(1u64 << k)) | (v << k)) & (1u64 << i) != 0) by (bit_vector)
        requires
            k < 64,
            i < 64,
    ;
    assert(i == k && v == 0 ==> ((m & !(1u64 << k)) | (v << k)) & (1u64 << i) == 0) by (bit_vector)
        requires
            k < 64,
            i < 64,
    ;
    assert(i != k ==> (((m & !(1u64 << k)) | (v << k)) & (1u64 << i) != 0) == (m & (1u64 << i)
        != 0)) by (bit_vector)
        requires
            k < 64,
            i < 64,
            v == 0 || v == 1,
    ;
}

/// Setting an output on and then off restores the whole output word,
/// provided that output's bit was clear to begin with; a word whose bit
/// is already set ends with it cleared instead.
pub proof fn lemma_set_output_round_trip(s: JoystickOutputs, n: u64)
    requires
        1 <= n <= 64,
        !bit_set(s.outputs, (n - 1) as u64),
    ensures
        spec_set_output(spec_set_output(s, n, true), n, false) == s,
{
    let m = s.outputs;
    let k = (n - 1) as u64;
    assert(m & (1u64 << k) == 0 ==> (((m & !(1u64 << k)) | (1u64 << k)) & !(1u64 << k)) | (0u64
        << k) == m) by (bit_vector)
        requires
            k < 64,
    ;
}

/// A rumble request targets one side only: the addressed field takes the
/// clamped level, the other side's stored value and every other field of
/// the word are unchanged.
pub proof fn lemma_set_rumble_one_side(s: JoystickOutputs, side: JoystickSide, scaled: i64)
    ensures
        side == JoystickSide::LeftHand ==> spec_set_rumble(s, side, scaled) == (JoystickOutputs {
            left_rumble: clamp_level(scaled),
            ..s
        }),
        side == JoystickSide::RightHand ==> spec_set_rumble(s, side, scaled) == (JoystickOutputs {
            right_rumble: clamp_level(scaled),
            ..s
        }),
        clamp_level(scaled) <= 65535,
        0 <= scaled <= 65535 ==> clamp_level(scaled) == scaled,
        scaled > 65535 ==> clamp_level(scaled) == 65535,
        scaled < 0 ==> clamp_level(scaled) == 0,
{
}

} // verus!
