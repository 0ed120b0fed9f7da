//! A verified capability layer for FRC human-interface devices.
//!
//! Many physically different input devices (generic joysticks, Xbox-style
//! controllers) share one contract for reading axes, buttons and POV hats and
//! for driving digital outputs and rumble motors. Each device variant owns a
//! shared state record ([`hid::GenericHIDData`]) and a channel mapping of its
//! own; the contract is implemented once, in terms of that record.
//!
//! Input values come from a Driver Station snapshot ([`ds::DsData`]) that a
//! background communication task updates and every device reads through a
//! shared, reader/writer-locked handle. Output-affecting calls mutate the
//! record's cached state and hand back the full port-scoped word
//! ([`hid::JoystickOutputs`]) that the caller transmits to the hardware layer.

pub mod ds;
pub mod hid;
pub mod joystick;
pub mod xbox;
