//! Control core for a motorized multi-axis camera dolly (slider, pan, tilt).
//!
//! The library holds the verified logic of the firmware: the monotonic tick
//! counters that the hardware-timer interrupts drive, the joystick-to-command
//! linear map, the recorded start/end pose (`Range`) with its validity
//! invariant, the five-state motion-control state machine, the timed
//! interpolation of a move, and the step-pulse generator. Everything that
//! touches hardware registers, pins, the serial port or the remote-control
//! receiver lives outside, hands this library plain values, and acts on the
//! plain values it gets back.

pub mod clock;
pub mod display;
pub mod dolly;
pub mod interp;
pub mod io;
pub mod irremote;
pub mod joystick;
pub mod motion;
pub mod position;
pub mod slot;
pub mod switch;
