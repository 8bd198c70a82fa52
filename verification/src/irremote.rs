//! The remote control surface: raw protocol codes decoded into the discrete
//! commands the control loop understands.
//!
//! The timing-based demodulation of the infrared signal is an external
//! decoder's job, run from interrupt context; it hands this module one raw
//! command code at a time through `capture`. The mapping from raw codes to
//! commands is configuration data — the literal table in `spec_decode` —
//! not derived.

use vstd::prelude::*;

verus! {

use crate::slot::CommandSlot;

/// A directional-pad key.
#[derive(Clone, Copy, PartialEq, Eq, Structural, Debug)]
pub enum Dir {
    Up,
    Down,
    Left,
    Right,
}

/// A decoded remote command: numeric keys, the directional pad, OK, and the
/// two modifier keys.
#[derive(Clone, Copy, PartialEq, Eq, Structural, Debug)]
pub enum Command {
    Number(u8),
    OkKey,
    Direction(Dir),
    Asterisc,
    Numeral,
}

/// The configured code table of the remote in use: which raw protocol code
/// stands for which command. Codes outside the table decode to nothing.
pub open spec fn spec_decode(code: u8) -> Option<Command> {
    match code {
        82u8 => Some(Command::Number(0)),
        22u8 => Some(Command::Number(1)),
        25u8 => Some(Command::Number(2)),
        13u8 => Some(Command::Number(3)),
        12u8 => Some(Command::Number(4)),
        24u8 => Some(Command::Number(5)),
        94u8 => Some(Command::Number(6)),
        8u8 => Some(Command::Number(7)),
        28u8 => Some(Command::Number(8)),
        90u8 => Some(Command::Number(9)),
        64u8 => Some(Command::OkKey),
        68u8 => Some(Command::Direction(Dir::Left)),
        70u8 => Some(Command::Direction(Dir::Up)),
        67u8 => Some(Command::Direction(Dir::Right)),
        21u8 => Some(Command::Direction(Dir::Down)),
        66u8 => Some(Command::Asterisc),
        74u8 => Some(Command::Numeral),
        _ => None,
    }
}

/// Decode one raw protocol code by the configured table.
pub fn decode(code: u8) -> (r: Option<Command>)
    ensures
        r == spec_decode(code),
{
    match code {
        82u8 => Some(Command::Number(0)),
        22u8 => Some(Command::Number(1)),
        25u8 => Some(Command::Number(2)),
        13u8 => Some(Command::Number(3)),
        12u8 => Some(Command::Number(4)),
        24u8 => Some(Command::Number(5)),
        94u8 => Some(Command::Number(6)),
        8u8 => Some(Command::Number(7)),
        28u8 => Some(Command::Number(8)),
        90u8 => Some(Command::Number(9)),
        64u8 => Some(Command::OkKey),
        68u8 => Some(Command::Direction(Dir::Left)),
        70u8 => Some(Command::Direction(Dir::Up)),
        67u8 => Some(Command::Direction(Dir::Right)),
        21u8 => Some(Command::Direction(Dir::Down)),
        66u8 => Some(Command::Asterisc),
        74u8 => Some(Command::Numeral),
        _ => None,
    }
}

/// The remote-control command source: the interrupt-side decoder deposits
/// raw codes through `capture`, the main loop drains and decodes them
/// through `get_cmd`.
pub struct IRRemote {
    slot: CommandSlot,
}

impl IRRemote {
    /// The raw code waiting to be read, if any.
    pub closed spec fn spec_pending(&self) -> Option<u8> {
        self.slot.spec_pending()
    }

    /// A remote with nothing pending.
    pub fn new() -> (r: IRRemote)
        ensures
            r.spec_pending() is None,
    {
        IRRemote { slot: CommandSlot::new() }
    }

    /// Deposit a raw code from the decoder (interrupt context on the
    /// device). A still-unread code is overwritten: last-writer-wins.
    pub fn capture(&mut self, code: u8)
        ensures
            final(self).spec_pending() == Some(code),
    {
        self.slot.set(code);
    }

    /// Drain the pending code, if any, and decode it by the configured
    /// table. At most one command per call; the slot is empty afterwards.
    pub fn get_cmd(&mut self) -> (r: Option<Command>)
        ensures
            old(self).spec_pending() matches Some(code) ==> r == spec_decode(code),
            old(self).spec_pending() is None ==> r is None,
            final(self).spec_pending() is None,
    {
        match self.slot.take() {
            Some(code) => decode(code),
            None => None,
        }
    }
}

} // verus!
