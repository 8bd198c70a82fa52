//! The diagnostic character display: geometry and transmission-buffer
//! checks for a back-lit character panel behind an I2C expander.
//!
//! The panel itself is driven outside the library; this model owns the
//! configured geometry, the cursor, and the backlight state, and decides —
//! exactly — which requests are rejected. Display errors are always
//! recoverable and reported as a typed result; the control core never
//! depends on a print succeeding.

use vstd::prelude::*;

verus! {

use vstd::string::StringSliceAdditionalSpecFns;

/// The fixed transmission buffer: text of this many bytes or more cannot be
/// sent in one piece.
pub const LCD_BUFFER_SIZE: usize = 32;

/// Why a display request was rejected.
#[derive(Clone, Copy, PartialEq, Eq, Structural, Debug)]
pub enum LiquidCrystalError {
    /// The text exceeds the fixed transmission buffer.
    BufferOverflow,
    /// A size or cursor coordinate exceeds the configured geometry: the
    /// offending value, then the configured bound.
    InvalidSize(u8, u8),
}

/// The backlight switch.
#[derive(Clone, Copy, PartialEq, Eq, Structural, Debug)]
pub enum Backlight {
    On,
    Off,
}

/// A character display of `cols` by `rows`, addressed over I2C.
pub struct LiquidCrystal {
    addr: u8,
    cols: u8,
    rows: u8,
    cursor_col: u8,
    cursor_row: u8,
    backlight_on: bool,
}

impl LiquidCrystal {
    pub closed spec fn spec_addr(&self) -> u8 {
        self.addr
    }

    pub closed spec fn spec_cols(&self) -> u8 {
        self.cols
    }

    pub closed spec fn spec_rows(&self) -> u8 {
        self.rows
    }

    pub closed spec fn spec_cursor(&self) -> (u8, u8) {
        (self.cursor_col, self.cursor_row)
    }

    pub closed spec fn spec_backlight_on(&self) -> bool {
        self.backlight_on
    }

    /// A display with the given bus address and geometry, cursor at the
    /// origin, backlight off.
    pub fn new(addr: u8, cols: u8, rows: u8) -> (d: LiquidCrystal)
        ensures
            d.spec_addr() == addr,
            d.spec_cols() == cols,
            d.spec_rows() == rows,
            d.spec_cursor() == (0u8, 0u8),
            !d.spec_backlight_on(),
    {
        LiquidCrystal { addr, cols, rows, cursor_col: 0, cursor_row: 0, backlight_on: false }
    }

    /// Switch the backlight.
    pub fn backlight(&mut self, b: Backlight)
        ensures
            final(self).spec_backlight_on() == (b is On),
            final(self).spec_addr() == old(self).spec_addr(),
            final(self).spec_cols() == old(self).spec_cols(),
            final(self).spec_rows() == old(self).spec_rows(),
            final(self).spec_cursor() == old(self).spec_cursor(),
    {
        match b {
            Backlight::On => self.backlight_on = true,
            Backlight::Off => self.backlight_on = false,
        }
    }

    /// Blank the panel; the cursor returns to the origin.
    pub fn clear(&mut self)
        ensures
            final(self).spec_cursor() == (0u8, 0u8),
            final(self).spec_addr() == old(self).spec_addr(),
            final(self).spec_cols() == old(self).spec_cols(),
            final(self).spec_rows() == old(self).spec_rows(),
            final(self).spec_backlight_on() == old(self).spec_backlight_on(),
    {
        self.cursor_col = 0;
        self.cursor_row = 0;
    }

    /// Move the cursor. A coordinate that exceeds the configured geometry is
    /// rejected — the column check first — and the display is unchanged.
    pub fn set_cursor(&mut self, x: u8, y: u8) -> (r: Result<(), LiquidCrystalError>)
        ensures
            x > old(self).spec_cols() ==> r == Err::<(), LiquidCrystalError>(
                LiquidCrystalError::InvalidSize(x, old(self).spec_cols()),
            ) && *final(self) == *old(self),
            x <= old(self).spec_cols() && y > old(self).spec_rows() ==> r == Err::<
                (),
                LiquidCrystalError,
            >(LiquidCrystalError::InvalidSize(y, old(self).spec_rows())) && *final(self) == *old(self),
            x <= old(self).spec_cols() && y <= old(self).spec_rows() ==> r is Ok && final(self).spec_cursor() == (x, y) && final(self).spec_addr() == old(self).spec_addr() && final(self).spec_cols() == old(self).spec_cols() && final(self).spec_rows() == old(self).spec_rows() && final(self).spec_backlight_on() == old(self).spec_backlight_on(),
    {
        if x > self.cols {
            return Err(LiquidCrystalError::InvalidSize(x, self.cols));
        }
        if y > self.rows {
            return Err(LiquidCrystalError::InvalidSize(y, self.rows));
        }
        self.cursor_col = x;
        self.cursor_row = y;
        Ok(())
    }

    /// Send text to the panel at the current cursor. Text that would not fit
    /// the transmission buffer is rejected as an overflow; text wider than
    /// the configured column count is rejected as an invalid size; anything
    /// shorter goes through. The checks count bytes, as the wire does.
    pub fn print(&mut self, s: &str) -> (r: Result<(), LiquidCrystalError>)
        ensures
            *final(self) == *old(self),
            s.spec_bytes().len() >= LCD_BUFFER_SIZE ==> r == Err::<(), LiquidCrystalError>(
                LiquidCrystalError::BufferOverflow,
            ),
            s.spec_bytes().len() < LCD_BUFFER_SIZE && s.spec_bytes().len() >= old(self).spec_cols() ==> r == Err::<(), LiquidCrystalError>(
                LiquidCrystalError::InvalidSize(
                    s.spec_bytes().len() as u8,
                    old(self).spec_cols(),
                ),
            ),
            s.spec_bytes().len() < LCD_BUFFER_SIZE && s.spec_bytes().len() < old(self).spec_cols()
                ==> r is Ok,
    {
        let bytes = s.as_bytes();
        let len = bytes.len();
        if len >= LCD_BUFFER_SIZE {
            return Err(LiquidCrystalError::BufferOverflow);
        }
        if len >= self.cols as usize {
            return Err(LiquidCrystalError::InvalidSize(len as u8, self.cols));
        }
        Ok(())
    }
}

} // verus!
