//! DMG joypad input.
//!
//! The joypad register (FF00 / P1) exposes an 8-button 2×4 matrix. The CPU
//! selects which row to read by writing to bits 4–5, then reads the button
//! states from bits 0–3 (active-low: 0 = pressed, 1 = released).
//!
//! ```text
//!   bit 5 (P15) = 0 → expose direction pad row  (Down / Up / Left / Right)
//!   bit 4 (P14) = 0 → expose action button row  (Start / Select / B / A)
//!   bits 3–0          button state for selected row(s), active-low
//! ```
//!
//! If both rows are selected simultaneously the lower nibble is the AND of
//! both rows, so a bit is 0 if *either* row has that bit pressed.
use vstd::prelude::*;

verus! {

/// The eight DMG buttons, named as they appear on the hardware.
#[derive(Copy, Clone, Debug, PartialEq, Eq, Structural)]
pub enum Button {
    // Direction pad
    Right,
    Left,
    Up,
    Down,
    // Action buttons
    A,
    B,
    Select,
    Start,
}

/// Select-bit mask for the direction row (P15): 0 = readable.
pub const SELECT_DPAD: u8 = 0x20;

/// Select-bit mask for the action row (P14): 0 = readable.
pub const SELECT_BUTTONS: u8 = 0x10;

/// Whether `button` sits on the direction-pad row.
pub open spec fn is_direction(button: Button) -> bool {
    button is Right || button is Left || button is Up || button is Down
}

/// Bit of `button` within its row: Down/Start = bit 3, Up/Select = bit 2,
/// Left/B = bit 1, Right/A = bit 0.
pub open spec fn mask_of(button: Button) -> u8 {
    match button {
        Button::Down | Button::Start => 8,
        Button::Up | Button::Select => 4,
        Button::Left | Button::B => 2,
        Button::Right | Button::A => 1,
    }
}

pub struct Joypad {
    /// Bits 5–4 as last written by the CPU (active-low row select).
    pub select: u8,
    /// Bits 3–0: Down / Up / Left / Right, active-low (0 = pressed).
    pub dpad: u8,
    /// Bits 3–0: Start / Select / B / A, active-low (0 = pressed).
    pub buttons: u8,
}

impl Joypad {
    /// Both rows deselected, every button released.
    pub open spec fn power_on() -> Joypad {
        Joypad { select: 0x30, dpad: 0x0F, buttons: 0x0F }
    }

    /// Button bits only ever occupy the lower nibble, select bits only 5–4.
    pub open spec fn wf(self) -> bool {
        &&& self.select & 0xCF == 0
        &&& self.dpad & 0xF0 == 0
        &&& self.buttons & 0xF0 == 0
    }

    /// The value a read of FF00 returns.
    pub open spec fn value(self) -> u8 {
        let d: u8 = if self.select & SELECT_DPAD == 0 { self.dpad } else { 0x0F };
        let b: u8 = if self.select & SELECT_BUTTONS == 0 { self.buttons } else { 0x0F };
        0xC0 | self.select | (0x0F & d & b)
    }

    /// Whether `button` is currently held.
    pub open spec fn is_pressed(self, button: Button) -> bool {
        if is_direction(button) {
            self.dpad & mask_of(button) == 0
        } else {
            self.buttons & mask_of(button) == 0
        }
    }

    /// Whether the row holding `button` is selected by the CPU.
    pub open spec fn row_selected(self, button: Button) -> bool {
        if is_direction(button) {
            self.select & SELECT_DPAD == 0
        } else {
            self.select & SELECT_BUTTONS == 0
        }
    }

    pub open spec fn pressed(self, button: Button) -> Joypad {
        if is_direction(button) {
            Joypad { dpad: self.dpad & !mask_of(button), ..self }
        } else {
            Joypad { buttons: self.buttons & !mask_of(button), ..self }
        }
    }

    pub open spec fn released(self, button: Button) -> Joypad {
        if is_direction(button) {
            Joypad { dpad: self.dpad | mask_of(button), ..self }
        } else {
            Joypad { buttons: self.buttons | mask_of(button), ..self }
        }
    }

    pub fn new() -> (j: Joypad)
        ensures
            j == Joypad::power_on(),
            j.wf(),
    {
        proof {
            lemma_select_bits(0);
        }
        Joypad { select: 0x30, dpad: 0x0F, buttons: 0x0F }
    }

    /// Read the current FF00 value.
    ///
    /// Bits 7–6 are unused and always read 1. Bits 5–4 reflect the select
    /// lines. Bits 3–0 are the AND of all enabled rows (active-low); a row
    /// that is not selected contributes all ones.
    pub fn read(&self) -> (v: u8)
        ensures
            v == self.value(),
    {
        let dpad: u8 = if (self.select & SELECT_DPAD) == 0 { self.dpad } else { 0x0F };
        let buttons: u8 = if (self.select & SELECT_BUTTONS) == 0 { self.buttons } else { 0x0F };
        0xC0 | self.select | (0x0F & dpad & buttons)
    }

    /// Handle a CPU write to FF00. Only bits 4–5 (the select lines) are
    /// writable; the lower nibble is read-only hardware output.
    pub fn write_select(&mut self, value: u8)
        requires
            old(self).wf(),
        ensures
            *final(self) == (Joypad { select: value & 0x30, ..*old(self) }),
            final(self).wf(),
    {
        proof {
            lemma_select_bits(value);
        }
        self.select = value & 0x30;
    }

    /// Record a button press from the host. Sets the button's bit to 0
    /// (active-low). Returns `true` when the joypad interrupt should fire —
    /// i.e. the button was previously released *and* its row is currently
    /// selected by the CPU.
    pub fn press(&mut self, button: Button) -> (fires: bool)
        requires
            old(self).wf(),
        ensures
            *final(self) == old(self).pressed(button),
            fires == (!old(self).is_pressed(button) && old(self).row_selected(button)),
            final(self).wf(),
    {
        let mask = Self::button_mask(button);
        proof {
            lemma_row_bits(self.dpad, mask);
            lemma_row_bits(self.buttons, mask);
        }
        match button {
            Button::Down | Button::Up | Button::Left | Button::Right => {
                let fires = (self.dpad & mask) != 0 && (self.select & SELECT_DPAD) == 0;
                self.dpad = self.dpad & !mask;
                fires
            },
            Button::Start | Button::Select | Button::B | Button::A => {
                let fires = (self.buttons & mask) != 0 && (self.select & SELECT_BUTTONS) == 0;
                self.buttons = self.buttons & !mask;
                fires
            },
        }
    }

    /// Record a button release from the host. Sets the button's bit back to
    /// 1 (active-low released). No interrupt fires on release.
    pub fn release(&mut self, button: Button)
        requires
            old(self).wf(),
        ensures
            *final(self) == old(self).released(button),
            final(self).wf(),
    {
        let mask = Self::button_mask(button);
        proof {
            lemma_row_bits(self.dpad, mask);
            lemma_row_bits(self.buttons, mask);
        }
        match button {
            Button::Down | Button::Up | Button::Left | Button::Right => {
                self.dpad = self.dpad | mask;
            },
            Button::Start | Button::Select | Button::B | Button::A => {
                self.buttons = self.buttons | mask;
            },
        }
    }

    /// Bit position within its row for each button.
    ///
    /// Both rows share the same bit layout:
    ///   bit 3 = Down  / Start
    ///   bit 2 = Up    / Select
    ///   bit 1 = Left  / B
    ///   bit 0 = Right / A
    fn button_mask(button: Button) -> (m: u8)
        ensures
            m == mask_of(button),
    {
        match button {
            Button::Down | Button::Start => 8,
            Button::Up | Button::Select => 4,
            Button::Left | Button::B => 2,
            Button::Right | Button::A => 1,
        }
    }
}

proof fn lemma_select_bits(v: u8)
    by (bit_vector)
    ensures
        v & 0x30 & 0xCF == 0,
        0x30u8 & 0xCF == 0,
        0x0Fu8 & 0xF0 == 0,
{
}

proof fn lemma_row_bits(x: u8, m: u8)
    by (bit_vector)
    requires
        m == 1 || m == 2 || m == 4 || m == 8,
    ensures
        x & 0xF0 == 0 ==> (x & !m) & 0xF0 == 0,
        x & 0xF0 == 0 ==> (x | m) & 0xF0 == 0,
        (x & !m) & m == 0,
        x & m != 0 ==> ((x & !m) | m) == x,
{
}

proof fn lemma_value_bits(s: u8, x: u8, y: u8, m: u8)
    by (bit_vector)
    requires
        m == 1 || m == 2 || m == 4 || m == 8,
        s & 0xCF == 0,
    ensures
        (0xC0u8 | s | (0x0F & (x & !m) & y)) & m == 0,
        (0xC0u8 | s | (0x0F & (x & !m) & y)) | m == (0xC0u8 | s | (0x0F & x & y)) | m,
        (0xC0u8 | s | (0x0F & y & (x & !m))) & m == 0,
        (0xC0u8 | s | (0x0F & y & (x & !m))) | m == (0xC0u8 | s | (0x0F & y & x)) | m,
{
}

impl Default for Joypad {
    fn default() -> (j: Self)
        ensures
            j == Joypad::power_on(),
    {
        Joypad::new()
    }
}

/// Pressing a button holds it, and releasing it again restores the joypad
/// exactly when the button was released before.
pub proof fn lemma_press_release_roundtrip(j: Joypad, button: Button)
    requires
        j.wf(),
        !j.is_pressed(button),
    ensures
        j.pressed(button).is_pressed(button),
        j.pressed(button).released(button) == j,
{
    lemma_row_bits(j.dpad, mask_of(button));
    lemma_row_bits(j.buttons, mask_of(button));
}

/// A pressed button reads as 0 on FF00 when its row is selected, and the
/// other bits of FF00 are left as they were.
pub proof fn lemma_pressed_reads_low(j: Joypad, button: Button)
    requires
        j.wf(),
        j.row_selected(button),
    ensures
        j.pressed(button).value() & mask_of(button) == 0,
        j.pressed(button).value() | mask_of(button) == j.value() | mask_of(button),
{
    let m = mask_of(button);
    let dm: u8 = if j.select & SELECT_DPAD == 0 { j.dpad } else { 0x0F };
    let bm: u8 = if j.select & SELECT_BUTTONS == 0 { j.buttons } else { 0x0F };
    if is_direction(button) {
        lemma_value_bits(j.select, j.dpad, bm, m);
    } else {
        lemma_value_bits(j.select, j.buttons, dm, m);
    }
}

proof fn lemma_row_read_bits(x: u8, m: u8)
    by (bit_vector)
    requires
        m == 1 || m == 2 || m == 4 || m == 8,
    ensures
        (0xD0u8 | (0x0Fu8 & (x & !m) & 0x0F)) & m == 0,
        (0xD0u8 | (0x0Fu8 & (x & !m) & 0x0F)) | m == (0xD0u8 | (0x0Fu8 & x & 0x0F)) | m,
        (0xD0u8 | (0x0Fu8 & (x | m) & 0x0F)) & m == m,
        (0xD0u8 | (0x0Fu8 & (x | m) & 0x0F)) & !m == (0xD0u8 | (0x0Fu8 & x & 0x0F)) & !m,
        (0xE0u8 | (0x0Fu8 & 0x0F & (x & !m))) & m == 0,
        (0xE0u8 | (0x0Fu8 & 0x0F & (x & !m))) | m == (0xE0u8 | (0x0Fu8 & 0x0F & x)) | m,
        (0xE0u8 | (0x0Fu8 & 0x0F & (x | m))) & m == m,
        (0xE0u8 | (0x0Fu8 & 0x0F & (x | m))) & !m == (0xE0u8 | (0x0Fu8 & 0x0F & x)) & !m,
        (0xC0u8 | 0x10u8) == 0xD0u8,
        (0xC0u8 | 0x20u8) == 0xE0u8,
        0x10u8 & 0x20u8 == 0,
        0x10u8 & 0x10u8 != 0,
        0x20u8 & 0x20u8 != 0,
        0x20u8 & 0x10u8 == 0,
{
}

/// The hardware layout of FF00.  With only the direction row selected (P1
/// written 0x10) Right, Left, Up and Down are bits 0, 1, 2 and 3; with only
/// the action row selected (0x20) A, B, Select and Start are bits 0, 1, 2
/// and 3.  Pressing a button clears exactly its bit of the read, releasing
/// it sets exactly that bit; the other bits stay as they were.
pub proof fn lemma_button_bits(j: Joypad, button: Button)
    requires
        j.wf(),
    ensures
        ({
            let bit: u8 = match button {
                Button::Right | Button::A => 0x01,
                Button::Left | Button::B => 0x02,
                Button::Up | Button::Select => 0x04,
                Button::Down | Button::Start => 0x08,
            };
            let row: u8 = if button is Right || button is Left || button is Up || button is Down {
                0x10
            } else {
                0x20
            };
            j.select == row ==> {
                &&& j.pressed(button).value() & bit == 0
                &&& j.pressed(button).value() | bit == j.value() | bit
                &&& j.released(button).value() & bit == bit
                &&& j.released(button).value() & !bit == j.value() & !bit
            }
        }),
{
    let m = mask_of(button);
    lemma_row_read_bits(j.dpad, m);
    lemma_row_read_bits(j.buttons, m);
    if j.select == 0x10 {
        assert(j.value() == (0xD0u8 | (0x0Fu8 & j.dpad & 0x0F)));
        if is_direction(button) {
            assert(j.pressed(button).value() == (0xD0u8 | (0x0Fu8 & (j.dpad & !m) & 0x0F)));
            assert(j.released(button).value() == (0xD0u8 | (0x0Fu8 & (j.dpad | m) & 0x0F)));
        }
    } else if j.select == 0x20 {
        assert(j.value() == (0xE0u8 | (0x0Fu8 & 0x0F & j.buttons)));
        if !is_direction(button) {
            assert(j.pressed(button).value() == (0xE0u8 | (0x0Fu8 & 0x0F & (j.buttons & !m))));
            assert(j.released(button).value() == (0xE0u8 | (0x0Fu8 & 0x0F & (j.buttons | m))));
        }
    }
}

} // verus!
