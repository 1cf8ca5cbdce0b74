//! Joypad: two four-bit button rows (directions and actions) selected by a
//! two-bit select nibble. Button bits are active-low.

use vstd::prelude::*;

verus! {

/// Select bit for the action-button row (active-low).
pub const SELECT_BUTTON_BIT: u8 = 0x20;

/// Select bit for the direction-button row (active-low).
pub const SELECT_DIRECTION_BIT: u8 = 0x10;

/// One of the eight DMG buttons.
#[derive(Clone, Copy, PartialEq, Eq, Structural, Debug)]
pub enum JoypadButton {
    Right,
    Left,
    Up,
    Down,
    A,
    B,
    Select,
    Start,
}

/// Bit of `button` within its row (directions and actions each form a row).
pub open spec fn spec_button_bit(button: JoypadButton) -> u8 {
    match button {
        JoypadButton::Right => 0x01,
        JoypadButton::Left => 0x02,
        JoypadButton::Up => 0x04,
        JoypadButton::Down => 0x08,
        JoypadButton::A => 0x01,
        JoypadButton::B => 0x02,
        JoypadButton::Select => 0x04,
        JoypadButton::Start => 0x08,
    }
}

/// Whether `button` sits in the direction row.
pub open spec fn spec_is_direction(button: JoypadButton) -> bool {
    match button {
        JoypadButton::Right | JoypadButton::Left | JoypadButton::Up | JoypadButton::Down => true,
        _ => false,
    }
}

/// Ghost view of the joypad: select nibble and the two button rows.
pub ghost struct JoypadV {
    pub select: u8,
    pub direction: u8,
    pub action: u8,
}

impl JoypadV {
    /// What a read of register 0xFF00 returns: 0xFF masked by the selected
    /// row; with no row selected all bits read high.
    pub open spec fn spec_read(self) -> u8 {
        if self.select & SELECT_BUTTON_BIT == 0 {
            0xFFu8 & (self.action | 0xF0)
        } else if self.select & SELECT_DIRECTION_BIT == 0 {
            0xFFu8 & (self.direction | 0xF0)
        } else {
            0xFF
        }
    }
}

/// Joypad state.
pub struct Joypad {
    select_buttons: u8,
    direction_buttons: u8,
    action_buttons: u8,
}

impl View for Joypad {
    type V = JoypadV;

    closed spec fn view(&self) -> JoypadV {
        JoypadV {
            select: self.select_buttons,
            direction: self.direction_buttons,
            action: self.action_buttons,
        }
    }
}

impl Joypad {
    /// A joypad with neither row selected and every button released.
    pub fn new() -> (j: Joypad)
        ensures
            j@ == (JoypadV { select: 0x30, direction: 0x0F, action: 0x0F }),
    {
        Joypad { select_buttons: 0x30, direction_buttons: 0x0F, action_buttons: 0x0F }
    }

    /// Press `button`: clear its active-low bit in its row.
    pub fn press_button(&mut self, button: JoypadButton)
        ensures
            final(self)@ == (if spec_is_direction(button) {
                JoypadV {
                    direction: old(self)@.direction & !spec_button_bit(button),
                    ..old(self)@
                }
            } else {
                JoypadV { action: old(self)@.action & !spec_button_bit(button), ..old(self)@ }
            }),
    {
        match button {
            JoypadButton::Right => self.direction_buttons &= !0x01u8,
            JoypadButton::Left => self.direction_buttons &= !0x02u8,
            JoypadButton::Up => self.direction_buttons &= !0x04u8,
            JoypadButton::Down => self.direction_buttons &= !0x08u8,
            JoypadButton::A => self.action_buttons &= !0x01u8,
            JoypadButton::B => self.action_buttons &= !0x02u8,
            JoypadButton::Select => self.action_buttons &= !0x04u8,
            JoypadButton::Start => self.action_buttons &= !0x08u8,
        }
    }

    /// Release `button`: set its active-low bit in its row.
    pub fn release_button(&mut self, button: JoypadButton)
        ensures
            final(self)@ == (if spec_is_direction(button) {
                JoypadV { direction: old(self)@.direction | spec_button_bit(button), ..old(self)@ }
            } else {
                JoypadV { action: old(self)@.action | spec_button_bit(button), ..old(self)@ }
            }),
    {
        match button {
            JoypadButton::Right => self.direction_buttons |= 0x01,
            JoypadButton::Left => self.direction_buttons |= 0x02,
            JoypadButton::Up => self.direction_buttons |= 0x04,
            JoypadButton::Down => self.direction_buttons |= 0x08,
            JoypadButton::A => self.action_buttons |= 0x01,
            JoypadButton::B => self.action_buttons |= 0x02,
            JoypadButton::Select => self.action_buttons |= 0x04,
            JoypadButton::Start => self.action_buttons |= 0x08,
        }
    }

    /// Read register 0xFF00.
    pub fn read(&self) -> (r: u8)
        ensures
            r == self@.spec_read(),
    {
        let mut result: u8 = 0xFF;
        if (self.select_buttons & SELECT_BUTTON_BIT) == 0 {
            result &= self.action_buttons | 0xF0;
        } else if (self.select_buttons & SELECT_DIRECTION_BIT) == 0 {
            result &= self.direction_buttons | 0xF0;
        }
        result
    }

    /// Write register 0xFF00: only the two select bits are stored.
    pub fn write(&mut self, value: u8)
        ensures
            final(self)@ == (JoypadV { select: value & 0x30, ..old(self)@ }),
    {
        self.select_buttons = value & 0x30;
    }
}

} // verus!
