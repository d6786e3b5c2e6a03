//! The joypad: an 8-button matrix read through register 0xFF00, with two
//! selectable nibbles (direction keys and action buttons) and press-edge
//! detection for the joypad interrupt.

use vstd::prelude::*;

verus! {

/// The pressed state of all eight buttons.
#[derive(Clone, Copy, PartialEq, Eq, Structural, Debug)]
pub struct JoypadButtons {
    pub a: bool,
    pub b: bool,
    pub start: bool,
    pub select: bool,
    pub up: bool,
    pub down: bool,
    pub left: bool,
    pub right: bool,
}

impl JoypadButtons {
    /// No button pressed.
    pub fn new() -> (r: JoypadButtons)
        ensures
            r == (JoypadButtons {
                a: false,
                b: false,
                start: false,
                select: false,
                up: false,
                down: false,
                left: false,
                right: false,
            }),
    {
        JoypadButtons {
            a: false,
            b: false,
            start: false,
            select: false,
            up: false,
            down: false,
            left: false,
            right: false,
        }
    }
}

/// Joypad state: current presses and which button group register 0xFF00
/// selects (a 0 bit in the written value selects the group).
pub struct Joypad {
    pub buttons: JoypadButtons,
    pub direction_selected: bool,
    pub button_selected: bool,
}

/// Whether a new press appears in `new` that `old` did not have.
pub open spec fn spec_press_edge(o: JoypadButtons, n: JoypadButtons) -> bool {
    (!o.a && n.a) || (!o.b && n.b) || (!o.start && n.start) || (!o.select && n.select) || (!o.up
        && n.up) || (!o.down && n.down) || (!o.left && n.left) || (!o.right && n.right)
}

/// The byte register 0xFF00 reads as: bits 7-6 set, bits 5 and 4 clear for
/// a selected group, and in the low nibble a 0 for each pressed button of
/// each selected group (direction keys: Down/Up/Left/Right in bits 3-0;
/// action buttons: Start/Select/B/A in bits 3-0).
pub open spec fn spec_joypad_byte(j: Joypad) -> u8 {
    let r0: u8 = 0xCF;
    let r1: u8 = if !j.button_selected {
        r0 | 0x20
    } else {
        r0
    };
    let r2: u8 = if !j.direction_selected {
        r1 | 0x10
    } else {
        r1
    };
    let r3: u8 = if j.direction_selected && j.buttons.down {
        r2 & 0xF7
    } else {
        r2
    };
    let r4: u8 = if j.direction_selected && j.buttons.up {
        r3 & 0xFB
    } else {
        r3
    };
    let r5: u8 = if j.direction_selected && j.buttons.left {
        r4 & 0xFD
    } else {
        r4
    };
    let r6: u8 = if j.direction_selected && j.buttons.right {
        r5 & 0xFE
    } else {
        r5
    };
    let r7: u8 = if j.button_selected && j.buttons.start {
        r6 & 0xF7
    } else {
        r6
    };
    let r8: u8 = if j.button_selected && j.buttons.select {
        r7 & 0xFB
    } else {
        r7
    };
    let r9: u8 = if j.button_selected && j.buttons.b {
        r8 & 0xFD
    } else {
        r8
    };
    if j.button_selected && j.buttons.a {
        r9 & 0xFE
    } else {
        r9
    }
}

impl Joypad {
    /// Reset state: nothing pressed and neither group selected.
    pub fn new() -> (r: Joypad)
        ensures
            r.buttons == (JoypadButtons {
                a: false,
                b: false,
                start: false,
                select: false,
                up: false,
                down: false,
                left: false,
                right: false,
            }),
            !r.direction_selected,
            !r.button_selected,
    {
        Joypad { buttons: JoypadButtons::new(), direction_selected: false, button_selected: false }
    }

    /// Replaces the pressed state; returns true exactly when some button
    /// went from released to pressed, which raises the joypad interrupt.
    pub fn update_buttons(&mut self, buttons: JoypadButtons) -> (pressed: bool)
        ensures
            final(self).buttons == buttons,
            final(self).direction_selected == old(self).direction_selected,
            final(self).button_selected == old(self).button_selected,
            pressed == spec_press_edge(old(self).buttons, buttons),
    {
        let old_buttons = self.buttons;
        self.buttons = buttons;
        (!old_buttons.a && buttons.a) || (!old_buttons.b && buttons.b) || (!old_buttons.start
            && buttons.start) || (!old_buttons.select && buttons.select) || (!old_buttons.up
            && buttons.up) || (!old_buttons.down && buttons.down) || (!old_buttons.left
            && buttons.left) || (!old_buttons.right && buttons.right)
    }

    /// Reads register 0xFF00 for the currently selected groups; with no
    /// group selected the low nibble reads all ones.
    pub fn read_register(&self) -> (r: u8)
        ensures
            r == spec_joypad_byte(*self),
    {
        let mut result: u8 = 0xCF;
        if !self.button_selected {
            result = result | 0x20;
        }
        if !self.direction_selected {
            result = result | 0x10;
        }
        if self.direction_selected {
            if self.buttons.down {
                result = result & 0xF7;
            }
            if self.buttons.up {
                result = result & 0xFB;
            }
            if self.buttons.left {
                result = result & 0xFD;
            }
            if self.buttons.right {
                result = result & 0xFE;
            }
        }
        if self.button_selected {
            if self.buttons.start {
                result = result & 0xF7;
            }
            if self.buttons.select {
                result = result & 0xFB;
            }
            if self.buttons.b {
                result = result & 0xFD;
            }
            if self.buttons.a {
                result = result & 0xFE;
            }
        }
        result
    }

    /// Writes register 0xFF00: only bits 5 and 4 matter, and a 0 selects
    /// the action-button or direction group respectively.
    pub fn write_register(&mut self, value: u8)
        ensures
            final(self).buttons == old(self).buttons,
            final(self).button_selected == (value & 0x20 == 0),
            final(self).direction_selected == (value & 0x10 == 0),
    {
        self.button_selected = (value & 0x20) == 0;
        self.direction_selected = (value & 0x10) == 0;
    }

    /// Whether any button is held at all.
    pub fn any_button_pressed(&self) -> (r: bool)
        ensures
            r == (self.buttons.a || self.buttons.b || self.buttons.start || self.buttons.select
                || self.buttons.up || self.buttons.down || self.buttons.left
                || self.buttons.right),
    {
        self.buttons.a || self.buttons.b || self.buttons.start || self.buttons.select
            || self.buttons.up || self.buttons.down || self.buttons.left || self.buttons.right
    }
}

} // verus!
