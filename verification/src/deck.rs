//! Input from the deck: the frames that its buttons send over the serial
//! line, and what the companion does about a press.

use vstd::prelude::*;
use crate::app_state::AppState;
use crate::standalone::State;

verus! {

/// Byte that opens a button frame: `B`.
pub const BUTTON_FRAME_TAG: u8 = 66;
/// Value byte of a button frame that asks for "on": `1`.
pub const VALUE_ON: u8 = 49;
/// Value byte of a button frame that asks for "off": `0`.
pub const VALUE_OFF: u8 = 48;
/// Function key that toggles the microphone in the voice application (F13).
pub const MICRO_FUNCTION_KEY: u8 = 13;

/// The deck's buttons, named by the digit that identifies them in a frame.
#[derive(Clone, Copy, Debug, PartialEq, Eq, Structural)]
pub enum DeckButton {
    /// The microphone switch.
    B3,
    B4,
    B5,
    B6,
    B7,
    B8,
    B9,
}

/// A button frame: which button, and the value byte that came with it.
#[derive(Clone, Copy, Debug, PartialEq, Eq, Structural)]
pub struct DeckPress {
    pub button: DeckButton,
    pub value: u8,
}

/// What the desktop integration does about a press.
#[derive(Clone, Copy, Debug, PartialEq, Eq, Structural)]
pub enum DeckAction {
    /// Click the microphone key (F13) once.
    ClickMicroKey,
    /// Press the button's function key, hold it briefly, release it, and
    /// announce the press.
    TapMacroKey(DeckButton),
    /// Do nothing.
    Nothing,
}

/// The button that the digit `code` (`'3'` to `'9'`) names.
pub open spec fn button_of(code: u8) -> Option<DeckButton> {
    if code == 51 {
        Some(DeckButton::B3)
    } else if code == 52 {
        Some(DeckButton::B4)
    } else if code == 53 {
        Some(DeckButton::B5)
    } else if code == 54 {
        Some(DeckButton::B6)
    } else if code == 55 {
        Some(DeckButton::B7)
    } else if code == 56 {
        Some(DeckButton::B8)
    } else if code == 57 {
        Some(DeckButton::B9)
    } else {
        None
    }
}

/// The press that an 8-byte read buffer holds: after a read of at least one
/// byte, `B`, a button digit, any byte, and the value byte.
pub open spec fn press_of(buffer: Seq<u8>, read: nat) -> Option<DeckPress> {
    if read != 0 && buffer[0] == BUTTON_FRAME_TAG {
        match button_of(buffer[1]) {
            Some(b) => Some(DeckPress { button: b, value: buffer[3] }),
            None => None,
        }
    } else {
        None
    }
}

impl DeckButton {
    /// Number of the function key bound to the button: F13 for the microphone
    /// switch, F14 to F19 for the macro buttons.
    pub open spec fn spec_function_key(self) -> u8 {
        match self {
            DeckButton::B3 => 13,
            DeckButton::B4 => 14,
            DeckButton::B5 => 15,
            DeckButton::B6 => 16,
            DeckButton::B7 => 17,
            DeckButton::B8 => 18,
            DeckButton::B9 => 19,
        }
    }

    pub fn function_key(&self) -> (key: u8)
        ensures
            key == self.spec_function_key(),
    {
        match self {
            DeckButton::B3 => 13,
            DeckButton::B4 => 14,
            DeckButton::B5 => 15,
            DeckButton::B6 => 16,
            DeckButton::B7 => 17,
            DeckButton::B8 => 18,
            DeckButton::B9 => 19,
        }
    }
}

fn button_from_digit(code: u8) -> (b: Option<DeckButton>)
    ensures
        b == button_of(code),
{
    if code == 51 {
        Some(DeckButton::B3)
    } else if code == 52 {
        Some(DeckButton::B4)
    } else if code == 53 {
        Some(DeckButton::B5)
    } else if code == 54 {
        Some(DeckButton::B6)
    } else if code == 55 {
        Some(DeckButton::B7)
    } else if code == 56 {
        Some(DeckButton::B8)
    } else if code == 57 {
        Some(DeckButton::B9)
    } else {
        None
    }
}

/// Reads the press out of the deck's read buffer after a read of `read` bytes.
/// The buffer is read as a whole, whatever `read` is, once `read` is not 0.
pub fn parse_press(buffer: &[u8; 8], read: usize) -> (press: Option<DeckPress>)
    ensures
        press == press_of(buffer@, read as nat),
{
    if read != 0 && buffer[0] == BUTTON_FRAME_TAG {
        match button_from_digit(buffer[1]) {
            Some(b) => Some(DeckPress { button: b, value: buffer[3] }),
            None => None,
        }
    } else {
        None
    }
}

impl AppState {
    /// What a press asks of the desktop: the microphone switch clicks F13
    /// when Discord is not linked, and when it is linked only if the switch
    /// asks for a microphone state other than the current one; every other
    /// button taps its own function key.
    pub open spec fn spec_press_action(self, press: DeckPress) -> DeckAction {
        match press.button {
            DeckButton::B3 => if !self.is_discord_auth {
                DeckAction::ClickMicroKey
            } else if press.value == VALUE_ON && !self.is_micro_on {
                DeckAction::ClickMicroKey
            } else if press.value == VALUE_OFF && self.is_micro_on {
                DeckAction::ClickMicroKey
            } else {
                DeckAction::Nothing
            },
            b => DeckAction::TapMacroKey(b),
        }
    }

    pub fn press_action(&self, press: DeckPress) -> (action: DeckAction)
        ensures
            action == self.spec_press_action(press),
    {
        match press.button {
            DeckButton::B3 => {
                if self.is_discord_auth {
                    if press.value == VALUE_ON {
                        if !self.is_micro_on {
                            DeckAction::ClickMicroKey
                        } else {
                            DeckAction::Nothing
                        }
                    } else if press.value == VALUE_OFF {
                        if self.is_micro_on {
                            DeckAction::ClickMicroKey
                        } else {
                            DeckAction::Nothing
                        }
                    } else {
                        DeckAction::Nothing
                    }
                } else {
                    DeckAction::ClickMicroKey
                }
            },
            b => DeckAction::TapMacroKey(b),
        }
    }
}

impl State {
    /// The bridge's state after a press: the microphone switch sets the
    /// microphone on for `1`, off for `0`, and leaves it for any other value;
    /// other buttons change nothing.
    pub open spec fn after_press(self, press: DeckPress) -> State {
        if press.button == DeckButton::B3 && press.value == VALUE_ON {
            State { is_micro_on: true, ..self }
        } else if press.button == DeckButton::B3 && press.value == VALUE_OFF {
            State { is_micro_on: false, ..self }
        } else {
            self
        }
    }

    /// Applies a press; the result says whether the deck must be sent the
    /// state again, which the microphone switch always asks for.
    pub fn apply_press(&mut self, press: DeckPress) -> (resend: bool)
        ensures
            *final(self) == old(self).after_press(press),
            resend == (press.button == DeckButton::B3),
    {
        match press.button {
            DeckButton::B3 => {
                if press.value == VALUE_ON {
                    self.set_is_micro_on(true);
                } else if press.value == VALUE_OFF {
                    self.set_is_micro_on(false);
                }
                true
            },
            _ => false,
        }
    }
}

} // verus!
