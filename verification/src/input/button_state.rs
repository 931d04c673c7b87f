//! Which pointer buttons are down.
use vstd::prelude::*;

verus! {

/// The buttons of a pointing device.
#[derive(Debug, Clone, Copy, PartialEq, Eq, Structural)]
pub enum PointerButton {
    Primary,
    Secondary,
    Middle,
    Extra1,
    Extra2,
}

/// Which pointer buttons are held down.
#[derive(Debug, Clone, Copy)]
pub struct ButtonState {
    primary: bool,
    secondary: bool,
    middle: bool,
    extra1: bool,
    extra2: bool,
}

impl Default for ButtonState {
    fn default() -> (state: Self)
        ensures
            forall|button: PointerButton| !state.is_down(button),
    {
        Self::new()
    }
}

impl ButtonState {
    /// Whether `button` is held down.
    pub closed spec fn is_down(self, button: PointerButton) -> bool {
        match button {
            PointerButton::Primary => self.primary,
            PointerButton::Secondary => self.secondary,
            PointerButton::Middle => self.middle,
            PointerButton::Extra1 => self.extra1,
            PointerButton::Extra2 => self.extra2,
        }
    }

    /// No button is down.
    pub fn new() -> (state: Self)
        ensures
            forall|button: PointerButton| !state.is_down(button),
    {
        Self { primary: false, secondary: false, middle: false, extra1: false, extra2: false }
    }

    pub fn get(&self, button: PointerButton) -> (down: bool)
        ensures
            down == self.is_down(button),
    {
        match button {
            PointerButton::Primary => self.primary,
            PointerButton::Secondary => self.secondary,
            PointerButton::Middle => self.middle,
            PointerButton::Extra1 => self.extra1,
            PointerButton::Extra2 => self.extra2,
        }
    }

    /// Records whether `button` is down; the other buttons stay as they are.
    pub fn set(&mut self, button: PointerButton, value: bool)
        ensures
            forall|other: PointerButton|
                final(self).is_down(other) == (if other == button {
                    value
                } else {
                    old(self).is_down(other)
                }),
    {
        match button {
            PointerButton::Primary => self.primary = value,
            PointerButton::Secondary => self.secondary = value,
            PointerButton::Middle => self.middle = value,
            PointerButton::Extra1 => self.extra1 = value,
            PointerButton::Extra2 => self.extra2 = value,
        }
    }
}

} // verus!
