//! The rules by which the seat's raw events are put in the interface
//! engine's terms, as far as they are rules on plain values: which phase of
//! a key gives a press, which button a button code means, and how the
//! keyboard's modifier keys are reported.

use vstd::prelude::*;

verus! {

/// What happened to a key.
#[derive(Clone, Copy, Debug, PartialEq, Eq, Structural)]
pub enum KeyPhase {
    /// The key went down.
    Pressed,
    /// The key came up.
    Released,
    /// The key is held and repeats.
    Repeated,
}

/// How a key event is flagged for the interface engine.
#[derive(Clone, Copy, Debug, PartialEq, Eq, Structural)]
pub struct KeyFlags {
    /// Whether the key is down.
    pub pressed: bool,
    /// Whether the event comes from key repeat.
    pub repeat: bool,
}

/// The flags of a key event in the given phase. A repeat is a press: it has
/// no release of its own.
pub open spec fn flags_of(phase: KeyPhase) -> KeyFlags {
    match phase {
        KeyPhase::Pressed => KeyFlags { pressed: true, repeat: false },
        KeyPhase::Released => KeyFlags { pressed: false, repeat: false },
        KeyPhase::Repeated => KeyFlags { pressed: true, repeat: true },
    }
}

/// Computes [`flags_of`].
pub fn key_flags(phase: KeyPhase) -> (flags: KeyFlags)
    ensures
        flags == flags_of(phase),
{
    match phase {
        KeyPhase::Pressed => KeyFlags { pressed: true, repeat: false },
        KeyPhase::Released => KeyFlags { pressed: false, repeat: false },
        KeyPhase::Repeated => KeyFlags { pressed: true, repeat: true },
    }
}

/// The code of the left button in input event codes; the other four buttons
/// follow it.
pub const BUTTON_LEFT: u32 = 0x110;

/// The button that an input event code means: left, right, middle, side and
/// extra, in the order of their codes; no other code is a button that the
/// interface engine knows.
pub open spec fn button_of(code: u32) -> Option<egui::PointerButton> {
    if code == BUTTON_LEFT {
        Some(egui::PointerButton::Primary)
    } else if code == BUTTON_LEFT + 1 {
        Some(egui::PointerButton::Secondary)
    } else if code == BUTTON_LEFT + 2 {
        Some(egui::PointerButton::Middle)
    } else if code == BUTTON_LEFT + 3 {
        Some(egui::PointerButton::Extra1)
    } else if code == BUTTON_LEFT + 4 {
        Some(egui::PointerButton::Extra2)
    } else {
        None
    }
}

/// Computes [`button_of`].
pub fn pointer_button(code: u32) -> (button: Option<egui::PointerButton>)
    ensures
        button == button_of(code),
{
    if code == BUTTON_LEFT {
        Some(egui::PointerButton::Primary)
    } else if code == BUTTON_LEFT + 1 {
        Some(egui::PointerButton::Secondary)
    } else if code == BUTTON_LEFT + 2 {
        Some(egui::PointerButton::Middle)
    } else if code == BUTTON_LEFT + 3 {
        Some(egui::PointerButton::Extra1)
    } else if code == BUTTON_LEFT + 4 {
        Some(egui::PointerButton::Extra2)
    } else {
        None
    }
}

/// The modifier state for the interface engine on a platform other than the
/// Mac: alt, control and shift as the keyboard reports them, the command key
/// standing for control, and never a Mac command key.
pub open spec fn modifiers_of(alt: bool, ctrl: bool, shift: bool) -> egui::Modifiers {
    egui::Modifiers { alt, ctrl, shift, mac_cmd: false, command: ctrl }
}

/// Computes [`modifiers_of`].
pub fn keyboard_modifiers(alt: bool, ctrl: bool, shift: bool) -> (modifiers: egui::Modifiers)
    ensures
        modifiers == modifiers_of(alt, ctrl, shift),
{
    egui::Modifiers { alt, ctrl, shift, mac_cmd: false, command: ctrl }
}

/// Key repeat never yields a release: only a key that came up is flagged as
/// not pressed, and only a repeat is flagged as one.
pub proof fn lemma_repeat_is_press_only(phase: KeyPhase)
    ensures
        flags_of(phase).repeat ==> flags_of(phase).pressed,
        !flags_of(phase).pressed <==> phase == KeyPhase::Released,
        flags_of(phase).repeat <==> phase == KeyPhase::Repeated,
{
}

} // verus!
