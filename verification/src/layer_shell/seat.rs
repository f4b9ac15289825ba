//! The input devices of the seat: which of them the driver holds, and what
//! it does when the seat gains or loses a capability.

use vstd::prelude::*;

verus! {

/// A kind of input device that a seat can offer.
#[derive(Clone, Copy, Debug, PartialEq, Eq, Structural)]
pub enum Capability {
    Keyboard,
    Pointer,
    Touch,
}

/// What the driver does about a device.
#[derive(Clone, Copy, Debug, PartialEq, Eq, Structural)]
pub enum SeatAction {
    /// Nothing changes.
    Nothing,
    /// Take the seat's pointer.
    AcquirePointer,
    /// Take the seat's keyboard, with key repeat.
    AcquireKeyboard,
    /// Give the pointer back.
    ReleasePointer,
    /// Give the keyboard back.
    ReleaseKeyboard,
}

/// The devices that the driver holds.
#[derive(Clone, Copy, Debug, PartialEq, Eq, Structural)]
pub struct SeatDevices {
    /// Whether the driver holds a pointer.
    pub pointer: bool,
    /// Whether the driver holds a keyboard.
    pub keyboard: bool,
}

impl SeatDevices {
    /// What to do when the seat gains `capability`: take a pointer or a
    /// keyboard that is not held yet, else nothing.
    pub open spec fn action_on_gain(self, capability: Capability) -> SeatAction {
        match capability {
            Capability::Pointer => if self.pointer {
                SeatAction::Nothing
            } else {
                SeatAction::AcquirePointer
            },
            Capability::Keyboard => if self.keyboard {
                SeatAction::Nothing
            } else {
                SeatAction::AcquireKeyboard
            },
            Capability::Touch => SeatAction::Nothing,
        }
    }

    /// What to do when the seat loses `capability`: give back a pointer or a
    /// keyboard that is held, else nothing.
    pub open spec fn action_on_loss(self, capability: Capability) -> SeatAction {
        match capability {
            Capability::Pointer => if self.pointer {
                SeatAction::ReleasePointer
            } else {
                SeatAction::Nothing
            },
            Capability::Keyboard => if self.keyboard {
                SeatAction::ReleaseKeyboard
            } else {
                SeatAction::Nothing
            },
            Capability::Touch => SeatAction::Nothing,
        }
    }

    /// The devices held once `action` is done.
    pub open spec fn after(self, action: SeatAction) -> SeatDevices {
        match action {
            SeatAction::Nothing => self,
            SeatAction::AcquirePointer => SeatDevices { pointer: true, ..self },
            SeatAction::AcquireKeyboard => SeatDevices { keyboard: true, ..self },
            SeatAction::ReleasePointer => SeatDevices { pointer: false, ..self },
            SeatAction::ReleaseKeyboard => SeatDevices { keyboard: false, ..self },
        }
    }

    /// The devices held after the seat gained `capability`.
    pub open spec fn gained(self, capability: Capability) -> SeatDevices {
        self.after(self.action_on_gain(capability))
    }

    /// The devices held after the seat lost `capability`.
    pub open spec fn lost(self, capability: Capability) -> SeatDevices {
        self.after(self.action_on_loss(capability))
    }

    /// No device held.
    pub open spec fn none() -> SeatDevices {
        SeatDevices { pointer: false, keyboard: false }
    }

    /// A seat of which no device is held.
    pub fn new() -> (devices: SeatDevices)
        ensures
            devices == SeatDevices::none(),
    {
        SeatDevices { pointer: false, keyboard: false }
    }

    /// The seat gained `capability`: says what to do and counts it as done.
    pub fn new_capability(&mut self, capability: Capability) -> (action: SeatAction)
        ensures
            action == old(self).action_on_gain(capability),
            *final(self) == old(self).gained(capability),
    {
        match capability {
            Capability::Pointer => {
                if self.pointer {
                    SeatAction::Nothing
                } else {
                    self.pointer = true;
                    SeatAction::AcquirePointer
                }
            },
            Capability::Keyboard => {
                if self.keyboard {
                    SeatAction::Nothing
                } else {
                    self.keyboard = true;
                    SeatAction::AcquireKeyboard
                }
            },
            Capability::Touch => SeatAction::Nothing,
        }
    }

    /// The seat lost `capability`: says what to do and counts it as done.
    pub fn remove_capability(&mut self, capability: Capability) -> (action: SeatAction)
        ensures
            action == old(self).action_on_loss(capability),
            *final(self) == old(self).lost(capability),
    {
        match capability {
            Capability::Pointer => {
                if self.pointer {
                    self.pointer = false;
                    SeatAction::ReleasePointer
                } else {
                    SeatAction::Nothing
                }
            },
            Capability::Keyboard => {
                if self.keyboard {
                    self.keyboard = false;
                    SeatAction::ReleaseKeyboard
                } else {
                    SeatAction::Nothing
                }
            },
            Capability::Touch => SeatAction::Nothing,
        }
    }
}

/// A device is never taken twice nor given back twice: once a capability was
/// gained, gaining it again does nothing, and likewise for losing it. A
/// missing device is no fault: losing what is not held does nothing.
pub proof fn lemma_devices_held_once(devices: SeatDevices, capability: Capability)
    ensures
        devices.gained(capability).action_on_gain(capability) == SeatAction::Nothing,
        devices.lost(capability).action_on_loss(capability) == SeatAction::Nothing,
        SeatDevices::none().action_on_loss(capability) == SeatAction::Nothing,
{
}

/// Losing a capability undoes gaining it: where gaining it took a device,
/// losing it gives that device back and the seat is as it was.
pub proof fn lemma_loss_undoes_gain(devices: SeatDevices, capability: Capability)
    requires
        devices.action_on_gain(capability) != SeatAction::Nothing,
    ensures
        devices.gained(capability).action_on_loss(capability) != SeatAction::Nothing,
        devices.gained(capability).lost(capability) == devices,
{
}

} // verus!
