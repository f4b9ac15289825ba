use egui_layer_shell::layer_shell::seat::Capability;
use egui_layer_shell::layer_shell::seat::SeatAction;
use egui_layer_shell::layer_shell::seat::SeatDevices;

#[test]
fn new_seat_holds_nothing() {
    assert_eq!(SeatDevices::new(), SeatDevices { pointer: false, keyboard: false });
}

#[test]
fn pointer_is_acquired_once() {
    let mut seat = SeatDevices::new();
    assert_eq!(seat.new_capability(Capability::Pointer), SeatAction::AcquirePointer);
    assert_eq!(seat, SeatDevices { pointer: true, keyboard: false });
    assert_eq!(seat.new_capability(Capability::Pointer), SeatAction::Nothing);
    assert_eq!(seat, SeatDevices { pointer: true, keyboard: false });
}

#[test]
fn keyboard_is_acquired_once() {
    let mut seat = SeatDevices::new();
    assert_eq!(seat.new_capability(Capability::Keyboard), SeatAction::AcquireKeyboard);
    assert_eq!(seat, SeatDevices { pointer: false, keyboard: true });
    assert_eq!(seat.new_capability(Capability::Keyboard), SeatAction::Nothing);
}

#[test]
fn touch_is_ignored() {
    let mut seat = SeatDevices::new();
    assert_eq!(seat.new_capability(Capability::Touch), SeatAction::Nothing);
    assert_eq!(seat.remove_capability(Capability::Touch), SeatAction::Nothing);
    assert_eq!(seat, SeatDevices::new());
}

#[test]
fn removing_a_held_device_releases_it() {
    let mut seat = SeatDevices { pointer: true, keyboard: true };
    assert_eq!(seat.remove_capability(Capability::Pointer), SeatAction::ReleasePointer);
    assert_eq!(seat, SeatDevices { pointer: false, keyboard: true });
    assert_eq!(seat.remove_capability(Capability::Keyboard), SeatAction::ReleaseKeyboard);
    assert_eq!(seat, SeatDevices { pointer: false, keyboard: false });
}

#[test]
fn removing_a_missing_device_is_no_error() {
    let mut seat = SeatDevices::new();
    assert_eq!(seat.remove_capability(Capability::Pointer), SeatAction::Nothing);
    assert_eq!(seat.remove_capability(Capability::Keyboard), SeatAction::Nothing);
    assert_eq!(seat, SeatDevices::new());
}

#[test]
fn device_can_come_back() {
    let mut seat = SeatDevices::new();
    assert_eq!(seat.new_capability(Capability::Pointer), SeatAction::AcquirePointer);
    assert_eq!(seat.remove_capability(Capability::Pointer), SeatAction::ReleasePointer);
    assert_eq!(seat.new_capability(Capability::Pointer), SeatAction::AcquirePointer);
}
