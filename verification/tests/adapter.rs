use egui_layer_shell::layer_shell::adapter::key_flags;
use egui_layer_shell::layer_shell::adapter::keyboard_modifiers;
use egui_layer_shell::layer_shell::adapter::pointer_button;
use egui_layer_shell::layer_shell::adapter::KeyFlags;
use egui_layer_shell::layer_shell::adapter::KeyPhase;
use egui_layer_shell::layer_shell::adapter::BUTTON_LEFT;

#[test]
fn press_and_release_are_not_repeats() {
    assert_eq!(key_flags(KeyPhase::Pressed), KeyFlags { pressed: true, repeat: false });
    assert_eq!(key_flags(KeyPhase::Released), KeyFlags { pressed: false, repeat: false });
}

#[test]
fn repeat_is_a_press() {
    assert_eq!(key_flags(KeyPhase::Repeated), KeyFlags { pressed: true, repeat: true });
}

#[test]
fn button_codes_map_in_order() {
    assert_eq!(BUTTON_LEFT, 0x110);
    assert_eq!(pointer_button(0x110), Some(egui::PointerButton::Primary));
    assert_eq!(pointer_button(0x111), Some(egui::PointerButton::Secondary));
    assert_eq!(pointer_button(0x112), Some(egui::PointerButton::Middle));
    assert_eq!(pointer_button(0x113), Some(egui::PointerButton::Extra1));
    assert_eq!(pointer_button(0x114), Some(egui::PointerButton::Extra2));
}

#[test]
fn other_codes_are_no_buttons() {
    assert_eq!(pointer_button(0), None);
    assert_eq!(pointer_button(0x10f), None);
    assert_eq!(pointer_button(0x115), None);
    assert_eq!(pointer_button(u32::MAX), None);
}

#[test]
fn command_follows_control() {
    assert_eq!(
        keyboard_modifiers(false, true, false),
        egui::Modifiers { alt: false, ctrl: true, shift: false, mac_cmd: false, command: true }
    );
    assert_eq!(
        keyboard_modifiers(true, false, true),
        egui::Modifiers { alt: true, ctrl: false, shift: true, mac_cmd: false, command: false }
    );
    assert_eq!(keyboard_modifiers(false, false, false), egui::Modifiers::default());
}
