use egui_layer_shell::layer_shell::options::Anchor;
use egui_layer_shell::layer_shell::options::KeyboardInteractivity;
use egui_layer_shell::layer_shell::options::Layer;
use egui_layer_shell::layer_shell::options::LayerShellOptions;
use egui_layer_shell::layer_shell::options::SetupRequest;

#[test]
fn default_options_ask_for_nothing() {
    let options = LayerShellOptions::default();
    assert_eq!(options.layer, None);
    assert_eq!(options.namespace, "");
    assert_eq!(options.width, 0);
    assert_eq!(options.height, 0);
    assert_eq!(options.anchor, None);
    assert_eq!(options.keyboard_interactivity, None);
}

#[test]
fn layer_defaults_to_top() {
    let mut options = LayerShellOptions::default();
    assert_eq!(options.layer(), Layer::Top);
    options.layer = Some(Layer::Overlay);
    assert_eq!(options.layer(), Layer::Overlay);
    options.layer = Some(Layer::Background);
    assert_eq!(options.layer(), Layer::Background);
}

#[test]
fn default_setup_is_size_and_commit() {
    let options = LayerShellOptions::default();
    assert_eq!(
        options.setup_requests(),
        vec![SetupRequest::SetSize { width: 0, height: 0 }, SetupRequest::Commit]
    );
}

#[test]
fn full_setup_is_anchor_keyboard_size_commit() {
    let anchor = Anchor { top: true, bottom: false, left: true, right: true };
    let options = LayerShellOptions {
        layer: Some(Layer::Bottom),
        namespace: "panel".to_owned(),
        width: 300,
        height: 200,
        anchor: Some(anchor),
        keyboard_interactivity: Some(KeyboardInteractivity::OnDemand),
    };
    assert_eq!(
        options.setup_requests(),
        vec![
            SetupRequest::SetAnchor(anchor),
            SetupRequest::SetKeyboardInteractivity(KeyboardInteractivity::OnDemand),
            SetupRequest::SetSize { width: 300, height: 200 },
            SetupRequest::Commit,
        ]
    );
}

#[test]
fn setup_leaves_out_what_is_not_given() {
    let mut options = LayerShellOptions::default();
    options.width = 64;
    options.keyboard_interactivity = Some(KeyboardInteractivity::Exclusive);
    assert_eq!(
        options.setup_requests(),
        vec![
            SetupRequest::SetKeyboardInteractivity(KeyboardInteractivity::Exclusive),
            SetupRequest::SetSize { width: 64, height: 0 },
            SetupRequest::Commit,
        ]
    );
    options.keyboard_interactivity = None;
    options.anchor = Some(Anchor { top: false, bottom: true, left: false, right: false });
    assert_eq!(options.setup_requests().len(), 3);
    assert_eq!(
        options.setup_requests()[0],
        SetupRequest::SetAnchor(Anchor { top: false, bottom: true, left: false, right: false })
    );
}
