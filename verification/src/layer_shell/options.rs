//! What the application asks of its layer surface, and the requests that set
//! the surface up accordingly before the first configure event.

use vstd::prelude::*;

verus! {

/// The depth at which a layer surface is shown, from the back to the front.
#[derive(Clone, Copy, Debug, PartialEq, Eq, Structural)]
pub enum Layer {
    Background,
    Bottom,
    Top,
    Overlay,
}

/// The edges of the output that a layer surface is anchored to.
#[derive(Clone, Copy, Debug, PartialEq, Eq, Structural)]
pub struct Anchor {
    pub top: bool,
    pub bottom: bool,
    pub left: bool,
    pub right: bool,
}

/// How a layer surface takes part in keyboard focus.
#[derive(Clone, Copy, Debug, PartialEq, Eq, Structural)]
pub enum KeyboardInteractivity {
    /// The surface never has keyboard focus.
    NoFocus,
    /// The surface has the keyboard to itself.
    Exclusive,
    /// The surface is focused as the compositor sees fit.
    OnDemand,
}

/// What the application asks of its layer surface.
#[derive(Debug)]
pub struct LayerShellOptions {
    /// The layer to show the surface in; the top layer if none is given.
    pub layer: Option<Layer>,
    /// The name by which the compositor knows the surface's purpose.
    pub namespace: String,
    /// The width asked for, in pixels; zero leaves it to the compositor.
    pub width: u32,
    /// The height asked for, in pixels; zero leaves it to the compositor.
    pub height: u32,
    /// The edges to anchor the surface to, if any.
    pub anchor: Option<Anchor>,
    /// How the surface takes part in keyboard focus, if it is to be said.
    pub keyboard_interactivity: Option<KeyboardInteractivity>,
}

/// One request that sets a layer surface up.
#[derive(Clone, Copy, Debug, PartialEq, Eq, Structural)]
pub enum SetupRequest {
    /// Anchor the surface to the given edges.
    SetAnchor(Anchor),
    /// Say how the surface takes part in keyboard focus.
    SetKeyboardInteractivity(KeyboardInteractivity),
    /// Ask for a size.
    SetSize { width: u32, height: u32 },
    /// Make the requests before this one take effect.
    Commit,
}

impl LayerShellOptions {
    /// The layer that the surface is made in: the one asked for, else the
    /// top layer.
    pub open spec fn layer_or_top(&self) -> Layer {
        match self.layer {
            Some(layer) => layer,
            None => Layer::Top,
        }
    }

    /// The requests that set the surface up, in the order in which they are
    /// made: the anchor and the keyboard interactivity where they are given,
    /// then the size, then a commit.
    pub open spec fn setup_plan(&self) -> Seq<SetupRequest> {
        let anchor = match self.anchor {
            Some(anchor) => seq![SetupRequest::SetAnchor(anchor)],
            None => Seq::empty(),
        };
        let keyboard = match self.keyboard_interactivity {
            Some(interactivity) => seq![SetupRequest::SetKeyboardInteractivity(interactivity)],
            None => Seq::empty(),
        };
        anchor + keyboard + seq![
            SetupRequest::SetSize { width: self.width, height: self.height },
            SetupRequest::Commit,
        ]
    }

    /// Computes [`LayerShellOptions::layer_or_top`].
    pub fn layer(&self) -> (layer: Layer)
        ensures
            layer == self.layer_or_top(),
    {
        match self.layer {
            Some(layer) => layer,
            None => Layer::Top,
        }
    }

    /// Computes [`LayerShellOptions::setup_plan`].
    pub fn setup_requests(&self) -> (requests: Vec<SetupRequest>)
        ensures
            requests@ == self.setup_plan(),
    {
        let mut requests: Vec<SetupRequest> = Vec::new();
        if let Some(anchor) = self.anchor {
            requests.push(SetupRequest::SetAnchor(anchor));
        }
        if let Some(interactivity) = self.keyboard_interactivity {
            requests.push(SetupRequest::SetKeyboardInteractivity(interactivity));
        }
        requests.push(SetupRequest::SetSize { width: self.width, height: self.height });
        requests.push(SetupRequest::Commit);
        assert(requests@ =~= self.setup_plan());
        requests
    }
}

impl Default for LayerShellOptions {
    /// Nothing asked for: no layer, an empty namespace, no size, no anchor,
    /// no keyboard interactivity.
    fn default() -> (options: LayerShellOptions)
        ensures
            options.layer is None,
            options.namespace@ == Seq::<char>::empty(),
            options.width == 0,
            options.height == 0,
            options.anchor is None,
            options.keyboard_interactivity is None,
    {
        LayerShellOptions {
            layer: None,
            namespace: String::new(),
            width: 0,
            height: 0,
            anchor: None,
            keyboard_interactivity: None,
        }
    }
}

/// The setup always ends with the size and a commit, and holds at most four
/// requests; with nothing asked for it is the size and the commit alone.
pub proof fn lemma_setup_ends_with_commit(options: LayerShellOptions)
    ensures
        2 <= options.setup_plan().len() <= 4,
        options.setup_plan().last() == SetupRequest::Commit,
        options.setup_plan()[options.setup_plan().len() - 2] == (SetupRequest::SetSize {
            width: options.width,
            height: options.height,
        }),
        options.anchor is None && options.keyboard_interactivity is None
            ==> options.setup_plan().len() == 2,
{
}

} // verus!
