//! The interface engine's side of the driver, above all the input
//! accumulator: the events that wait for the next interface pass,
//! with the modifier keys and the surface size that go with them.

use crate::clock::Clock;
use egui_software_backend::ColorFieldOrder;
use egui_software_backend::EguiSoftwareRender;
use vstd::prelude::*;

verus! {

/// What the interface engine's state holds: the engine's handle and the
/// rasterizer, which it carries, and the accumulator's plain values.
pub struct InputModel {
    /// The interface engine's handle.
    pub context: egui::Context,
    /// The rasterizer.
    pub renderer: EguiSoftwareRender,
    /// The events pushed since the last take, oldest first.
    pub pending: Seq<egui::Event>,
    /// The modifier keys as last reported.
    pub modifiers: egui::Modifiers,
    /// The surface's width and height in pixels, once it was configured.
    pub size: Option<(u32, u32)>,
}

/// The state in which no modifier key is down.
pub open spec fn no_modifiers() -> egui::Modifiers {
    egui::Modifiers { alt: false, ctrl: false, shift: false, mac_cmd: false, command: false }
}

impl InputModel {
    /// The state at start, around the given handle and rasterizer: no event,
    /// no modifier key, no size.
    pub open spec fn initial(context: egui::Context, renderer: EguiSoftwareRender) -> InputModel {
        InputModel {
            context,
            renderer,
            pending: Seq::empty(),
            modifiers: no_modifiers(),
            size: None,
        }
    }

    /// With the rasterizer as it is after it was lent out.
    pub open spec fn with_renderer(self, renderer: EguiSoftwareRender) -> InputModel {
        InputModel { renderer, ..self }
    }

    /// After one more event was pushed.
    pub open spec fn pushed(self, event: egui::Event) -> InputModel {
        InputModel { pending: self.pending.push(event), ..self }
    }

    /// After each of `events` was pushed in turn.
    pub open spec fn pushed_all(self, events: Seq<egui::Event>) -> InputModel
        decreases events.len(),
    {
        if events.len() == 0 {
            self
        } else {
            self.pushed_all(events.drop_last()).pushed(events.last())
        }
    }

    /// After a take: the events are gone, the rest stays.
    pub open spec fn taken(self) -> InputModel {
        InputModel { pending: Seq::empty(), ..self }
    }

    /// After the surface was configured to `width` by `height`.
    pub open spec fn resized(self, width: u32, height: u32) -> InputModel {
        InputModel { size: Some((width, height)), ..self }
    }

    /// After the modifier keys changed to `modifiers`.
    pub open spec fn with_modifiers(self, modifiers: egui::Modifiers) -> InputModel {
        InputModel { modifiers, ..self }
    }
}

/// The input of one interface pass.
#[derive(Debug)]
pub struct InputBatch {
    /// The events of this pass, oldest first.
    pub events: Vec<egui::Event>,
    /// The modifier keys at the time of the take.
    pub modifiers: egui::Modifiers,
    /// The surface's width and height in pixels; the screen rectangle starts
    /// at the origin and has this extent.
    pub screen_size: Option<(u32, u32)>,
    /// Nanoseconds since the accumulator was made.
    pub time: u64,
}

impl InputBatch {
    /// Whether the batch is what a take at `time` hands out of `input`.
    pub open spec fn is_taken_from(&self, input: InputModel, time: u64) -> bool {
        &&& self.events@ == input.pending
        &&& self.modifiers == input.modifiers
        &&& self.screen_size == input.size
        &&& self.time == time
    }
}

/// The interface engine's side of the driver: its context, its rasterizer and
/// the input that waits for the next pass.
pub struct State {
    context: egui::Context,
    renderer: EguiSoftwareRender,
    clock: Clock,
    events: Vec<egui::Event>,
    modifiers: egui::Modifiers,
    size: Option<(u32, u32)>,
}

impl View for State {
    type V = InputModel;

    closed spec fn view(&self) -> InputModel {
        InputModel {
            context: self.context,
            renderer: self.renderer,
            pending: self.events@,
            modifiers: self.modifiers,
            size: self.size,
        }
    }
}

impl State {
    /// An empty accumulator around `context`, with a rasterizer that writes
    /// blue, green, red, alpha and draws straight into the frame.
    pub fn new(context: egui::Context) -> (state: State)
        ensures
            state@ == InputModel::initial(context, state@.renderer),
    {
        let renderer = EguiSoftwareRender::new(ColorFieldOrder::Bgra).with_convert_tris_to_rects(
            true,
        ).with_allow_raster_opt(true).with_caching(false);
        State {
            context,
            renderer,
            clock: Clock::start(),
            events: Vec::new(),
            modifiers: egui::Modifiers {
                alt: false,
                ctrl: false,
                shift: false,
                mac_cmd: false,
                command: false,
            },
            size: None,
        }
    }

    /// Records the surface's size. Pending events stay.
    pub fn set_size(&mut self, width: u32, height: u32)
        ensures
            final(self)@ == old(self)@.resized(width, height),
    {
        self.size = Some((width, height));
    }

    /// The surface's size, once it was configured.
    pub fn get_size(&self) -> (size: Option<(u32, u32)>)
        ensures
            size == self@.size,
    {
        self.size
    }

    /// The interface engine's handle: the one that the state was made
    /// around.
    pub fn context(&self) -> (context: &egui::Context)
        ensures
            *context == self@.context,
    {
        &self.context
    }

    /// Lends the state's rasterizer out. What the borrower leaves is the
    /// state's rasterizer afterwards; nothing else of the state changes.
    pub fn renderer(&mut self) -> (renderer: &mut EguiSoftwareRender)
        ensures
            *renderer == old(self)@.renderer,
            final(self)@ == old(self)@.with_renderer(*final(renderer)),
    {
        &mut self.renderer
    }

    /// The modifier keys as last reported.
    pub fn modifiers(&self) -> (modifiers: egui::Modifiers)
        ensures
            modifiers == self@.modifiers,
    {
        self.modifiers
    }

    /// Records a change of the modifier keys. Pending events stay.
    pub fn set_modifiers(&mut self, modifiers: egui::Modifiers)
        ensures
            final(self)@ == old(self)@.with_modifiers(modifiers),
    {
        self.modifiers = modifiers;
    }

    /// Appends one event to the pending batch.
    pub fn push_event(&mut self, event: egui::Event)
        ensures
            final(self)@ == old(self)@.pushed(event),
    {
        self.events.push(event);
    }

    /// Whether any event waits for the next pass.
    pub fn has_pending(&self) -> (pending: bool)
        ensures
            pending == (self@.pending.len() > 0),
    {
        self.events.len() > 0
    }

    /// Empties the accumulator and returns what it held, stamped `time`.
    pub fn take(&mut self, time: u64) -> (batch: InputBatch)
        ensures
            batch.is_taken_from(old(self)@, time),
            final(self)@ == old(self)@.taken(),
    {
        let mut events: Vec<egui::Event> = Vec::new();
        std::mem::swap(&mut self.events, &mut events);
        InputBatch { events, modifiers: self.modifiers, screen_size: self.size, time }
    }

    /// Empties the accumulator and returns what it held, stamped with the
    /// time since the accumulator was made.
    pub fn process_events(&mut self) -> (batch: InputBatch)
        ensures
            batch.is_taken_from(old(self)@, batch.time),
            final(self)@ == old(self)@.taken(),
    {
        let time = self.clock.now();
        self.take(time)
    }
}

/// Pushes only append: after any pushes the accumulator holds what it held
/// before, followed by the pushed events in push order, and its modifiers and
/// size are as before.
pub proof fn lemma_pushes_append(input: InputModel, events: Seq<egui::Event>)
    ensures
        input.pushed_all(events).pending == input.pending + events,
        input.pushed_all(events).modifiers == input.modifiers,
        input.pushed_all(events).size == input.size,
        input.pushed_all(events).context == input.context,
        input.pushed_all(events).renderer == input.renderer,
    decreases events.len(),
{
    if events.len() > 0 {
        lemma_pushes_append(input, events.drop_last());
        assert(input.pending + events =~= (input.pending + events.drop_last()).push(
            events.last(),
        ));
    } else {
        assert(input.pending + events =~= input.pending);
    }
}

/// A take hands out exactly the events pushed since the take before it, or
/// since the start, in push order, and leaves none behind.
pub proof fn lemma_take_returns_pushes(
    input: InputModel,
    events: Seq<egui::Event>,
    context: egui::Context,
    renderer: EguiSoftwareRender,
)
    ensures
        input.taken().pushed_all(events).pending == events,
        InputModel::initial(context, renderer).pushed_all(events).pending == events,
        input.pushed_all(events).taken().pending.len() == 0,
{
    lemma_pushes_append(input.taken(), events);
    lemma_pushes_append(InputModel::initial(context, renderer), events);
    assert(Seq::<egui::Event>::empty() + events =~= events);
}

/// A second take with no push in between hands out nothing and changes
/// nothing.
pub proof fn lemma_second_take_is_empty(input: InputModel)
    ensures
        input.taken().pending == Seq::<egui::Event>::empty(),
        input.taken().taken() == input.taken(),
{
}

/// Neither a take nor a new size touches what the other keeps: a take leaves
/// modifiers and size, and a new size leaves the pending events.
pub proof fn lemma_size_outlives_take(input: InputModel, width: u32, height: u32)
    ensures
        input.taken().size == input.size,
        input.taken().modifiers == input.modifiers,
        input.resized(width, height).pending == input.pending,
        input.resized(width, height).taken().size == Some((width, height)),
{
}

} // verus!
