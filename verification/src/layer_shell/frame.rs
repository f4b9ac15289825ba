//! The frame driver: it decides on every turn of the event loop whether a
//! frame is owed, and takes a frame through its steps.
//!
//! A frame needs the surface's permission, which the driver has after the
//! first configure and after every frame callback and loses when it starts a
//! frame, and a reason: pending input or a scheduled repaint that is due.

use crate::buffer::surface_fault;
use crate::buffer::BufferLayout;
use crate::buffer::FrameError;
use crate::clock::Clock;
use crate::inbox::RepaintInbox;
use crate::egui_state::InputBatch;
use crate::egui_state::InputModel;
use crate::egui_state::State;
use crate::outside::set_repaint_hook;
use crate::scheduler::RepaintScheduler;
use crate::layer_shell::seat::Capability;
use crate::layer_shell::seat::SeatAction;
use crate::layer_shell::seat::SeatDevices;
use crate::layer_shell::surface::commit_plan;
use crate::layer_shell::surface::commit_sequence;
use crate::layer_shell::surface::SurfaceRequest;
use egui_software_backend::EguiSoftwareRender;
use vstd::prelude::*;

verus! {

/// What the driver holds, as plain values.
pub struct DriverModel {
    /// Whether the surface is ready to receive a frame.
    pub frame_permission: bool,
    /// Whether the surface was configured at least once.
    pub configured: bool,
    /// Whether the surface was closed.
    pub exit: bool,
    /// The interface engine's state, with the input that waits for the next
    /// pass.
    pub input: InputModel,
    /// The driver's handle on the repaint inbox.
    pub inbox: RepaintInbox,
    /// The scheduled repaint.
    pub scheduler: RepaintScheduler,
    /// The input devices held.
    pub seat: SeatDevices,
}

impl DriverModel {
    /// The driver at start, around the given state and inbox: no permission,
    /// not configured, not closed, nothing scheduled, no device.
    pub open spec fn initial(input: InputModel, inbox: RepaintInbox) -> DriverModel {
        DriverModel {
            frame_permission: false,
            configured: false,
            exit: false,
            input,
            inbox,
            scheduler: RepaintScheduler::Idle,
            seat: SeatDevices::none(),
        }
    }

    /// After the driver learned of `request`, the latest repaint request made
    /// through the inbox, if there was one: it replaces what was scheduled.
    pub open spec fn absorbed(self, request: Option<u64>) -> DriverModel {
        match request {
            Some(time) => DriverModel { scheduler: self.scheduler.requested(time), ..self },
            None => self,
        }
    }

    /// After a configure event for `width` by `height` at time `now`. The
    /// first one grants the permission and schedules a pass for `now`, so
    /// that the surface gets its first frame; every one sets the size.
    pub open spec fn configured_at(self, width: u32, height: u32, now: u64) -> DriverModel {
        if self.configured {
            DriverModel { input: self.input.resized(width, height), ..self }
        } else {
            DriverModel {
                configured: true,
                frame_permission: true,
                scheduler: self.scheduler.requested(now),
                input: self.input.resized(width, height),
                ..self
            }
        }
    }

    /// After a frame callback: the surface is ready for a frame.
    pub open spec fn frame_granted(self) -> DriverModel {
        DriverModel { frame_permission: true, ..self }
    }

    /// After the surface was closed.
    pub open spec fn closed(self) -> DriverModel {
        DriverModel { exit: true, ..self }
    }

    /// After one more input event.
    pub open spec fn pushed(self, event: egui::Event) -> DriverModel {
        DriverModel { input: self.input.pushed(event), ..self }
    }

    /// With the input replaced.
    pub open spec fn with_input(self, input: InputModel) -> DriverModel {
        DriverModel { input, ..self }
    }

    /// Whether a frame is owed at time `now`: the surface permits one, and
    /// input is pending or a scheduled repaint is due.
    pub open spec fn should_draw(self, now: u64) -> bool {
        self.frame_permission && (self.input.pending.len() > 0 || self.scheduler.due(now))
    }

    /// How long the event loop may wait from `now`, if it need not wait for
    /// the surface alone.
    pub open spec fn timeout(self, now: u64) -> Option<u64> {
        self.scheduler.timeout(now, self.frame_permission)
    }

    /// After a frame was started: the permission is used up, nothing is
    /// scheduled and the input is taken.
    pub open spec fn frame_started(self) -> DriverModel {
        DriverModel {
            frame_permission: false,
            scheduler: self.scheduler.cleared(),
            input: self.input.taken(),
            ..self
        }
    }

    /// Whether a frame is started at time `now`: one is owed, and the
    /// surface has not been closed.
    pub open spec fn admits_frame(self, now: u64) -> bool {
        !self.exit && self.should_draw(now)
    }

    /// After a frame was started at `now` if one is admitted then.
    pub open spec fn frame_admitted(self, now: u64) -> DriverModel {
        if self.admits_frame(now) {
            self.frame_started()
        } else {
            self
        }
    }

    /// The width and height of the next frame's buffer: those of the surface
    /// as it is now, or the reason why it can have no frame.
    pub open spec fn frame_size(self) -> Result<(u32, u32), FrameError> {
        match self.input.size {
            None => Err(FrameError::NotConfigured),
            Some((width, height)) => match surface_fault(width, height) {
                Some(fault) => Err(fault),
                None => Ok((width, height)),
            },
        }
    }

    /// After the seat gained `capability`.
    pub open spec fn seat_gained(self, capability: Capability) -> DriverModel {
        DriverModel { seat: self.seat.gained(capability), ..self }
    }

    /// After the seat lost `capability`.
    pub open spec fn seat_lost(self, capability: Capability) -> DriverModel {
        DriverModel { seat: self.seat.lost(capability), ..self }
    }

    /// Whether `self` is `before` after some request, or none, was absorbed.
    pub open spec fn synced_from(self, before: DriverModel) -> bool {
        exists|request: Option<u64>| self == #[trigger] before.absorbed(request)
    }

    /// Whether `self` is `before` after some request, or none, was absorbed
    /// and a configure event for `width` by `height` was handled at some time.
    pub open spec fn configured_from(self, before: DriverModel, width: u32, height: u32) -> bool {
        exists|request: Option<u64>, now: u64|
            self == #[trigger] before.absorbed(request).configured_at(width, height, now)
    }

    /// Whether `owed` is the answer to "is a frame owed?" at some time.
    pub open spec fn decides(self, owed: bool) -> bool {
        exists|now: u64| owed == #[trigger] self.should_draw(now)
    }

    /// Whether `wait` is the event loop's timeout at some time.
    pub open spec fn allows(self, wait: Option<u64>) -> bool {
        exists|now: u64| wait == #[trigger] self.timeout(now)
    }

    /// Whether `self` is `before` after some request, or none, was absorbed
    /// and a frame was then admitted at some time, with `started` telling
    /// whether one was.
    pub open spec fn admitted_from(self, before: DriverModel, started: bool) -> bool {
        exists|request: Option<u64>, now: u64|
            {
                &&& self == #[trigger] before.absorbed(request).frame_admitted(now)
                &&& started == before.absorbed(request).admits_frame(now)
            }
    }
}

/// How to produce and present the frame in hand: the layout of its buffer,
/// and the requests that present the buffer once it is painted.
#[derive(Debug)]
pub struct FramePlan {
    /// The layout of the buffer to acquire from the pool.
    pub layout: BufferLayout,
    /// The requests to the surface, in the order in which they are made.
    pub requests: Vec<SurfaceRequest>,
}

impl FramePlan {
    /// A plan is coherent when its requests are those that present a buffer
    /// of exactly its layout.
    pub open spec fn wf(&self) -> bool {
        self.requests@ == commit_plan(self.layout.columns(), self.layout.rows())
    }
}

/// The frame driver.
pub struct FrameDriver {
    has_frame_callback: bool,
    is_configured: bool,
    exit: bool,
    egui_state: State,
    scheduler: RepaintScheduler,
    inbox: RepaintInbox,
    clock: Clock,
    seat: SeatDevices,
}

impl View for FrameDriver {
    type V = DriverModel;

    closed spec fn view(&self) -> DriverModel {
        DriverModel {
            frame_permission: self.has_frame_callback,
            configured: self.is_configured,
            exit: self.exit,
            input: self.egui_state@,
            inbox: self.inbox,
            scheduler: self.scheduler,
            seat: self.seat,
        }
    }
}

impl FrameDriver {
    /// A driver for the interface engine behind `context`, as it is before
    /// the surface was configured. The engine's repaint hook is set to post
    /// into the driver's inbox.
    pub fn new(context: egui::Context) -> (driver: FrameDriver)
        ensures
            driver@ == DriverModel::initial(
                InputModel::initial(context, driver@.input.renderer),
                driver@.inbox,
            ),
    {
        let clock = Clock::start();
        let inbox = RepaintInbox::new(clock);
        set_repaint_hook(&context, inbox.handle());
        FrameDriver {
            has_frame_callback: false,
            is_configured: false,
            exit: false,
            egui_state: State::new(context),
            scheduler: RepaintScheduler::new(),
            inbox,
            clock,
            seat: SeatDevices::new(),
        }
    }

    /// Another handle on the driver's inbox, for the context that asks for
    /// repaints.
    pub fn repaint_inbox(&self) -> (handle: RepaintInbox)
        ensures
            handle == self@.inbox,
    {
        self.inbox.handle()
    }

    /// Nanoseconds since the driver was made, as the clock reads now.
    pub fn now(&self) -> u64 {
        self.clock.now()
    }

    /// Whether the surface is ready to receive a frame.
    pub fn has_frame_callback(&self) -> (permission: bool)
        ensures
            permission == self@.frame_permission,
    {
        self.has_frame_callback
    }

    /// Whether the surface was configured at least once.
    pub fn is_configured(&self) -> (configured: bool)
        ensures
            configured == self@.configured,
    {
        self.is_configured
    }

    /// Whether the surface was closed, so that the event loop should end.
    pub fn exit(&self) -> (exit: bool)
        ensures
            exit == self@.exit,
    {
        self.exit
    }

    /// The scheduled repaint.
    pub fn scheduler(&self) -> (scheduler: RepaintScheduler)
        ensures
            scheduler == self@.scheduler,
    {
        self.scheduler
    }

    /// The input devices held.
    pub fn seat(&self) -> (seat: SeatDevices)
        ensures
            seat == self@.seat,
    {
        self.seat
    }

    /// The interface engine's state.
    pub fn egui_state(&self) -> (state: &State)
        ensures
            state@ == self@.input,
    {
        &self.egui_state
    }

    /// The interface engine's handle: the one that the driver was made for.
    pub fn context(&self) -> (context: &egui::Context)
        ensures
            *context == self@.input.context,
    {
        self.egui_state.context()
    }

    /// Lends the rasterizer out. What the borrower leaves is the driver's
    /// rasterizer afterwards; nothing that the driver decides on changes.
    pub fn renderer(&mut self) -> (renderer: &mut EguiSoftwareRender)
        ensures
            *renderer == old(self)@.input.renderer,
            final(self)@ == old(self)@.with_input(
                old(self)@.input.with_renderer(*final(renderer)),
            ),
    {
        self.egui_state.renderer()
    }

    /// Appends one input event to the pending batch.
    pub fn push_event(&mut self, event: egui::Event)
        ensures
            final(self)@ == old(self)@.pushed(event),
    {
        self.egui_state.push_event(event);
    }

    /// Records a change of the modifier keys.
    pub fn set_modifiers(&mut self, modifiers: egui::Modifiers)
        ensures
            final(self)@ == old(self)@.with_input(old(self)@.input.with_modifiers(modifiers)),
    {
        self.egui_state.set_modifiers(modifiers);
    }

    /// Takes in a repaint request that was read from the inbox.
    pub fn absorb(&mut self, request: Option<u64>)
        ensures
            final(self)@ == old(self)@.absorbed(request),
    {
        match request {
            Some(time) => {
                self.scheduler.request(time);
            },
            None => {},
        }
    }

    /// Empties the inbox into the scheduler. Which request was waiting there,
    /// if any, is for the other handles to say.
    pub fn sync(&mut self)
        ensures
            final(self)@.synced_from(old(self)@),
    {
        let request = self.inbox.take();
        self.absorb(request);
        assert(self@ == old(self)@.absorbed(request));
    }

    /// Handles a configure event that arrived at time `now`.
    pub fn configure_at(&mut self, width: u32, height: u32, now: u64)
        ensures
            final(self)@ == old(self)@.configured_at(width, height, now),
    {
        if !self.is_configured {
            self.is_configured = true;
            self.has_frame_callback = true;
            self.scheduler.request(now);
        }
        self.egui_state.set_size(width, height);
    }

    /// Handles a configure event: empties the inbox, reads the clock and
    /// goes on as [`FrameDriver::configure_at`] does. Whatever the inbox held
    /// and whatever the clock reads, the surface then has the new size and
    /// is configured, pending input is kept, and the permission is there if
    /// it was there before or this was the first configure.
    pub fn configure(&mut self, width: u32, height: u32)
        ensures
            final(self)@.configured_from(old(self)@, width, height),
            final(self)@.configured,
            final(self)@.input == old(self)@.input.resized(width, height),
            final(self)@.frame_permission == (old(self)@.frame_permission || !old(
                self,
            )@.configured),
            final(self)@.exit == old(self)@.exit,
            final(self)@.seat == old(self)@.seat,
            !old(self)@.configured ==> final(self)@.scheduler != RepaintScheduler::Idle,
    {
        let request = self.inbox.take();
        self.absorb(request);
        let now = self.clock.now();
        self.configure_at(width, height, now);
        assert(self@ == old(self)@.absorbed(request).configured_at(width, height, now));
    }

    /// Handles a frame callback: the surface is ready for the next frame.
    pub fn frame(&mut self)
        ensures
            final(self)@ == old(self)@.frame_granted(),
    {
        self.has_frame_callback = true;
    }

    /// Handles the closing of the surface.
    pub fn closed(&mut self)
        ensures
            final(self)@ == old(self)@.closed(),
    {
        self.exit = true;
    }

    /// Whether a frame is owed at time `now`.
    pub fn should_draw_at(&self, now: u64) -> (owed: bool)
        ensures
            owed == self@.should_draw(now),
    {
        if !self.has_frame_callback {
            return false;
        }
        if self.egui_state.has_pending() {
            return true;
        }
        self.scheduler.is_due(now)
    }

    /// Whether a frame is owed now: empties the inbox, reads the clock and
    /// decides as [`FrameDriver::should_draw_at`] does. Whatever the inbox
    /// held and whatever the clock reads, no frame is owed without the
    /// surface's permission, and one is owed with it while input is pending.
    pub fn should_draw(&mut self) -> (owed: bool)
        ensures
            final(self)@.synced_from(old(self)@),
            final(self)@.decides(owed),
            !old(self)@.frame_permission ==> !owed,
            old(self)@.frame_permission && old(self)@.input.pending.len() > 0 ==> owed,
            owed ==> final(self)@.input.pending.len() > 0 || final(self)@.scheduler
                != RepaintScheduler::Idle,
    {
        self.sync();
        let now = self.clock.now();
        let owed = self.should_draw_at(now);
        assert(owed == self@.should_draw(now));
        owed
    }

    /// How long the event loop may wait from `now` before the next pass.
    pub fn timeout_until(&self, now: u64) -> (wait: Option<u64>)
        ensures
            wait == self@.timeout(now),
    {
        self.scheduler.timeout_until(now, self.has_frame_callback)
    }

    /// How long the event loop may wait, in nanoseconds: empties the inbox,
    /// reads the clock and answers as [`FrameDriver::timeout_until`] does.
    /// Whatever the inbox held and whatever the clock reads, there is no
    /// timeout without the surface's permission nor while nothing is
    /// scheduled.
    pub fn get_timeout(&mut self) -> (wait: Option<u64>)
        ensures
            final(self)@.synced_from(old(self)@),
            final(self)@.allows(wait),
            !old(self)@.frame_permission ==> wait is None,
            final(self)@.scheduler == RepaintScheduler::Idle ==> wait is None,
            final(self)@.frame_permission && final(self)@.scheduler != RepaintScheduler::Idle
                ==> wait is Some,
    {
        self.sync();
        let now = self.clock.now();
        let wait = self.timeout_until(now);
        assert(wait == self@.timeout(now));
        wait
    }

    /// Starts a frame: drops what the inbox holds, clears the scheduler, uses
    /// up the permission and takes the pending input for the interface pass.
    /// A request made from now on, by the pass itself or by anyone else,
    /// stays in the inbox for the next decision.
    pub fn begin_frame(&mut self) -> (batch: InputBatch)
        ensures
            final(self)@ == old(self)@.frame_started(),
            batch.is_taken_from(old(self)@.input, batch.time),
    {
        let _ = self.inbox.take();
        self.scheduler.clear();
        self.has_frame_callback = false;
        self.egui_state.process_events()
    }

    /// Starts a frame if one is owed at time `now` and the surface is still
    /// open, and only then: the one way by which frames are admitted.
    pub fn next_frame_at(&mut self, now: u64) -> (batch: Option<InputBatch>)
        ensures
            batch is Some <==> old(self)@.admits_frame(now),
            final(self)@ == old(self)@.frame_admitted(now),
            batch matches Some(b) ==> b.is_taken_from(old(self)@.input, b.time),
    {
        if !self.exit && self.should_draw_at(now) {
            Some(self.begin_frame())
        } else {
            None
        }
    }

    /// Starts a frame if one is owed now: empties the inbox, reads the clock
    /// and goes on as [`FrameDriver::next_frame_at`] does. Whatever the inbox
    /// held and whatever the clock reads, no frame is started without the
    /// surface's permission nor on a closed surface, one is started on an
    /// open surface with permission while input is pending, and a started
    /// frame has used the permission up.
    pub fn next_frame(&mut self) -> (batch: Option<InputBatch>)
        ensures
            final(self)@.admitted_from(old(self)@, batch is Some),
            !old(self)@.frame_permission || old(self)@.exit ==> batch is None,
            old(self)@.frame_permission && !old(self)@.exit && old(self)@.input.pending.len() > 0
                ==> batch is Some,
            batch matches Some(b) ==> !final(self)@.frame_permission && b.events@ == old(
                self,
            )@.input.pending,
            batch is None ==> final(self)@.synced_from(old(self)@),
    {
        let request = self.inbox.take();
        self.absorb(request);
        let now = self.clock.now();
        let batch = self.next_frame_at(now);
        proof {
            let before = old(self)@.absorbed(request);
            assert(self@ == before.frame_admitted(now));
            assert(batch is Some == before.admits_frame(now));
        }
        batch
    }

    /// The layout of the buffer for the frame in hand, from the surface's
    /// size as it is at this call, or the reason why there is none.
    pub fn frame_layout(&self) -> (layout: Result<BufferLayout, FrameError>)
        ensures
            layout matches Ok(l) ==> self@.frame_size() == Ok::<(u32, u32), FrameError>(l.size()),
            layout matches Err(e) ==> self@.frame_size() == Err::<(u32, u32), FrameError>(e),
    {
        match self.egui_state.get_size() {
            None => Err(FrameError::NotConfigured),
            Some((width, height)) => BufferLayout::for_surface(width, height),
        }
    }

    /// The plan for the frame in hand: the buffer's layout and the requests
    /// that present it, both from one reading of the surface's size, so that
    /// the damage and the reported size cannot disagree with the buffer.
    /// Fails exactly when the surface's size allows no layout.
    pub fn frame_plan(&self) -> (plan: Result<FramePlan, FrameError>)
        ensures
            plan matches Ok(p) ==> p.wf() && self@.frame_size() == Ok::<(u32, u32), FrameError>(
                p.layout.size(),
            ),
            plan matches Err(e) ==> self@.frame_size() == Err::<(u32, u32), FrameError>(e),
    {
        match self.frame_layout() {
            Ok(layout) => Ok(FramePlan { layout, requests: commit_sequence(&layout) }),
            Err(error) => Err(error),
        }
    }

    /// The seat gained `capability`: says what to do and counts it as done.
    pub fn new_capability(&mut self, capability: Capability) -> (action: SeatAction)
        ensures
            action == old(self)@.seat.action_on_gain(capability),
            final(self)@ == old(self)@.seat_gained(capability),
    {
        self.seat.new_capability(capability)
    }

    /// The seat lost `capability`: says what to do and counts it as done.
    pub fn remove_capability(&mut self, capability: Capability) -> (action: SeatAction)
        ensures
            action == old(self)@.seat.action_on_loss(capability),
            final(self)@ == old(self)@.seat_lost(capability),
    {
        self.seat.remove_capability(capability)
    }
}

/// Without the surface's permission no frame is owed and the event loop has
/// no timeout, whatever input is pending and whatever repaint is due; and
/// neither more input nor a new request changes that.
pub proof fn lemma_no_frame_without_permission(
    driver: DriverModel,
    now: u64,
    event: egui::Event,
    request: Option<u64>,
)
    requires
        !driver.frame_permission,
    ensures
        !driver.should_draw(now),
        driver.timeout(now) is None,
        !driver.pushed(event).should_draw(now),
        !driver.absorbed(request).should_draw(now),
{
}

/// A frame is owed only with the surface's permission and a reason: pending
/// input, or a scheduled repaint whose time has come.
pub proof fn lemma_frame_needs_permission_and_reason(driver: DriverModel, now: u64)
    requires
        driver.should_draw(now),
    ensures
        driver.frame_permission,
        driver.input.pending.len() > 0 || driver.scheduler.due(now),
        driver.input.pending.len() == 0 ==> driver.timeout(now) == Some(0u64),
{
}

/// Starting a frame uses up the permission and leaves nothing scheduled and
/// no input, so no second frame is owed. Afterwards the scheduler is idle
/// unless a request was made since, and then it is pending at that request;
/// the permission comes back only with the next frame callback.
pub proof fn lemma_frame_start_quiets(driver: DriverModel, request: Option<u64>, now: u64)
    ensures
        !driver.frame_started().frame_permission,
        driver.frame_started().scheduler == RepaintScheduler::Idle,
        driver.frame_started().input.pending.len() == 0,
        !driver.frame_started().should_draw(now),
        driver.frame_started().timeout(now) is None,
        !driver.frame_started().absorbed(request).frame_permission,
        request is None ==> driver.frame_started().absorbed(request).scheduler
            == RepaintScheduler::Idle,
        request matches Some(time) ==> driver.frame_started().absorbed(request).scheduler
            == RepaintScheduler::Pending(time),
        driver.frame_started().frame_granted().frame_permission,
{
}

/// Once used up, the permission comes back only by a frame callback or by
/// the first configure event: input, repaint requests, the closing of the
/// surface, changes of the seat and later configure events leave the driver
/// without it, so that no frame is admitted in between.
pub proof fn lemma_permission_returns_only_by_grant(
    driver: DriverModel,
    event: egui::Event,
    request: Option<u64>,
    capability: Capability,
    width: u32,
    height: u32,
    now: u64,
)
    requires
        !driver.frame_permission,
    ensures
        !driver.pushed(event).frame_permission,
        !driver.absorbed(request).frame_permission,
        !driver.closed().frame_permission,
        !driver.seat_gained(capability).frame_permission,
        !driver.seat_lost(capability).frame_permission,
        driver.configured ==> !driver.configured_at(width, height, now).frame_permission,
        driver.frame_admitted(now) == driver,
        driver.frame_granted().frame_permission,
        !driver.configured ==> driver.configured_at(width, height, now).frame_permission,
{
}

/// One frame is admitted per permission: where a frame is started, the
/// permission is gone, and asking again at any time starts none. A frame is
/// admitted only where one is owed, and never once the surface was closed.
pub proof fn lemma_one_frame_per_permission(driver: DriverModel, now: u64, later: u64)
    ensures
        driver.admits_frame(now) ==> driver.should_draw(now),
        driver.admits_frame(now) ==> !driver.frame_admitted(now).admits_frame(later),
        driver.admits_frame(now) ==> driver.frame_admitted(now).frame_admitted(later)
            == driver.frame_started(),
        driver.admits_frame(now) ==> !driver.frame_admitted(now).frame_permission,
        !driver.admits_frame(now) ==> driver.frame_admitted(now) == driver,
        !driver.closed().admits_frame(now),
        driver.closed().frame_admitted(now) == driver.closed(),
{
}

/// The first configure event forces a first frame: from then on a frame is
/// owed, at the time of the event and at any later time, until one is
/// started. A later configure event changes the size and nothing else.
pub proof fn lemma_first_configure_forces_frame(
    driver: DriverModel,
    width: u32,
    height: u32,
    now: u64,
    later: u64,
)
    requires
        now <= later,
    ensures
        !driver.configured ==> driver.configured_at(width, height, now).should_draw(later),
        driver.configured ==> driver.configured_at(width, height, now) == driver.with_input(
            driver.input.resized(width, height),
        ),
        driver.configured_at(width, height, now).configured,
        driver.configured_at(width, height, now).input.pending == driver.input.pending,
{
}

/// The buffer follows the size that is current when it is asked for: after a
/// configure event the frame has the new size, where that size can have a
/// frame at all, and starting a frame does not change it. While the surface
/// has no size, as before the first configure event, there is no frame.
pub proof fn lemma_frame_follows_latest_size(
    driver: DriverModel,
    width: u32,
    height: u32,
    now: u64,
)
    ensures
        surface_fault(width, height) is None ==> driver.configured_at(
            width,
            height,
            now,
        ).frame_size() == Ok::<(u32, u32), FrameError>((width, height)),
        surface_fault(width, height) matches Some(fault) ==> driver.configured_at(
            width,
            height,
            now,
        ).frame_size() == Err::<(u32, u32), FrameError>(fault),
        driver.frame_started().frame_size() == driver.frame_size(),
        driver.input.size is None ==> driver.frame_size() == Err::<(u32, u32), FrameError>(
            FrameError::NotConfigured,
        ),
{
}

/// Only the start of a frame empties the input: a request, a configure
/// event, a frame callback, the closing of the surface and a change of the
/// seat all leave the pending events as they are.
pub proof fn lemma_input_waits_for_frame(
    driver: DriverModel,
    request: Option<u64>,
    width: u32,
    height: u32,
    now: u64,
    capability: Capability,
)
    ensures
        driver.absorbed(request).input.pending == driver.input.pending,
        driver.configured_at(width, height, now).input.pending == driver.input.pending,
        driver.frame_granted().input.pending == driver.input.pending,
        driver.closed().input.pending == driver.input.pending,
        driver.seat_gained(capability).input.pending == driver.input.pending,
        driver.seat_lost(capability).input.pending == driver.input.pending,
{
}

/// The event loop never sleeps past a scheduled repaint: with the surface's
/// permission and a pass pending at `time`, the timeout from `now` ends at
/// `time`, or at once where `time` has passed.
pub proof fn lemma_timeout_ends_at_repaint(driver: DriverModel, now: u64, time: u64)
    requires
        driver.frame_permission,
        driver.scheduler == RepaintScheduler::Pending(time),
    ensures
        driver.timeout(now) is Some,
        time <= now ==> driver.timeout(now) == Some(0u64),
        now < time ==> driver.timeout(now) == Some((time - now) as u64),
        driver.timeout(now) == Some(0u64) <==> driver.scheduler.due(now),
{
}

} // verus!
