//! The controller: owner of the device handle and the three category states.
use vstd::prelude::*;

use crate::category::{CategoryState, TickAction, TickInput, TickOutcome, MAX_RATE};
use crate::stream::{StreamHandle, StreamSlot};

verus! {

/// The frame categories the controller dispatches.
#[derive(Clone, Copy, Debug, PartialEq, Eq, Structural)]
pub enum Category {
    Body,
    Color,
    MaskedColor,
}

/// Opaque references to the sensor and to its frame reader.
#[derive(Clone, Copy, Debug, PartialEq, Eq, Structural)]
pub struct DeviceHandle {
    pub sensor: u64,
    pub reader: u64,
}

/// Failures the controller reports.
#[derive(Clone, Copy, Debug, PartialEq, Eq, Structural)]
pub enum ControllerError {
    /// The sensor could not be acquired; no session is possible.
    DeviceUnavailable,
    /// A category's stream could not be started; retried on the next tick.
    StreamStartFailed,
    /// A fetched frame could not be converted; the tick is skipped.
    ConversionFailed,
}

/// Owner of the device and of the per-category stream states.
#[derive(Clone, Copy, Debug, PartialEq, Eq, Structural)]
pub struct AstraController {
    pub device: DeviceHandle,
    pub body: CategoryState,
    pub color: CategoryState,
    pub masked_color: CategoryState,
}

impl AstraController {
    pub open spec fn wf(self) -> bool {
        self.body.wf() && self.color.wf() && self.masked_color.wf()
    }

    pub open spec fn state_of(self, cat: Category) -> CategoryState {
        match cat {
            Category::Body => self.body,
            Category::Color => self.color,
            Category::MaskedColor => self.masked_color,
        }
    }

    /// This controller with the state of `cat` replaced.
    pub open spec fn with_state(self, cat: Category, s: CategoryState) -> AstraController {
        match cat {
            Category::Body => AstraController { body: s, ..self },
            Category::Color => AstraController { color: s, ..self },
            Category::MaskedColor => AstraController { masked_color: s, ..self },
        }
    }

    /// Categories whose stream is due at start-up: those fed by an explicit
    /// stream that is not active yet, in the order body, color, masked color.
    pub open spec fn ready_list(self) -> Seq<Category> {
        let b = if self.body.must_start() { seq![Category::Body] } else { Seq::empty() };
        let c = if self.color.must_start() { seq![Category::Color] } else { Seq::empty() };
        let m = if self.masked_color.must_start() { seq![Category::MaskedColor] } else { Seq::empty() };
        b + c + m
    }

    /// Handles of the active streams, in the order body, color, masked color.
    pub open spec fn active_handles(self) -> Seq<StreamHandle> {
        let b = match self.body.stream { StreamSlot::Active(h) => seq![h], StreamSlot::Inactive => Seq::empty() };
        let c = match self.color.stream { StreamSlot::Active(h) => seq![h], StreamSlot::Inactive => Seq::empty() };
        let m = match self.masked_color.stream { StreamSlot::Active(h) => seq![h], StreamSlot::Inactive => Seq::empty() };
        b + c + m
    }

    /// This controller with every stream stopped.
    pub open spec fn torn_down(self) -> AstraController {
        AstraController {
            body: CategoryState { stream: StreamSlot::Inactive, ..self.body },
            color: CategoryState { stream: StreamSlot::Inactive, ..self.color },
            masked_color: CategoryState { stream: StreamSlot::Inactive, ..self.masked_color },
            ..self
        }
    }

    /// Builds the controller on the device that the SDK handed out, or
    /// fails with `DeviceUnavailable` when acquisition failed. Every rate
    /// starts at 30; only body frames come from an explicit stream, and only
    /// body frames are checked for repeats.
    pub fn initialize(device: Option<DeviceHandle>) -> (r: Result<AstraController, ControllerError>)
        ensures
            device is None <==> r == Err::<AstraController, ControllerError>(ControllerError::DeviceUnavailable),
            device is Some ==> r == Ok::<AstraController, ControllerError>(AstraController {
                device: device->Some_0,
                body: CategoryState {
                    target_rate: 30,
                    needs_stream: true,
                    tracks_index: true,
                    stream: StreamSlot::Inactive,
                    last_frame_index: -1i32,
                },
                color: CategoryState {
                    target_rate: 30,
                    needs_stream: false,
                    tracks_index: false,
                    stream: StreamSlot::Inactive,
                    last_frame_index: -1i32,
                },
                masked_color: CategoryState {
                    target_rate: 30,
                    needs_stream: false,
                    tracks_index: false,
                    stream: StreamSlot::Inactive,
                    last_frame_index: -1i32,
                },
            }),
            r matches Ok(c) ==> c.wf(),
    {
        match device {
            None => Err(ControllerError::DeviceUnavailable),
            Some(d) => Ok(AstraController {
                device: d,
                body: CategoryState::new(true, true),
                color: CategoryState::new(false, false),
                masked_color: CategoryState::new(false, false),
            }),
        }
    }

    /// The state kept for `cat`.
    pub fn state(&self, cat: Category) -> (r: &CategoryState)
        ensures
            *r == self.state_of(cat),
    {
        match cat {
            Category::Body => &self.body,
            Category::Color => &self.color,
            Category::MaskedColor => &self.masked_color,
        }
    }

    /// Replaces the state kept for `cat`.
    fn put_state(&mut self, cat: Category, s: CategoryState)
        ensures
            *final(self) == old(self).with_state(cat, s),
    {
        match cat {
            Category::Body => self.body = s,
            Category::Color => self.color = s,
            Category::MaskedColor => self.masked_color = s,
        }
    }

    /// The configured frame rate of `cat`.
    pub fn rate(&self, cat: Category) -> (r: u32)
        ensures
            r == self.state_of(cat).target_rate,
    {
        self.state(cat).target_rate
    }

    /// Sets the frame rate of `cat`. A rate above 60 is refused: the
    /// controller is left as it was and `false` comes back.
    pub fn set_rate(&mut self, cat: Category, rate: u32) -> (r: bool)
        requires
            old(self).wf(),
        ensures
            final(self).wf(),
            r == (rate <= MAX_RATE),
            r ==> *final(self) == old(self).with_state(
                cat,
                CategoryState { target_rate: rate, ..old(self).state_of(cat) },
            ),
            !r ==> *final(self) == *old(self),
    {
        if rate > MAX_RATE {
            return false;
        }
        let mut s = *self.state(cat);
        s.target_rate = rate;
        self.put_state(cat, s);
        true
    }

    /// Chooses whether `cat` is fed by an explicitly started stream, which
    /// `on_ready` then starts and each tick restarts when it is missing.
    pub fn set_needs_stream(&mut self, cat: Category, needs_stream: bool)
        requires
            old(self).wf(),
        ensures
            final(self).wf(),
            *final(self) == old(self).with_state(
                cat,
                CategoryState { needs_stream, ..old(self).state_of(cat) },
            ),
    {
        let mut s = *self.state(cat);
        s.needs_stream = needs_stream;
        self.put_state(cat, s);
    }

    /// The streams the host is to start once the scene is ready. The host
    /// reports each answer through `record_stream_start`.
    pub fn on_ready(&self) -> (r: Vec<Category>)
        ensures
            r@ == self.ready_list(),
    {
        let mut r: Vec<Category> = Vec::new();
        if self.body.needs_stream && !self.body.stream.is_active() {
            r.push(Category::Body);
        }
        if self.color.needs_stream && !self.color.stream.is_active() {
            r.push(Category::Color);
        }
        if self.masked_color.needs_stream && !self.masked_color.stream.is_active() {
            r.push(Category::MaskedColor);
        }
        assert(r@ =~= self.ready_list());
        r
    }

    /// Records the device's answer to a stream request for `cat`. An
    /// already active stream is kept and the answer ignored (starting twice
    /// is a no-op); a refusal leaves the category inactive and is reported.
    pub fn record_stream_start(&mut self, cat: Category, granted: Option<StreamHandle>) -> (r: Result<(), ControllerError>)
        requires
            old(self).wf(),
        ensures
            final(self).wf(),
            old(self).state_of(cat).stream.is_active_spec() ==> r is Ok && *final(self) == *old(self),
            !old(self).state_of(cat).stream.is_active_spec() ==> (match granted {
                Some(h) => r is Ok && *final(self) == old(self).with_state(
                    cat,
                    CategoryState { stream: StreamSlot::Active(h), ..old(self).state_of(cat) },
                ),
                None => r == Err::<(), ControllerError>(ControllerError::StreamStartFailed)
                    && *final(self) == *old(self),
            }),
    {
        let mut s = *self.state(cat);
        if s.stream.record_start(granted) {
            self.put_state(cat, s);
            Ok(())
        } else {
            Err(ControllerError::StreamStartFailed)
        }
    }

    /// Stops every active stream and hands back the handles the device must
    /// release. With no stream active it changes nothing and returns none.
    pub fn on_teardown(&mut self) -> (r: Vec<StreamHandle>)
        requires
            old(self).wf(),
        ensures
            final(self).wf(),
            r@ == old(self).active_handles(),
            *final(self) == old(self).torn_down(),
    {
        let mut r: Vec<StreamHandle> = Vec::new();
        if let Some(h) = self.body.stream.stop() {
            r.push(h);
        }
        if let Some(h) = self.color.stream.stop() {
            r.push(h);
        }
        if let Some(h) = self.masked_color.stream.stop() {
            r.push(h);
        }
        assert(r@ =~= old(self).active_handles());
        r
    }

    /// First decision of a tick of `cat`; see `CategoryState::begin`.
    pub fn begin_update(&self, cat: Category) -> (r: TickAction)
        ensures
            self.state_of(cat).target_rate == 0 ==> r == TickAction::Finish(TickOutcome::Idle),
            self.state_of(cat).target_rate != 0 && self.state_of(cat).must_start() ==> r == TickAction::StartStream,
            self.state_of(cat).target_rate != 0 && !self.state_of(cat).must_start() ==> r == TickAction::Poll,
    {
        self.state(cat).begin()
    }

    /// Takes the answer to the stream request of a tick of `cat`.
    pub fn after_stream_start(&mut self, cat: Category, granted: Option<StreamHandle>) -> (r: TickAction)
        requires
            old(self).wf(),
        ensures
            final(self).wf(),
            old(self).state_of(cat).stream.is_active_spec() ==> r == TickAction::Poll && *final(self) == *old(self),
            !old(self).state_of(cat).stream.is_active_spec() ==> (match granted {
                Some(h) => r == TickAction::Poll && *final(self) == old(self).with_state(
                    cat,
                    CategoryState { stream: StreamSlot::Active(h), ..old(self).state_of(cat) },
                ),
                None => r == TickAction::Finish(TickOutcome::StreamStartFailed)
                    && *final(self) == *old(self),
            }),
    {
        let mut s = *self.state(cat);
        let r = s.after_stream_start(granted);
        self.put_state(cat, s);
        r
    }

    /// Takes the frame polled during a tick of `cat`, by its sequence index.
    pub fn after_poll(&mut self, cat: Category, frame: Option<i32>) -> (r: TickAction)
        requires
            old(self).wf(),
        ensures
            final(self).wf(),
            match frame {
                None => r == TickAction::Finish(TickOutcome::Skipped) && *final(self) == *old(self),
                Some(i) => if old(self).state_of(cat).is_repeat(i) {
                    r == TickAction::Finish(TickOutcome::Skipped) && *final(self) == *old(self)
                } else {
                    r == TickAction::Convert
                        && *final(self) == old(self).with_state(cat, old(self).state_of(cat).note_frame(i))
                },
            },
    {
        let mut s = *self.state(cat);
        let r = s.after_poll(frame);
        self.put_state(cat, s);
        r
    }

    /// Runs one whole tick of `cat` on what the sensor and converter gave.
    pub fn update(&mut self, cat: Category, input: TickInput) -> (r: TickOutcome)
        requires
            old(self).wf(),
        ensures
            final(self).wf(),
            r == old(self).state_of(cat).tick(input).1,
            *final(self) == old(self).with_state(cat, old(self).state_of(cat).tick(input).0),
    {
        let mut s = *self.state(cat);
        let r = s.tick_with(input);
        self.put_state(cat, s);
        r
    }
}

} // verus!
