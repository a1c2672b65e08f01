//! Per-category state and the decisions of one dispatch tick.
use vstd::prelude::*;

use crate::stream::{StreamHandle, StreamSlot};

verus! {

/// Highest frame rate that a category may be configured with.
pub const MAX_RATE: u32 = 60;

/// Frame rate a category starts with.
pub const DEFAULT_RATE: u32 = 30;

/// Sequence index held before any body frame has been dispatched.
pub const NO_FRAME_YET: i32 = -1;

/// How a tick ended.
#[derive(Clone, Copy, Debug, PartialEq, Eq, Structural)]
pub enum TickOutcome {
    /// The category is switched off (rate 0): nothing was attempted.
    Idle,
    /// The category's stream could not be started; the next tick retries.
    StreamStartFailed,
    /// No new frame, or the same body frame as last time.
    Skipped,
    /// A frame was fetched but the converter refused it.
    ConversionFailed,
    /// A frame was converted and its event is to be emitted.
    Dispatched,
}

/// What the host is to do next within a tick.
#[derive(Clone, Copy, Debug, PartialEq, Eq, Structural)]
pub enum TickAction {
    /// Ask the device for a stream of this category, then report the result.
    StartStream,
    /// Poll the reader for this category's latest frame, then report it.
    Poll,
    /// Run the category's converter on the polled frame, then report it.
    Convert,
    /// The tick is over.
    Finish(TickOutcome),
}

/// What the sensor and the converter gave during one tick, as far as the
/// tick gets: the stream asked for, the frame polled (by its sequence
/// index), and whether conversion succeeded.
#[derive(Clone, Copy, Debug, PartialEq, Eq, Structural)]
pub struct TickInput {
    pub granted: Option<StreamHandle>,
    pub frame: Option<i32>,
    pub converted: bool,
}

/// True when a tick with this outcome polled the reader.
pub open spec fn fetched(o: TickOutcome) -> bool {
    o is Skipped || o is ConversionFailed || o is Dispatched
}

/// True when a tick with this outcome ran the converter.
pub open spec fn converted(o: TickOutcome) -> bool {
    o is ConversionFailed || o is Dispatched
}

/// True when a tick with this outcome emits an event.
pub open spec fn emitted(o: TickOutcome) -> bool {
    o is Dispatched
}

/// The state kept for one frame category.
#[derive(Clone, Copy, Debug, PartialEq, Eq, Structural)]
pub struct CategoryState {
    /// Frames-per-second cap, 0 to 60; 0 switches the category off.
    pub target_rate: u32,
    /// Whether frames come from an explicitly started stream.
    pub needs_stream: bool,
    /// Whether a frame whose sequence index equals the last one is skipped.
    pub tracks_index: bool,
    pub stream: StreamSlot,
    /// Sequence index of the last frame handed to the converter.
    pub last_frame_index: i32,
}

impl CategoryState {
    pub open spec fn wf(self) -> bool {
        self.target_rate <= MAX_RATE
    }

    /// True when the next tick must start a stream before polling.
    pub open spec fn must_start(self) -> bool {
        self.needs_stream && !self.stream.is_active_spec()
    }

    /// The state after a polled frame with this index was accepted.
    pub open spec fn note_frame(self, index: i32) -> CategoryState {
        if self.tracks_index {
            CategoryState { last_frame_index: index, ..self }
        } else {
            self
        }
    }

    /// True when a polled frame with this index repeats the last one.
    pub open spec fn is_repeat(self, index: i32) -> bool {
        self.tracks_index && index == self.last_frame_index
    }

    /// One whole tick, given what the sensor and converter produced.
    pub open spec fn tick(self, input: TickInput) -> (CategoryState, TickOutcome) {
        if self.target_rate == 0 {
            (self, TickOutcome::Idle)
        } else if self.must_start() && input.granted is None {
            (self, TickOutcome::StreamStartFailed)
        } else {
            let s = if self.must_start() {
                CategoryState { stream: StreamSlot::Active(input.granted->Some_0), ..self }
            } else {
                self
            };
            match input.frame {
                None => (s, TickOutcome::Skipped),
                Some(i) => if s.is_repeat(i) {
                    (s, TickOutcome::Skipped)
                } else if input.converted {
                    (s.note_frame(i), TickOutcome::Dispatched)
                } else {
                    (s.note_frame(i), TickOutcome::ConversionFailed)
                },
            }
        }
    }

    /// A fresh state with the default rate, no stream and no frame seen.
    pub fn new(needs_stream: bool, tracks_index: bool) -> (r: CategoryState)
        ensures
            r.wf(),
            r.target_rate == DEFAULT_RATE,
            r.needs_stream == needs_stream,
            r.tracks_index == tracks_index,
            r.stream == StreamSlot::Inactive,
            r.last_frame_index == NO_FRAME_YET,
    {
        CategoryState {
            target_rate: DEFAULT_RATE,
            needs_stream,
            tracks_index,
            stream: StreamSlot::Inactive,
            last_frame_index: NO_FRAME_YET,
        }
    }

    /// First decision of a tick: switched off, start a stream, or poll.
    pub fn begin(&self) -> (r: TickAction)
        ensures
            self.target_rate == 0 ==> r == TickAction::Finish(TickOutcome::Idle),
            self.target_rate != 0 && self.must_start() ==> r == TickAction::StartStream,
            self.target_rate != 0 && !self.must_start() ==> r == TickAction::Poll,
    {
        if self.target_rate == 0 {
            TickAction::Finish(TickOutcome::Idle)
        } else if self.needs_stream && !self.stream.is_active() {
            TickAction::StartStream
        } else {
            TickAction::Poll
        }
    }

    /// Takes the device's answer to a stream request: poll on success,
    /// end the tick with `StreamStartFailed` on refusal.
    pub fn after_stream_start(&mut self, granted: Option<StreamHandle>) -> (r: TickAction)
        ensures
            old(self).stream.is_active_spec() ==> r == TickAction::Poll && *final(self) == *old(self),
            !old(self).stream.is_active_spec() ==> (match granted {
                Some(h) => r == TickAction::Poll
                    && *final(self) == (CategoryState { stream: StreamSlot::Active(h), ..*old(self) }),
                None => r == TickAction::Finish(TickOutcome::StreamStartFailed)
                    && *final(self) == *old(self),
            }),
    {
        if self.stream.record_start(granted) {
            TickAction::Poll
        } else {
            TickAction::Finish(TickOutcome::StreamStartFailed)
        }
    }

    /// Takes the polled frame: no frame and a repeated body frame end the
    /// tick as `Skipped`; a new one is noted and goes to conversion. The
    /// index is noted before conversion, so a frame whose conversion failed
    /// is not retried.
    pub fn after_poll(&mut self, frame: Option<i32>) -> (r: TickAction)
        ensures
            match frame {
                None => r == TickAction::Finish(TickOutcome::Skipped) && *final(self) == *old(self),
                Some(i) => if old(self).is_repeat(i) {
                    r == TickAction::Finish(TickOutcome::Skipped) && *final(self) == *old(self)
                } else {
                    r == TickAction::Convert && *final(self) == old(self).note_frame(i)
                },
            },
    {
        match frame {
            None => TickAction::Finish(TickOutcome::Skipped),
            Some(i) => {
                if self.tracks_index {
                    if i == self.last_frame_index {
                        return TickAction::Finish(TickOutcome::Skipped);
                    }
                    self.last_frame_index = i;
                }
                TickAction::Convert
            },
        }
    }

    /// Takes whether conversion succeeded: emit on success, report otherwise.
    pub fn after_convert(converted: bool) -> (r: TickAction)
        ensures
            converted ==> r == TickAction::Finish(TickOutcome::Dispatched),
            !converted ==> r == TickAction::Finish(TickOutcome::ConversionFailed),
    {
        if converted {
            TickAction::Finish(TickOutcome::Dispatched)
        } else {
            TickAction::Finish(TickOutcome::ConversionFailed)
        }
    }

    /// Runs one whole tick on what the sensor and converter produced.
    /// Parts of `input` that the tick does not reach are ignored.
    pub fn tick_with(&mut self, input: TickInput) -> (r: TickOutcome)
        ensures
            (*final(self), r) == old(self).tick(input),
    {
        let mut action = self.begin();
        if let TickAction::StartStream = action {
            action = self.after_stream_start(input.granted);
        }
        if let TickAction::Poll = action {
            action = self.after_poll(input.frame);
        }
        if let TickAction::Convert = action {
            action = CategoryState::after_convert(input.converted);
        }
        match action {
            TickAction::Finish(o) => o,
            _ => TickOutcome::Skipped,
        }
    }
}

} // verus!
