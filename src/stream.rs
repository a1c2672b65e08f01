//! Per-category stream slot: at most one live stream, started and stopped
//! idempotently.
use vstd::prelude::*;

verus! {

/// Opaque identifier of a live frame source on the sensing device.
#[derive(Clone, Copy, Debug, PartialEq, Eq, Structural)]
pub struct StreamHandle {
    pub id: u64,
}

/// Whether a category currently owns a live stream.
#[derive(Clone, Copy, Debug, PartialEq, Eq, Structural)]
pub enum StreamSlot {
    Inactive,
    Active(StreamHandle),
}

impl StreamSlot {
    pub open spec fn is_active_spec(self) -> bool {
        self is Active
    }

    /// True when a stream is held.
    pub fn is_active(&self) -> (r: bool)
        ensures
            r == self.is_active_spec(),
    {
        match self {
            StreamSlot::Active(_) => true,
            StreamSlot::Inactive => false,
        }
    }

    /// Records the outcome of asking the device for a stream.
    ///
    /// An already active slot is left as it is, whatever was handed in:
    /// starting twice is a no-op. Otherwise a granted stream becomes the
    /// active one, and a refusal leaves the slot inactive and is reported.
    pub fn record_start(&mut self, granted: Option<StreamHandle>) -> (r: bool)
        ensures
            old(self).is_active_spec() ==> r && *final(self) == *old(self),
            !old(self).is_active_spec() ==> (match granted {
                Some(h) => r && *final(self) == StreamSlot::Active(h),
                None => !r && *final(self) == StreamSlot::Inactive,
            }),
    {
        match self {
            StreamSlot::Active(_) => true,
            StreamSlot::Inactive => match granted {
                Some(h) => {
                    *self = StreamSlot::Active(h);
                    true
                },
                None => false,
            },
        }
    }

    /// Releases the slot's stream, handing back the handle that the device
    /// must stop. Stopping an inactive slot does nothing and returns `None`.
    pub fn stop(&mut self) -> (r: Option<StreamHandle>)
        ensures
            *final(self) == StreamSlot::Inactive,
            match *old(self) {
                StreamSlot::Active(h) => r == Some(h),
                StreamSlot::Inactive => r.is_none(),
            },
    {
        match *self {
            StreamSlot::Active(h) => {
                *self = StreamSlot::Inactive;
                Some(h)
            },
            StreamSlot::Inactive => None,
        }
    }
}

} // verus!
