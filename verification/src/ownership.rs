//! The ownership state machine of one wrapper.
//!
//! A wrapper either answers for a native handle or it does not. Operations
//! move it between these two states, and some of them oblige the driver to
//! destroy the handle. Everything here is a total function of the state and
//! of what the native service answered, so whole histories of a wrapper can
//! be reasoned about.

use vstd::prelude::*;

verus! {

/// Whether a wrapper answers for a native handle.
#[derive(Debug, Clone, Copy, PartialEq, Eq, Structural)]
pub enum Ownership {
    /// The wrapper is the one owner of this handle and has to see it
    /// destroyed.
    Owned(usize),
    /// The wrapper answers for nothing: its handle was handed out, passed
    /// to a pending callback, or destroyed.
    Released,
}

/// One thing that happens to a wrapper, with the answer of the native
/// service where the service was asked.
pub enum Event {
    /// A frame callback was requested and the wrapper kept its handle.
    FrameRequested { status: i32 },
    /// A frame callback was requested with the handle itself as the
    /// callback's user data.
    FrameRequestedWithSelf { status: i32 },
    /// The refresh period was asked for.
    PeriodQueried { status: i32, period: i64 },
    /// The handle was handed out to the caller.
    HandedOut,
    /// The scope of the wrapper ended.
    ScopeEnded,
}

/// What one event does to a wrapper.
pub struct Step {
    /// The state after the event.
    pub next: Ownership,
    /// The handle that the driver has to destroy because of the event.
    pub destroy: Option<usize>,
}

impl Ownership {
    /// Whether the wrapper answers for a handle.
    pub open spec fn is_owned(self) -> bool {
        self is Owned
    }

    /// The effect of one event.
    ///
    /// Only two events destroy: the end of the scope of an owning wrapper,
    /// and a request with the handle as user data that the native service
    /// refused. A request of that kind that the service accepted passes the
    /// handle on to the callback, and handing the handle out passes it on
    /// to the caller; neither destroys. A released wrapper stays released
    /// and never destroys.
    pub open spec fn step(self, event: Event) -> Step {
        match self {
            Ownership::Released => Step { next: Ownership::Released, destroy: None },
            Ownership::Owned(raw) => match event {
                Event::FrameRequested { .. } | Event::PeriodQueried { .. } => Step {
                    next: self,
                    destroy: None,
                },
                Event::FrameRequestedWithSelf { status } => Step {
                    next: Ownership::Released,
                    destroy: if status == 0 {
                        None
                    } else {
                        Some(raw)
                    },
                },
                Event::HandedOut => Step { next: Ownership::Released, destroy: None },
                Event::ScopeEnded => Step { next: Ownership::Released, destroy: Some(raw) },
            },
        }
    }

    /// The state after a history of events, the first event first.
    pub open spec fn run(self, events: Seq<Event>) -> Ownership
        decreases events.len(),
    {
        if events.len() == 0 {
            self
        } else {
            self.run(events.drop_last()).step(events.last()).next
        }
    }

    /// The handles that the driver was told to destroy during a history of
    /// events, in the order of the events.
    pub open spec fn destroyed(self, events: Seq<Event>) -> Seq<usize>
        decreases events.len(),
    {
        if events.len() == 0 {
            Seq::empty()
        } else {
            let before = self.destroyed(events.drop_last());
            match self.run(events.drop_last()).step(events.last()).destroy {
                Some(raw) => before.push(raw),
                None => before,
            }
        }
    }
}

impl Event {
    /// Whether the event only borrows the wrapper: a plain frame request or
    /// a period query.
    pub open spec fn is_borrowing(self) -> bool {
        self is FrameRequested || self is PeriodQueried
    }
}

} // verus!
