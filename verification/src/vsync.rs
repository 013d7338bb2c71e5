//! The wrapper around one native vsync handle.

use vstd::prelude::*;

use crate::error::{check_status, status_result, NativeVsyncError};
use crate::name::{name_len, name_len_result};
use crate::ownership::{Event, Ownership};

verus! {

/// The unsigned reading of the 64 bits that the native service wrote as the
/// refresh period. The service promises a positive number of nanoseconds,
/// which reads as itself.
pub open spec fn period_nanos(period: i64) -> u64 {
    if period >= 0 {
        period as u64
    } else {
        (period + 0x1_0000_0000_0000_0000) as u64
    }
}

/// The result of a period query that the native service answered with
/// `status`, after writing `period`.
pub open spec fn period_result(status: i32, period: i64) -> Result<u64, NativeVsyncError> {
    match status_result(status) {
        Ok(()) => Ok(period_nanos(period)),
        Err(e) => Err(e),
    }
}

/// The arguments of a native frame request, beside the callback itself.
#[derive(Debug, Clone, Copy, PartialEq, Eq, Structural)]
pub struct FrameRequest {
    /// The handle on which the frame is requested.
    pub handle: usize,
    /// The user data that the callback will be called with.
    pub data: usize,
}

/// One native vsync handle together with the duty to destroy it.
///
/// The handle is kept as its address and never looked into. The wrapper is
/// neither `Clone` nor `Copy`: at any time at most one wrapper answers for a
/// handle.
pub struct NativeVsync {
    raw: usize,
    owned: bool,
}

impl View for NativeVsync {
    type V = Ownership;

    closed spec fn view(&self) -> Ownership {
        if self.owned {
            Ownership::Owned(self.raw)
        } else {
            Ownership::Released
        }
    }
}

impl NativeVsync {
    /// Wraps the handle that the native service created for `name`.
    ///
    /// The driver gets the length argument from [`name_len`], makes the
    /// native create call, and passes what the call returned as `raw`. The
    /// new wrapper is the one owner of `raw`. A name that is too long for
    /// the native call is refused with `InvalidArgs`; there is no other
    /// failure. The handle is not looked at: a null handle, with which the
    /// native service reports that it created nothing, is wrapped like any
    /// other, and [`NativeVsync::as_raw`] shows it to a caller who wants to
    /// tell.
    pub fn new(name: &str, raw: usize) -> (r: Result<NativeVsync, NativeVsyncError>)
        ensures
            match r {
                Ok(v) => name_len_result(name.len()) is Ok && v@ == Ownership::Owned(raw),
                Err(e) => name_len_result(name.len()) == Err::<u32, NativeVsyncError>(e),
            },
    {
        match name_len(name) {
            Ok(_) => Ok(NativeVsync { raw, owned: true }),
            Err(e) => Err(e),
        }
    }

    /// Adopts a handle whose ownership the caller passes on, most often in
    /// a frame callback that got the handle as its user data.
    ///
    /// The caller vouches for what cannot be checked here: that the handle
    /// is live and that nobody else will destroy it. The handle type of the
    /// native service has no alignment to keep, so every address that is
    /// not null is well aligned.
    pub fn from_raw(native_vsync: usize) -> (v: NativeVsync)
        requires
            native_vsync != 0,
        ensures
            v@ == Ownership::Owned(native_vsync),
    {
        NativeVsync { raw: native_vsync, owned: true }
    }

    /// Hands the handle out and leaves the wrapper released, so that the
    /// end of its scope destroys nothing. The handle is then the only token
    /// of ownership, until [`NativeVsync::from_raw`] adopts it again.
    pub fn into_raw(&mut self) -> (raw: usize)
        requires
            old(self)@.is_owned(),
        ensures
            old(self)@ == Ownership::Owned(raw),
            final(self)@ == old(self)@.step(Event::HandedOut).next,
            old(self)@.step(Event::HandedOut).destroy is None,
    {
        self.owned = false;
        self.raw
    }

    /// The handle, for the driver to pass to the native service.
    pub fn as_raw(&self) -> (raw: usize)
        requires
            self@.is_owned(),
        ensures
            self@ == Ownership::Owned(raw),
    {
        self.raw
    }

    /// Whether the wrapper still answers for its handle.
    pub fn is_owned(&self) -> (owned: bool)
        ensures
            owned == self@.is_owned(),
    {
        self.owned
    }

    /// Reads the answer of the native service to a frame request on this
    /// handle. The wrapper keeps the handle whatever the answer, so it has
    /// to outlive the callback if the handle is needed afterwards.
    pub fn request_raw_callback(&self, status: i32) -> (r: Result<(), NativeVsyncError>)
        requires
            self@.is_owned(),
        ensures
            r == status_result(status),
    {
        check_status(status)
    }

    /// Ends the scope of the wrapper: returns the handle that the driver
    /// has to destroy now, if the wrapper still answers for one, and leaves
    /// the wrapper released. A second call returns nothing.
    #[must_use]
    pub fn teardown(&mut self) -> (destroy: Option<usize>)
        ensures
            destroy == old(self)@.step(Event::ScopeEnded).destroy,
            final(self)@ == old(self)@.step(Event::ScopeEnded).next,
    {
        if self.owned {
            self.owned = false;
            Some(self.raw)
        } else {
            None
        }
    }

    /// The frame request that passes the handle on to the callback: the
    /// user data of the callback is the handle itself, so that the callback
    /// can adopt it with [`NativeVsync::from_raw`].
    pub fn request_with_self(&self) -> (request: FrameRequest)
        requires
            self@.is_owned(),
        ensures
            self@ == Ownership::Owned(request.handle),
            request.data == request.handle,
    {
        FrameRequest { handle: self.raw, data: self.raw }
    }

    /// Reads the answer of the native service to the frame request of
    /// [`NativeVsync::request_with_self`].
    ///
    /// The wrapper is used up either way. If the service accepted the
    /// request, the handle now belongs to the pending callback and nothing
    /// is to be destroyed. If it refused, the handle went nowhere: the error
    /// comes back together with the handle, which the driver has to destroy
    /// before it hands the error on.
    #[must_use]
    pub fn request_raw_callback_with_self(&mut self, status: i32) -> (r: (
        Result<(), NativeVsyncError>,
        Option<usize>,
    ))
        requires
            old(self)@.is_owned(),
        ensures
            r.0 == status_result(status),
            r.1 == old(self)@.step(Event::FrameRequestedWithSelf { status }).destroy,
            final(self)@ == old(self)@.step(Event::FrameRequestedWithSelf { status }).next,
            r.0 is Ok <==> r.1 is None,
    {
        self.owned = false;
        match check_status(status) {
            Ok(()) => (Ok(()), None),
            Err(e) => (Err(e), Some(self.raw)),
        }
    }

    /// Reads the answer of the native service to a period query on this
    /// handle: `status` is what the call returned, `period` what it wrote.
    ///
    /// A zero status gives the period in nanoseconds, any other status is
    /// handed on as `RawErr`. The wrapper keeps its handle either way.
    pub fn get_period(&self, status: i32, period: i64) -> (r: Result<u64, NativeVsyncError>)
        requires
            self@.is_owned(),
        ensures
            r == period_result(status, period),
    {
        match check_status(status) {
            Ok(()) => {
                let nanos: u64 = #[verifier::truncate]
                (period as u64);
                assert(period < 0 ==> nanos == period + 0x1_0000_0000_0000_0000) by (bit_vector)
                    requires
                        nanos == period as u64,
                ;
                Ok(nanos)
            },
            Err(e) => Err(e),
        }
    }
}

} // verus!
