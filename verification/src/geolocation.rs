//! Geolocation adapter: classification of platform failures and the
//! one-shot discipline of the position callback.

use vstd::prelude::*;

verus! {

/// Reason the platform geolocation service gives when a position request
/// fails. The platform reports the reason as a small numeric code; the
/// adapter turns it into a tagged value so the rest of the page never sees
/// raw codes.
#[derive(Clone, Copy, Debug, PartialEq, Eq, Structural)]
pub enum LocationError {
    /// The user (or a policy) denied the permission prompt.
    PermissionDenied,
    /// The platform could not determine a position.
    PositionUnavailable,
    /// The platform's own timeout elapsed before a position was found.
    Timeout,
}

/// Translates the platform's numeric error code into a [`LocationError`].
///
/// The geolocation API defines code 1 for a denied permission, 2 for an
/// unavailable position and 3 for a timeout. Any other code is out of the
/// platform's contract and is treated as an unavailable position.
pub fn classify_position_error(code: u16) -> (r: LocationError)
    ensures
        code == 1 ==> r == LocationError::PermissionDenied,
        code == 3 ==> r == LocationError::Timeout,
        code != 1 && code != 3 ==> r == LocationError::PositionUnavailable,
{
    if code == 1 {
        LocationError::PermissionDenied
    } else if code == 3 {
        LocationError::Timeout
    } else {
        LocationError::PositionUnavailable
    }
}

/// A one-shot latch for the position request's pair of callbacks.
///
/// The adapter registers a success handler and a failure handler with the
/// platform and must deliver exactly one event however the callbacks fire.
/// Each handler asks this latch before emitting; only the first asker is
/// allowed through.
pub struct OneShot {
    pub fired: bool,
}

impl OneShot {
    /// A fresh latch that has let nothing through yet.
    pub fn new() -> (r: OneShot)
        ensures
            !r.fired,
    {
        OneShot { fired: false }
    }

    /// Reports whether this latch was still unfired, and shuts it.
    pub fn try_fire(&mut self) -> (r: bool)
        ensures
            r == !old(self).fired,
            final(self).fired,
    {
        let r = !self.fired;
        self.fired = true;
        r
    }
}

} // verus!
