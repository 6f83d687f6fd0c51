//! One output lane of a PWM operator.
//!
//! The hardware lane holds a compare timestamp: the counter value at which
//! the output changes within each period. This type stands for a claimed
//! lane and records the timestamp that was last written to it. It cannot be
//! copied, so a lane has one owner and one writer.

use vstd::prelude::*;

use crate::error::MotorError;

verus! {

/// What a lane holds after a request: the new timestamp where the request
/// was granted, and what it held before where it was refused.
pub open spec fn timestamp_after(
    before: Option<u16>,
    request: Result<u16, MotorError>,
) -> Option<u16> {
    match request {
        Ok(timestamp) => Some(timestamp),
        Err(_) => before,
    }
}

/// A claimed PWM output lane, viewed as the compare timestamp last written
/// to it, or `None` while nothing has been written.
#[derive(Debug)]
pub struct PwmChannel {
    timestamp: Option<u16>,
}

impl View for PwmChannel {
    type V = Option<u16>;

    closed spec fn view(&self) -> Option<u16> {
        self.timestamp
    }
}

impl PwmChannel {
    /// A lane to which nothing has been written yet.
    pub fn new() -> (channel: PwmChannel)
        ensures
            channel@ is None,
    {
        PwmChannel { timestamp: None }
    }

    /// The compare timestamp last written, if any.
    pub fn timestamp(&self) -> (timestamp: Option<u16>)
        ensures
            timestamp == self@,
    {
        self.timestamp
    }

    /// Records `value` as the lane's compare timestamp.
    pub fn set_timestamp(&mut self, value: u16)
        ensures
            final(self)@ == Some(value),
        no_unwind
    {
        self.timestamp = Some(value);
    }
}

} // verus!
