//! Capture timestamps and the day-wrap calculation.
//!
//! A capture timestamp is the naive (timezone-less) date and time a media
//! file's "original capture" metadata field records. A day-wrap offset is a
//! configured time of day; it is added to a capture's time of day and, when
//! the sum crosses 24:00, the capture is filed under the next calendar day's
//! bucket.

use vstd::prelude::*;

verus! {

/// The embedded capture date and time of one media file, as plain integers.
/// No timezone: capture time is treated as local. The engine never validates
/// calendar ranges here; whatever the metadata reader hands over is bucketed
/// as-is (day overflow past the end of a month is an accepted edge case).
#[derive(Clone, Copy, Debug, PartialEq, Eq, Structural)]
pub struct CaptureTimestamp {
    pub year: u16,
    pub month: u8,
    pub day: u8,
    pub hour: u8,
    pub minute: u8,
    pub second: u8,
}

/// The configured hour:minute pair at which a capture is considered to belong
/// to the next calendar day. Read-only after parsing, one per run.
#[derive(Clone, Copy, Debug, PartialEq, Eq, Structural)]
pub struct DayWrapOffset {
    pub hour: u8,
    pub minute: u8,
}

impl DayWrapOffset {
    /// A parsed offset always lies within one day.
    pub open spec fn wf(self) -> bool {
        self.hour <= 23 && self.minute <= 59
    }
}

/// How many days the destination bucket advances past the capture's own day:
/// one exactly when the capture's time of day plus the offset crosses 24:00,
/// computed as minute carry followed by hour overflow.
pub open spec fn spec_wraps_forward(ts: CaptureTimestamp, offset: DayWrapOffset) -> u8 {
    if ts.hour + offset.hour + (if ts.minute + offset.minute > 59 {
        1int
    } else {
        0int
    }) > 23 {
        1u8
    } else {
        0u8
    }
}

/// Decides whether the bucketed day rolls forward for this capture.
pub fn wraps_forward(ts: &CaptureTimestamp, offset: &DayWrapOffset) -> (wrap: u8)
    ensures
        wrap == spec_wraps_forward(*ts, *offset),
        wrap <= 1,
{
    let minute_carry: u32 = if ts.minute as u32 + offset.minute as u32 > 59 {
        1
    } else {
        0
    };
    if ts.hour as u32 + offset.hour as u32 + minute_carry > 23 {
        1
    } else {
        0
    }
}

} // verus!
