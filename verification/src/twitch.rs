//! Decisions on the Twitch side: when the user token is refreshed, and what
//! the periodic poll of the channel records.

use vstd::prelude::*;
use crate::app_state::AppState;

verus! {

/// Nanoseconds in a second.
pub const NANOS_PER_SEC: u64 = 1_000_000_000;
/// Remaining token lifetime, in seconds, under which the token is refreshed.
pub const REFRESH_MARGIN_SECS: u64 = 60;

/// A remaining lifetime of `secs` seconds and `nanos` nanoseconds, in nanoseconds.
pub open spec fn lifetime_nanos(secs: u64, nanos: u32) -> int {
    secs * NANOS_PER_SEC + nanos
}

/// On a keepalive ping the token is refreshed when less than a minute of it
/// is left.
pub fn refresh_due_on_ping(secs: u64, nanos: u32) -> (due: bool)
    requires
        nanos < NANOS_PER_SEC,
    ensures
        due == (lifetime_nanos(secs, nanos) < REFRESH_MARGIN_SECS * NANOS_PER_SEC),
{
    secs < REFRESH_MARGIN_SECS
}

/// On a poll the token is refreshed when at most a minute of it is left.
pub fn refresh_due_on_poll(secs: u64, nanos: u32) -> (due: bool)
    requires
        nanos < NANOS_PER_SEC,
    ensures
        due == (lifetime_nanos(secs, nanos) <= REFRESH_MARGIN_SECS * NANOS_PER_SEC),
{
    secs < REFRESH_MARGIN_SECS || (secs == REFRESH_MARGIN_SECS && nanos == 0)
}

impl AppState {
    /// Records the live flag of the first channel that the search returned,
    /// which is the broadcaster's own, and gives it to announce.
    pub fn apply_channel_search(&mut self, channels_live: &Vec<bool>) -> (is_live: bool)
        requires
            channels_live.len() > 0,
        ensures
            is_live == channels_live@[0],
            *final(self) == (AppState { is_live: is_live, ..*old(self) }),
    {
        let is_live = channels_live[0];
        self.is_live = is_live;
        is_live
    }

    /// Records the viewer count of the broadcaster's stream when it is
    /// online (the stream list is not empty), cut to 32 bits as the count is
    /// kept, and gives it to announce; an offline stream changes nothing.
    pub fn apply_stream_viewers(&mut self, viewer_counts: &Vec<usize>) -> (viewers: Option<i32>)
        ensures
            viewer_counts.len() == 0 ==> viewers is None && *final(self) == *old(self),
            viewer_counts.len() > 0 ==> viewers == Some(viewer_counts@[0] as i32) && *final(self)
                == (AppState { viewers: viewer_counts@[0] as i32, ..*old(self) }),
    {
        if viewer_counts.len() == 0 {
            return None;
        }
        let viewers = viewer_counts[0] as i32;
        self.viewers = viewers;
        Some(viewers)
    }
}

} // verus!
