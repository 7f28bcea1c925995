//! Content-type filters and the limiter that decides whether one upload is
//! delivered to one subscriber.

use vstd::prelude::*;

verus! {

/// Per-subscription content-type switches. A subscriber only receives
/// notifications for the kinds of content it has allowed.
#[derive(Clone, Copy, PartialEq, Eq, Structural, Debug)]
pub struct Filters {
    pub live_allowed: bool,
    pub vod_allowed: bool,
    pub short_allowed: bool,
}

/// Broadcast-lifecycle classification of one upload, derived from the three
/// optional stream timestamps reported by the content API. `NONSENSE` stands
/// for a provider data anomaly where the reported times describe no valid
/// lifecycle state.
#[allow(non_camel_case_types)]
#[derive(Clone, Copy, PartialEq, Eq, Structural, Debug)]
pub enum LiveStreamDetails {
    Live,
    VOD,
    Uploaded,
    Upcoming,
    NONSENSE,
}

/// Auxiliary attributes of one upload, fetched lazily for uploads that have
/// at least one subscriber waiting.
#[derive(Clone)]
pub struct VideoExtras {
    pub time_string: String,
    pub category_id: String,
    pub video_title: String,
    pub channel_title: String,
    pub live_stream_details: LiveStreamDetails,
    pub is_short: bool,
    pub is_scheduled: bool,
}

/// The attributes of one upload as mathematical values.
pub struct VideoExtrasView {
    pub time_string: Seq<char>,
    pub category_id: Seq<char>,
    pub video_title: Seq<char>,
    pub channel_title: Seq<char>,
    pub live_stream_details: LiveStreamDetails,
    pub is_short: bool,
    pub is_scheduled: bool,
}

impl View for VideoExtras {
    type V = VideoExtrasView;

    open spec fn view(&self) -> VideoExtrasView {
        VideoExtrasView {
            time_string: self.time_string@,
            category_id: self.category_id@,
            video_title: self.video_title@,
            channel_title: self.channel_title@,
            live_stream_details: self.live_stream_details,
            is_short: self.is_short,
            is_scheduled: self.is_scheduled,
        }
    }
}

impl VideoExtras {
    /// An exact copy of these attributes.
    pub fn duplicate(&self) -> (r: VideoExtras)
        ensures
            r@ == self@,
    {
        VideoExtras {
            time_string: self.time_string.clone(),
            category_id: self.category_id.clone(),
            video_title: self.video_title.clone(),
            channel_title: self.channel_title.clone(),
            live_stream_details: self.live_stream_details,
            is_short: self.is_short,
            is_scheduled: self.is_scheduled,
        }
    }
}

/// An upload is suppressed for a subscriber when its lifecycle state is the
/// provider anomaly, or when it is of a content type the subscriber has
/// switched off. An upload first observed while scheduled escapes the live
/// and archive filters: it was already surfaced as an upcoming notice, so
/// hiding its later states would be more confusing than delivering them.
pub open spec fn spec_suppressed(extras: &VideoExtras, filters: &Filters) -> bool {
    ||| extras.live_stream_details is NONSENSE
    ||| (extras.is_short && !filters.short_allowed)
    ||| (extras.live_stream_details is Live && !filters.live_allowed && !extras.is_scheduled)
    ||| (extras.live_stream_details is VOD && !filters.vod_allowed && !extras.is_scheduled)
}

/// The filter rule: decides from the subscriber's switches and the upload's
/// attributes whether the notification is sent. A suppressed upload still
/// advances the subscriber's cursor; it is skipped, not postponed.
pub fn eligible(extras: &VideoExtras, filters: &Filters) -> (r: bool)
    ensures
        r == !spec_suppressed(extras, filters),
{
    if matches!(extras.live_stream_details, LiveStreamDetails::NONSENSE) {
        return false;
    }
    !((extras.is_short && !filters.short_allowed)
        || (matches!(extras.live_stream_details, LiveStreamDetails::Live)
            && !filters.live_allowed
            && !extras.is_scheduled)
        || (matches!(extras.live_stream_details, LiveStreamDetails::VOD)
            && !filters.vod_allowed
            && !extras.is_scheduled))
}

} // verus!
