//! Enrichment of a batch of uploads: classifying the broadcast lifecycle
//! from the reported stream times, validating the auxiliary fields the
//! content API returned, and assembling the attributes the filter rule and
//! the notification text read.

use crate::duration::{duration_text, relative_time_markup, spec_duration_text, spec_relative_markup};
use crate::filters::{LiveStreamDetails, VideoExtras, VideoExtrasView};
use crate::youtube::MissingContent;
use vstd::prelude::*;
use vstd::utf8::encode_utf8;

verus! {

/// Probing an upload's short-form flag failed.
#[derive(Debug)]
pub enum ShortsError {
    Hyper(String),
    UriParse(String),
    BadStatus(u16),
}

/// The short-form probe answers through an HTTP status: a redirect (303)
/// marks long-form content, a direct page (200) marks a short; any other
/// status is a hard error for that upload.
pub fn short_flag_from_status(status: u16) -> (r: Result<bool, ShortsError>)
    ensures
        status == 303 ==> r == Result::<bool, ShortsError>::Ok(false),
        status == 200 ==> r == Result::<bool, ShortsError>::Ok(true),
        status != 303 && status != 200 ==> r == Result::<bool, ShortsError>::Err(
            ShortsError::BadStatus(status),
        ),
{
    if status == 303 {
        Ok(false)
    } else if status == 200 {
        Ok(true)
    } else {
        Err(ShortsError::BadStatus(status))
    }
}

/// Enriching a batch of uploads failed. `Empty` is an item-less response to
/// a non-empty request; `LengthMismatch` carries the number of entries the
/// response did hold.
#[derive(Debug)]
pub enum ExtrasError {
    YouTube3(String),
    MissingContent(MissingContent),
    Empty,
    LengthMismatch(usize),
    ShortsError(ShortsError),
}

/// The three optional stream instants the content API reports for an upload
/// that has (or had) a live component.
#[derive(Clone, Copy, PartialEq, Eq, Structural, Debug)]
pub struct StreamTimes {
    pub scheduled_start: Option<u64>,
    pub actual_start: Option<u64>,
    pub actual_end: Option<u64>,
}

/// Lifecycle classification from the three stream instants: a started
/// stream is live, a started and ended one is an archived broadcast, one
/// only scheduled is upcoming, and an end without a start — or no instant
/// at all on a record that claims a live component — is a provider anomaly.
pub open spec fn spec_live_state(t: StreamTimes) -> LiveStreamDetails {
    if t.actual_start is Some {
        if t.actual_end is Some {
            LiveStreamDetails::VOD
        } else {
            LiveStreamDetails::Live
        }
    } else {
        if t.actual_end is Some {
            LiveStreamDetails::NONSENSE
        } else if t.scheduled_start is Some {
            LiveStreamDetails::Upcoming
        } else {
            LiveStreamDetails::NONSENSE
        }
    }
}

/// Classifies the stream instants and reports whether the upload was
/// scheduled at all.
pub fn classify_stream_times(t: &StreamTimes) -> (r: (LiveStreamDetails, bool))
    ensures
        r.0 == spec_live_state(*t),
        r.1 == (t.scheduled_start is Some),
{
    let state = match (t.scheduled_start, t.actual_start, t.actual_end) {
        (Some(_), None, None) => LiveStreamDetails::Upcoming,
        (_, Some(_), None) => LiveStreamDetails::Live,
        (_, Some(_), Some(_)) => LiveStreamDetails::VOD,
        (_, None, Some(_)) | (None, None, None) => LiveStreamDetails::NONSENSE,
    };
    (state, t.scheduled_start.is_some())
}

/// The auxiliary text block of one enriched upload, each field possibly
/// absent; the title sits behind a localization block that may itself be
/// absent.
pub struct RawSnippet {
    pub category_id: Option<String>,
    pub localized_title: Option<Option<String>>,
    pub channel_title: Option<String>,
}

/// Everything the content API returned for one upload in an enrichment
/// batch. `content_duration` is the length code inside the content-details
/// block: the outer option is the block, the inner the code.
pub struct RawVideoParts {
    pub id: Option<String>,
    pub content_duration: Option<Option<String>>,
    pub snippet: Option<RawSnippet>,
    pub live_streaming: Option<StreamTimes>,
}

/// What the rendered-length computation yields: the length code rendered
/// for display, or the missing field that prevented it.
pub open spec fn spec_duration_res(cd: Option<Option<String>>) -> Result<Seq<char>, MissingContent> {
    if cd is None {
        Err(MissingContent::ContentDetails)
    } else if cd->Some_0 is None {
        Err(MissingContent::VideoDuration)
    } else {
        Ok(spec_duration_text(encode_utf8(cd->Some_0->Some_0@)))
    }
}

/// The display time of an upload with a live component: an ended broadcast
/// shows its length, a started or scheduled one its start instant as
/// relative-time markup, and a record with no instant shows nothing.
pub open spec fn spec_time_of(t: StreamTimes, dur: Result<Seq<char>, MissingContent>) -> Result<
    Seq<char>,
    MissingContent,
> {
    if t.actual_end is Some {
        dur
    } else if t.actual_start is Some {
        Ok(spec_relative_markup(t.actual_start->Some_0))
    } else if t.scheduled_start is Some {
        Ok(spec_relative_markup(t.scheduled_start->Some_0))
    } else {
        Ok(Seq::empty())
    }
}

/// Lifecycle, display time and scheduling flag of one upload. An upload
/// without a live component is a plain upload showing its length; the
/// rendered-length error only surfaces in the branches that display it.
pub open spec fn spec_live_tuple(
    ls: Option<StreamTimes>,
    dur: Result<Seq<char>, MissingContent>,
) -> Result<(LiveStreamDetails, Seq<char>, bool), MissingContent> {
    match ls {
        Option::Some(t) => match spec_time_of(t, dur) {
            Result::Ok(s) => Ok((spec_live_state(t), s, t.scheduled_start is Some)),
            Result::Err(e) => Err(e),
        },
        Option::None => match dur {
            Result::Ok(d) => Ok((LiveStreamDetails::Uploaded, d, false)),
            Result::Err(e) => Err(e),
        },
    }
}

/// An enriched upload with every field validated except the short-form
/// flag, which needs one more probe; `video_id` is the id that probe takes.
pub struct PendingExtras {
    pub time_string: String,
    pub category_id: String,
    pub video_title: String,
    pub channel_title: String,
    pub live_stream_details: LiveStreamDetails,
    pub is_scheduled: bool,
    pub video_id: String,
}

/// `PendingExtras` as mathematical values.
pub struct PendingExtrasView {
    pub time_string: Seq<char>,
    pub category_id: Seq<char>,
    pub video_title: Seq<char>,
    pub channel_title: Seq<char>,
    pub live_stream_details: LiveStreamDetails,
    pub is_scheduled: bool,
    pub video_id: Seq<char>,
}

impl View for PendingExtras {
    type V = PendingExtrasView;

    open spec fn view(&self) -> PendingExtrasView {
        PendingExtrasView {
            time_string: self.time_string@,
            category_id: self.category_id@,
            video_title: self.video_title@,
            channel_title: self.channel_title@,
            live_stream_details: self.live_stream_details,
            is_scheduled: self.is_scheduled,
            video_id: self.video_id@,
        }
    }
}

/// Validation of one enrichment record, in the order the fields are read:
/// the text block must exist, the display time must be renderable, and
/// category, title, channel title and id must all be present.
pub open spec fn spec_prepare(parts: RawVideoParts) -> Result<PendingExtrasView, ExtrasError> {
    if parts.snippet is None {
        Err(ExtrasError::MissingContent(MissingContent::Snippet))
    } else {
        let sn = parts.snippet->Some_0;
        match spec_live_tuple(parts.live_streaming, spec_duration_res(parts.content_duration)) {
            Result::Err(e) => Err(ExtrasError::MissingContent(e)),
            Result::Ok((state, time, sched)) => {
                if sn.category_id is None {
                    Err(ExtrasError::MissingContent(MissingContent::CategoryId))
                } else if sn.localized_title is None {
                    Err(ExtrasError::MissingContent(MissingContent::Localized))
                } else if sn.localized_title->Some_0 is None {
                    Err(ExtrasError::MissingContent(MissingContent::VideoTitle))
                } else if sn.channel_title is None {
                    Err(ExtrasError::MissingContent(MissingContent::ChannelTitle))
                } else if parts.id is None {
                    Err(ExtrasError::MissingContent(MissingContent::VideoId))
                } else {
                    Ok(
                        PendingExtrasView {
                            time_string: time,
                            category_id: sn.category_id->Some_0@,
                            video_title: sn.localized_title->Some_0->Some_0@,
                            channel_title: sn.channel_title->Some_0@,
                            live_stream_details: state,
                            is_scheduled: sched,
                            video_id: parts.id->Some_0@,
                        },
                    )
                }
            },
        }
    }
}

/// Validates one enrichment record and renders its display time, leaving
/// only the short-form probe outstanding.
pub fn prepare_video_extras(parts: RawVideoParts) -> (r: Result<PendingExtras, ExtrasError>)
    ensures
        (r is Ok) == (spec_prepare(parts) is Ok),
        r is Ok ==> r->Ok_0@ == spec_prepare(parts)->Ok_0,
        r is Err ==> r->Err_0 == spec_prepare(parts)->Err_0,
{
    let RawVideoParts { id, content_duration, snippet, live_streaming } = parts;
    let sn = match snippet {
        Some(sn) => sn,
        None => {
            return Err(ExtrasError::MissingContent(MissingContent::Snippet));
        },
    };
    let dur: Result<String, MissingContent> = match &content_duration {
        None => Err(MissingContent::ContentDetails),
        Some(None) => Err(MissingContent::VideoDuration),
        Some(Some(d)) => Ok(duration_text(d.as_str())),
    };
    let lt: Result<(LiveStreamDetails, String, bool), MissingContent> = match &live_streaming {
        Some(t) => {
            let (state, sched) = classify_stream_times(t);
            let time: Result<String, MissingContent> = if t.actual_end.is_some() {
                dur
            } else if let Some(dt) = t.actual_start {
                Ok(relative_time_markup(dt))
            } else if let Some(dt) = t.scheduled_start {
                Ok(relative_time_markup(dt))
            } else {
                Ok(String::new())
            };
            match time {
                Ok(s) => Ok((state, s, sched)),
                Err(e) => Err(e),
            }
        },
        None => match dur {
            Ok(d) => Ok((LiveStreamDetails::Uploaded, d, false)),
            Err(e) => Err(e),
        },
    };
    let (state, time, sched) = match lt {
        Ok(v) => v,
        Err(e) => {
            return Err(ExtrasError::MissingContent(e));
        },
    };
    let category_id = match sn.category_id {
        Some(c) => c,
        None => {
            return Err(ExtrasError::MissingContent(MissingContent::CategoryId));
        },
    };
    let localized = match sn.localized_title {
        Some(l) => l,
        None => {
            return Err(ExtrasError::MissingContent(MissingContent::Localized));
        },
    };
    let video_title = match localized {
        Some(t) => t,
        None => {
            return Err(ExtrasError::MissingContent(MissingContent::VideoTitle));
        },
    };
    let channel_title = match sn.channel_title {
        Some(t) => t,
        None => {
            return Err(ExtrasError::MissingContent(MissingContent::ChannelTitle));
        },
    };
    let video_id = match id {
        Some(i) => i,
        None => {
            return Err(ExtrasError::MissingContent(MissingContent::VideoId));
        },
    };
    Ok(
        PendingExtras {
            time_string: time,
            category_id,
            video_title,
            channel_title,
            live_stream_details: state,
            is_scheduled: sched,
            video_id,
        },
    )
}

/// Attaches the short-form probe's answer to a prepared record; a failed
/// probe fails the record.
pub fn finish_extras(p: PendingExtras, short: Result<bool, ShortsError>) -> (r: Result<
    VideoExtras,
    ExtrasError,
>)
    ensures
        short is Ok ==> r is Ok && r->Ok_0@ == (VideoExtrasView {
            time_string: p@.time_string,
            category_id: p@.category_id,
            video_title: p@.video_title,
            channel_title: p@.channel_title,
            live_stream_details: p@.live_stream_details,
            is_short: short->Ok_0,
            is_scheduled: p@.is_scheduled,
        }),
        short is Err ==> r == Result::<VideoExtras, ExtrasError>::Err(
            ExtrasError::ShortsError(short->Err_0),
        ),
{
    match short {
        Ok(is_short) => Ok(
            VideoExtras {
                time_string: p.time_string,
                category_id: p.category_id,
                video_title: p.video_title,
                channel_title: p.channel_title,
                live_stream_details: p.live_stream_details,
                is_short,
                is_scheduled: p.is_scheduled,
            },
        ),
        Err(e) => Err(ExtrasError::ShortsError(e)),
    }
}

/// Checks the shape of an enrichment response against the batch that was
/// asked for: it must exist and hold exactly one record per upload.
pub fn check_extras_batch(batch_len: usize, items: Option<Vec<RawVideoParts>>) -> (r: Result<
    Vec<RawVideoParts>,
    ExtrasError,
>)
    ensures
        items is None ==> r == Result::<Vec<RawVideoParts>, ExtrasError>::Err(ExtrasError::Empty),
        items is Some && items->Some_0@.len() != batch_len ==> r is Err && r->Err_0
            == ExtrasError::LengthMismatch(items->Some_0@.len() as usize),
        items is Some && items->Some_0@.len() == batch_len ==> r is Ok && r->Ok_0 == items->Some_0,
{
    match items {
        None => Err(ExtrasError::Empty),
        Some(v) => {
            if v.len() != batch_len {
                Err(ExtrasError::LengthMismatch(v.len()))
            } else {
                Ok(v)
            }
        },
    }
}

} // verus!
