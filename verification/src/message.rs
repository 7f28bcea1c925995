//! Composition of the notification text sent for one upload: the feed's
//! display name with its category, a lifecycle marker, the display time,
//! and the upload's title linking to it.

use crate::filters::{LiveStreamDetails, VideoExtras, VideoExtrasView};
use vstd::prelude::*;
use vstd::string::StringExecFns;

verus! {

/// The marker shown before the display time: a clock for an upcoming
/// broadcast, a red dot for a live one, a hollow dot for an archived one,
/// nothing for a plain upload or an anomalous record.
pub open spec fn spec_state_marker(lsd: LiveStreamDetails) -> Seq<char> {
    match lsd {
        LiveStreamDetails::Upcoming => "⏱️ "@,
        LiveStreamDetails::Live => "🔴 "@,
        LiveStreamDetails::VOD => "⭕ "@,
        LiveStreamDetails::Uploaded => ""@,
        LiveStreamDetails::NONSENSE => ""@,
    }
}

/// The notification text, exactly: a heading with the feed's display name,
/// the category emoji (when there is one) and the category title, then a
/// line with the lifecycle marker, the display time, and the upload's
/// title linking to the upload.
pub open spec fn spec_notification_text(
    extras: VideoExtrasView,
    video_id: Seq<char>,
    category_title: Seq<char>,
    category_emoji: Option<Seq<char>>,
) -> Seq<char> {
    "## "@ + extras.channel_title + " "@ + (match category_emoji {
        Option::Some(e) => e,
        Option::None => ""@,
    }) + " "@ + category_title + "\n# "@ + spec_state_marker(extras.live_stream_details)
        + extras.time_string + " ["@ + extras.video_title + "](https://youtu.be/"@ + video_id
        + ")"@
}

/// Renders the notification text for one enriched upload.
pub fn notification_text(
    extras: &VideoExtras,
    video_id: &str,
    category_title: &str,
    category_emoji: Option<&str>,
) -> (r: String)
    ensures
        r@ == spec_notification_text(
            extras@,
            video_id@,
            category_title@,
            match category_emoji {
                Option::Some(e) => Option::Some(e@),
                Option::None => Option::None,
            },
        ),
{
    let mut s = String::new();
    s.append("## ");
    s.append(extras.channel_title.as_str());
    s.append(" ");
    match category_emoji {
        Some(e) => s.append(e),
        None => s.append(""),
    }
    s.append(" ");
    s.append(category_title);
    s.append("\n# ");
    match extras.live_stream_details {
        LiveStreamDetails::Upcoming => s.append("⏱️ "),
        LiveStreamDetails::Live => s.append("🔴 "),
        LiveStreamDetails::VOD => s.append("⭕ "),
        LiveStreamDetails::Uploaded => s.append(""),
        LiveStreamDetails::NONSENSE => s.append(""),
    }
    s.append(extras.time_string.as_str());
    s.append(" [");
    s.append(extras.video_title.as_str());
    s.append("](https://youtu.be/");
    s.append(video_id);
    s.append(")");
    proof {
        reveal_strlit("");
        assert(s@ =~= spec_notification_text(
            extras@,
            video_id@,
            category_title@,
            match category_emoji {
                Option::Some(e) => Option::Some(e@),
                Option::None => Option::None,
            },
        ));
    }
    s
}

} // verus!
