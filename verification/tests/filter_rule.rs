use feedwatch::filters::{eligible, Filters, LiveStreamDetails, VideoExtras};

fn filter_extras(lsd: LiveStreamDetails, is_short: bool, is_scheduled: bool) -> VideoExtras {
    VideoExtras {
        time_string: String::from("`1:00`"),
        category_id: String::from("20"),
        video_title: String::from("A title"),
        channel_title: String::from("A channel"),
        live_stream_details: lsd,
        is_short,
        is_scheduled,
    }
}

fn filter_switches(live: bool, vod: bool, short: bool) -> Filters {
    Filters { live_allowed: live, vod_allowed: vod, short_allowed: short }
}

#[test]
fn short_blocked_when_shorts_not_allowed() {
    let extras = filter_extras(LiveStreamDetails::Uploaded, true, false);
    let filters = filter_switches(true, true, false);
    assert!(!eligible(&extras, &filters));
}

#[test]
fn scheduled_live_escapes_live_filter() {
    let extras = filter_extras(LiveStreamDetails::Live, false, true);
    let filters = filter_switches(false, true, true);
    assert!(eligible(&extras, &filters));
}

#[test]
fn nonsense_always_ineligible() {
    let extras = filter_extras(LiveStreamDetails::NONSENSE, false, false);
    assert!(!eligible(&extras, &filter_switches(true, true, true)));
    assert!(!eligible(&extras, &filter_switches(false, false, false)));
    let scheduled = filter_extras(LiveStreamDetails::NONSENSE, false, true);
    assert!(!eligible(&scheduled, &filter_switches(true, true, true)));
}

#[test]
fn unscheduled_live_blocked_without_live_filter() {
    let extras = filter_extras(LiveStreamDetails::Live, false, false);
    assert!(!eligible(&extras, &filter_switches(false, true, true)));
    assert!(eligible(&extras, &filter_switches(true, false, false)));
}

#[test]
fn scheduled_vod_escapes_vod_filter() {
    let extras = filter_extras(LiveStreamDetails::VOD, false, true);
    assert!(eligible(&extras, &filter_switches(true, false, true)));
    let unscheduled = filter_extras(LiveStreamDetails::VOD, false, false);
    assert!(!eligible(&unscheduled, &filter_switches(true, false, true)));
}

#[test]
fn plain_upload_always_eligible_when_not_short() {
    let extras = filter_extras(LiveStreamDetails::Uploaded, false, false);
    assert!(eligible(&extras, &filter_switches(false, false, false)));
}
