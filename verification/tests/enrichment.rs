use feedwatch::duration::{duration_text, relative_time_markup};
use feedwatch::extras::{
    check_extras_batch, classify_stream_times, finish_extras, prepare_video_extras,
    short_flag_from_status, ExtrasError, RawSnippet, RawVideoParts, ShortsError, StreamTimes,
};
use feedwatch::filters::LiveStreamDetails;
use feedwatch::youtube::MissingContent;

fn full_parts() -> RawVideoParts {
    RawVideoParts {
        id: Some(String::from("vid01")),
        content_duration: Some(Some(String::from("PT1H2M3S"))),
        snippet: Some(RawSnippet {
            category_id: Some(String::from("20")),
            localized_title: Some(Some(String::from("A title"))),
            channel_title: Some(String::from("A channel")),
        }),
        live_streaming: None,
    }
}

#[test]
fn duration_renders_hours_minutes_seconds() {
    assert_eq!(duration_text("PT1H2M3S"), "`1:02:03`");
    assert_eq!(duration_text("PT10M3S"), "`10:03`");
    assert_eq!(duration_text("PT5M10S"), "`5:10`");
    assert_eq!(duration_text("PT45S"), "`0:45`");
    assert_eq!(duration_text("PT12H34M56S"), "`12:34:56`");
}

#[test]
fn malformed_duration_reads_as_zeroes() {
    assert_eq!(duration_text(""), "`0:00`");
    assert_eq!(duration_text("xy"), "`0:00`");
}

#[test]
fn relative_markup_wraps_instant() {
    assert_eq!(relative_time_markup(0), "<t:0:R>");
    assert_eq!(relative_time_markup(1700000000), "<t:1700000000:R>");
}

#[test]
fn short_probe_statuses() {
    assert!(matches!(short_flag_from_status(303), Ok(false)));
    assert!(matches!(short_flag_from_status(200), Ok(true)));
    match short_flag_from_status(404) {
        Err(ShortsError::BadStatus(404)) => {},
        _ => panic!("expected a bad-status error"),
    }
}

#[test]
fn live_state_derivation_table() {
    let classify = |s: Option<u64>, a: Option<u64>, e: Option<u64>| {
        classify_stream_times(&StreamTimes {
            scheduled_start: s,
            actual_start: a,
            actual_end: e,
        })
    };
    assert!(matches!(classify(Some(1), None, None), (LiveStreamDetails::Upcoming, true)));
    assert!(matches!(classify(Some(1), Some(2), None), (LiveStreamDetails::Live, true)));
    assert!(matches!(classify(None, Some(2), None), (LiveStreamDetails::Live, false)));
    assert!(matches!(classify(Some(1), Some(2), Some(3)), (LiveStreamDetails::VOD, true)));
    assert!(matches!(classify(None, Some(2), Some(3)), (LiveStreamDetails::VOD, false)));
    assert!(matches!(classify(None, None, Some(3)), (LiveStreamDetails::NONSENSE, false)));
    assert!(matches!(classify(None, None, None), (LiveStreamDetails::NONSENSE, false)));
    assert!(matches!(classify(Some(1), None, Some(3)), (LiveStreamDetails::NONSENSE, true)));
}

#[test]
fn prepared_plain_upload_shows_length() {
    let p = prepare_video_extras(full_parts()).unwrap();
    assert_eq!(p.time_string, "`1:02:03`");
    assert!(matches!(p.live_stream_details, LiveStreamDetails::Uploaded));
    assert!(!p.is_scheduled);
    assert_eq!(p.video_id, "vid01");
    assert_eq!(p.category_id, "20");
    assert_eq!(p.video_title, "A title");
    assert_eq!(p.channel_title, "A channel");
}

#[test]
fn prepared_upcoming_shows_relative_time() {
    let mut parts = full_parts();
    parts.live_streaming = Some(StreamTimes {
        scheduled_start: Some(1700000000),
        actual_start: None,
        actual_end: None,
    });
    let p = prepare_video_extras(parts).unwrap();
    assert_eq!(p.time_string, "<t:1700000000:R>");
    assert!(matches!(p.live_stream_details, LiveStreamDetails::Upcoming));
    assert!(p.is_scheduled);
}

#[test]
fn prepared_ended_broadcast_shows_length() {
    let mut parts = full_parts();
    parts.live_streaming = Some(StreamTimes {
        scheduled_start: Some(1),
        actual_start: Some(2),
        actual_end: Some(3),
    });
    let p = prepare_video_extras(parts).unwrap();
    assert_eq!(p.time_string, "`1:02:03`");
    assert!(matches!(p.live_stream_details, LiveStreamDetails::VOD));
}

#[test]
fn prepared_anomalous_record_shows_nothing() {
    let mut parts = full_parts();
    parts.live_streaming = Some(StreamTimes {
        scheduled_start: None,
        actual_start: None,
        actual_end: None,
    });
    let p = prepare_video_extras(parts).unwrap();
    assert_eq!(p.time_string, "");
    assert!(matches!(p.live_stream_details, LiveStreamDetails::NONSENSE));
}

#[test]
fn missing_fields_error_in_read_order() {
    let mut parts = full_parts();
    parts.snippet = None;
    assert!(matches!(
        prepare_video_extras(parts),
        Err(ExtrasError::MissingContent(MissingContent::Snippet))
    ));

    let mut parts = full_parts();
    parts.content_duration = None;
    assert!(matches!(
        prepare_video_extras(parts),
        Err(ExtrasError::MissingContent(MissingContent::ContentDetails))
    ));

    let mut parts = full_parts();
    parts.content_duration = Some(None);
    assert!(matches!(
        prepare_video_extras(parts),
        Err(ExtrasError::MissingContent(MissingContent::VideoDuration))
    ));

    let mut parts = full_parts();
    parts.snippet.as_mut().unwrap().category_id = None;
    assert!(matches!(
        prepare_video_extras(parts),
        Err(ExtrasError::MissingContent(MissingContent::CategoryId))
    ));

    let mut parts = full_parts();
    parts.snippet.as_mut().unwrap().localized_title = None;
    assert!(matches!(
        prepare_video_extras(parts),
        Err(ExtrasError::MissingContent(MissingContent::Localized))
    ));

    let mut parts = full_parts();
    parts.snippet.as_mut().unwrap().localized_title = Some(None);
    assert!(matches!(
        prepare_video_extras(parts),
        Err(ExtrasError::MissingContent(MissingContent::VideoTitle))
    ));

    let mut parts = full_parts();
    parts.snippet.as_mut().unwrap().channel_title = None;
    assert!(matches!(
        prepare_video_extras(parts),
        Err(ExtrasError::MissingContent(MissingContent::ChannelTitle))
    ));

    let mut parts = full_parts();
    parts.id = None;
    assert!(matches!(
        prepare_video_extras(parts),
        Err(ExtrasError::MissingContent(MissingContent::VideoId))
    ));
}

#[test]
fn duration_error_only_surfaces_where_shown() {
    // An upcoming broadcast shows its start instant, so a missing length
    // code does not fail the record.
    let mut parts = full_parts();
    parts.content_duration = None;
    parts.live_streaming = Some(StreamTimes {
        scheduled_start: Some(5),
        actual_start: None,
        actual_end: None,
    });
    assert!(prepare_video_extras(parts).is_ok());
}

#[test]
fn finishing_attaches_short_flag() {
    let p = prepare_video_extras(full_parts()).unwrap();
    let extras = finish_extras(p, Ok(true)).unwrap();
    assert!(extras.is_short);
    assert_eq!(extras.time_string, "`1:02:03`");

    let p2 = prepare_video_extras(full_parts()).unwrap();
    match finish_extras(p2, Err(ShortsError::BadStatus(500))) {
        Err(ExtrasError::ShortsError(ShortsError::BadStatus(500))) => {},
        _ => panic!("expected the probe error to fail the record"),
    }
}

#[test]
fn batch_shape_is_checked() {
    assert!(matches!(check_extras_batch(2, None), Err(ExtrasError::Empty)));
    let one = vec![full_parts()];
    assert!(matches!(check_extras_batch(2, Some(one)), Err(ExtrasError::LengthMismatch(1))));
    let two = vec![full_parts(), full_parts()];
    let ok = check_extras_batch(2, Some(two)).unwrap();
    assert_eq!(ok.len(), 2);
}
