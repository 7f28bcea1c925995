use feedwatch::filters::{LiveStreamDetails, VideoExtras};
use feedwatch::message::notification_text;
use feedwatch::text::decimal_string;
use feedwatch::youtube::{videos_from_items, ItemDetails, MissingContent, Video};

fn note_extras(lsd: LiveStreamDetails, time_string: &str) -> VideoExtras {
    VideoExtras {
        time_string: String::from(time_string),
        category_id: String::from("20"),
        video_title: String::from("New video"),
        channel_title: String::from("Some channel"),
        live_stream_details: lsd,
        is_short: false,
        is_scheduled: false,
    }
}

#[test]
fn plain_upload_message_text() {
    let extras = note_extras(LiveStreamDetails::Uploaded, "`1:23`");
    let text = notification_text(&extras, "vid01", "Gaming", Some("\u{1F3AE}"));
    assert_eq!(
        text,
        "## Some channel \u{1F3AE} Gaming\n# `1:23` [New video](https://youtu.be/vid01)"
    );
}

#[test]
fn live_message_carries_marker_and_no_emoji_leaves_gap() {
    let extras = note_extras(LiveStreamDetails::Live, "<t:1700000000:R>");
    let text = notification_text(&extras, "vid02", "Odd category", None);
    assert_eq!(
        text,
        "## Some channel  Odd category\n# \u{1F534} <t:1700000000:R> [New video](https://youtu.be/vid02)"
    );
}

#[test]
fn upcoming_and_archive_markers() {
    let upcoming = note_extras(LiveStreamDetails::Upcoming, "<t:5:R>");
    let text = notification_text(&upcoming, "v", "C", None);
    assert!(text.contains("\n# \u{23F1}\u{FE0F} <t:5:R> ["));
    let vod = note_extras(LiveStreamDetails::VOD, "`1:00`");
    let text = notification_text(&vod, "v", "C", None);
    assert!(text.contains("\n# \u{2B55} `1:00` ["));
}

#[test]
fn decimal_rendering_is_exact() {
    assert_eq!(decimal_string(0), "0");
    assert_eq!(decimal_string(7), "7");
    assert_eq!(decimal_string(10), "10");
    assert_eq!(decimal_string(1234567890), "1234567890");
    assert_eq!(decimal_string(u64::MAX), "18446744073709551615");
}

#[test]
fn page_validation_collects_in_order() {
    let items = vec![
        Some(ItemDetails {
            video_id: Some(String::from("a")),
            video_published_at: Some(10),
        }),
        Some(ItemDetails {
            video_id: Some(String::from("b")),
            video_published_at: Some(20),
        }),
    ];
    let videos = videos_from_items(items).unwrap();
    assert_eq!(videos.len(), 2);
    assert_eq!(videos[0].id, "a");
    assert_eq!(videos[0].published_at, 10);
    assert_eq!(videos[1].id, "b");
}

#[test]
fn first_defective_entry_decides_error() {
    let items = vec![
        Some(ItemDetails {
            video_id: Some(String::from("a")),
            video_published_at: Some(10),
        }),
        Some(ItemDetails { video_id: None, video_published_at: Some(20) }),
        None,
    ];
    assert!(matches!(videos_from_items(items), Err(MissingContent::VideoId)));
    let items: Vec<Option<ItemDetails>> = vec![None];
    assert!(matches!(videos_from_items(items), Err(MissingContent::ContentDetails)));
    let items = vec![
        Some(ItemDetails { video_id: Some(String::from("a")), video_published_at: None }),
    ];
    assert!(matches!(videos_from_items(items), Err(MissingContent::VideoPublishedAt)));
}

#[test]
fn single_entry_validation() {
    let v = Video::try_from(ItemDetails {
        video_id: Some(String::from("x")),
        video_published_at: Some(5),
    })
    .unwrap();
    assert_eq!(v.id, "x");
    assert_eq!(v.published_at, 5);
    assert!(matches!(
        Video::try_from(ItemDetails { video_id: None, video_published_at: None }),
        Err(MissingContent::VideoId)
    ));
}

#[test]
fn missing_content_names_itself() {
    assert_eq!(MissingContent::VideoId.as_text(), "VideoId");
    assert_eq!(MissingContent::ChannelTitle.as_text(), "ChannelTitle");
}
