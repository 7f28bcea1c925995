use feedwatch::engine::{DispatchEvents, Engine, SentFollowup, Terminal};
use feedwatch::filters::{eligible, Filters, LiveStreamDetails, VideoExtras};
use feedwatch::workunits::{assign_workunit_extras, build_index_workunits, Subscription, Workunit};
use feedwatch::youtube::Video;

fn plain_extras() -> VideoExtras {
    VideoExtras {
        time_string: String::from("`1:00`"),
        category_id: String::from("20"),
        video_title: String::from("A title"),
        channel_title: String::from("A channel"),
        live_stream_details: LiveStreamDetails::Uploaded,
        is_short: false,
        is_scheduled: false,
    }
}

fn open_filters() -> Filters {
    Filters { live_allowed: true, vod_allowed: true, short_allowed: true }
}

fn unit_for(id: &str, published_at: u64, channel_id: u64) -> Workunit {
    Workunit {
        playlist_id: String::from("UUtestplaylist0000000000"),
        video: Video { id: String::from(id), published_at },
        extras: plain_extras(),
        channel_id,
    }
}

#[test]
fn end_to_end_two_items_one_subscriber() {
    // Feed cursor at 100; two uploads published later, listed oldest first.
    let videos = vec![
        Video { id: String::from("older"), published_at: 150 },
        Video { id: String::from("newer"), published_at: 200 },
    ];
    let subs = vec![Subscription { channel_id: 7, cursor: 100, filters: open_filters() }];
    let (index_units, first_index) = build_index_workunits(&videos, &subs);
    assert_eq!(first_index, 0);
    assert_eq!(index_units.len(), 2);
    let extras = vec![plain_extras(), plain_extras()];
    let playlist = String::from("UUtestplaylist0000000000");
    let workunits = assign_workunit_extras(&videos, &extras, &index_units, first_index, &playlist);
    assert_eq!(workunits.len(), 2);

    let mut engine = Engine::new(subs);
    for w in workunits {
        let filters = engine.subs[0].filters;
        assert!(eligible(&w.extras, &filters));
        let t = engine.conclude_workunit(w, DispatchEvents::Sent { followup: SentFollowup::CursorOk });
        assert_eq!(t, Terminal::Delivered);
    }

    // Exactly two sends, oldest first, and the cursor ends at the newest
    // upload's publish instant.
    assert_eq!(engine.sent_log.len(), 2);
    assert_eq!(engine.sent_log[0].video_id, "older");
    assert_eq!(engine.sent_log[1].video_id, "newer");
    assert_eq!(engine.subs[0].cursor, 200);
    assert_eq!(engine.retries.len(), 0);
}

#[test]
fn delivered_item_not_rebuilt_next_cycle() {
    let videos = vec![Video { id: String::from("older"), published_at: 150 }];
    let subs = vec![Subscription { channel_id: 7, cursor: 100, filters: open_filters() }];
    let mut engine = Engine::new(subs);
    let w = unit_for("older", 150, 7);
    engine.conclude_workunit(w, DispatchEvents::Sent { followup: SentFollowup::CursorOk });
    // Next cycle re-reads the same feed: the upload is no longer owed.
    let (index_units, first_index) = build_index_workunits(&videos, &engine.subs);
    assert_eq!(index_units.len(), 0);
    assert_eq!(first_index, 1);
}

#[test]
fn compensated_nets_out_to_send_failure() {
    let subs = vec![Subscription { channel_id: 7, cursor: 100, filters: open_filters() }];
    let mut compensated = Engine::new(subs.clone());
    let mut send_failed = Engine::new(subs);
    let t1 = compensated.conclude_workunit(
        unit_for("x", 150, 7),
        DispatchEvents::Sent { followup: SentFollowup::CursorFailDeleteOk },
    );
    let t2 = send_failed.conclude_workunit(unit_for("x", 150, 7), DispatchEvents::SendFailed);
    assert_eq!(t1, Terminal::Compensated);
    assert_eq!(t2, Terminal::SendFailed);
    // The net observable state is identical: no standing message, cursor
    // unchanged, nothing queued.
    assert_eq!(compensated.subs, send_failed.subs);
    assert_eq!(compensated.subs[0].cursor, 100);
    assert_eq!(compensated.sent_log.len(), 0);
    assert_eq!(send_failed.sent_log.len(), 0);
    assert_eq!(compensated.retries.len(), 0);
    assert_eq!(send_failed.retries.len(), 0);
}

#[test]
fn double_failure_queues_and_drain_empties() {
    let subs = vec![Subscription { channel_id: 7, cursor: 100, filters: open_filters() }];
    let mut engine = Engine::new(subs);
    let t = engine.conclude_workunit(
        unit_for("x", 150, 7),
        DispatchEvents::Sent { followup: SentFollowup::CursorFailDeleteFail },
    );
    assert_eq!(t, Terminal::Deferred);
    assert_eq!(engine.retries.len(), 1);
    assert_eq!(engine.retries[0].video.id, "x");
    // The message stands undeleted and the cursor is not advanced yet.
    assert_eq!(engine.sent_log.len(), 1);
    assert_eq!(engine.subs[0].cursor, 100);
    // Resync keeps retrying until the write lands.
    let outcomes = vec![false, false, true];
    engine.drain_retries(&outcomes);
    assert_eq!(engine.retries.len(), 0);
    assert_eq!(engine.subs[0].cursor, 150);
    assert_eq!(engine.sent_log.len(), 1);
}

#[test]
fn drain_on_empty_queue_changes_nothing() {
    let subs = vec![Subscription { channel_id: 7, cursor: 100, filters: open_filters() }];
    let mut engine = Engine::new(subs);
    let outcomes = vec![true, true];
    engine.drain_retries(&outcomes);
    assert_eq!(engine.retries.len(), 0);
    assert_eq!(engine.subs[0].cursor, 100);
}

#[test]
fn failed_resync_moves_head_to_tail() {
    let subs = vec![Subscription { channel_id: 7, cursor: 100, filters: open_filters() }];
    let mut engine = Engine::new(subs);
    engine.conclude_workunit(
        unit_for("first", 150, 7),
        DispatchEvents::Sent { followup: SentFollowup::CursorFailDeleteFail },
    );
    engine.conclude_workunit(
        unit_for("second", 160, 7),
        DispatchEvents::Sent { followup: SentFollowup::CursorFailDeleteFail },
    );
    assert_eq!(engine.retries[0].video.id, "first");
    engine.resync_step(false);
    assert_eq!(engine.retries.len(), 2);
    assert_eq!(engine.retries[0].video.id, "second");
    assert_eq!(engine.retries[1].video.id, "first");
    engine.resync_step(true);
    assert_eq!(engine.retries.len(), 1);
    assert_eq!(engine.subs[0].cursor, 160);
}

#[test]
fn suppressed_upload_advances_cursor_without_send() {
    let subs = vec![Subscription { channel_id: 7, cursor: 100, filters: open_filters() }];
    let mut engine = Engine::new(subs);
    let t = engine.conclude_workunit(
        unit_for("x", 150, 7),
        DispatchEvents::Suppressed { cursor_ok: true },
    );
    assert_eq!(t, Terminal::FilteredAdvanced);
    assert_eq!(engine.sent_log.len(), 0);
    assert_eq!(engine.subs[0].cursor, 150);
}

#[test]
fn cursor_never_moves_backwards() {
    let subs = vec![Subscription { channel_id: 7, cursor: 300, filters: open_filters() }];
    let mut engine = Engine::new(subs);
    engine.conclude_workunit(
        unit_for("late", 150, 7),
        DispatchEvents::Sent { followup: SentFollowup::CursorOk },
    );
    assert_eq!(engine.subs[0].cursor, 300);
}

#[test]
fn send_failure_leaves_state_for_retry() {
    let subs = vec![Subscription { channel_id: 7, cursor: 100, filters: open_filters() }];
    let mut engine = Engine::new(subs);
    let t = engine.conclude_workunit(unit_for("x", 150, 7), DispatchEvents::SendFailed);
    assert_eq!(t, Terminal::SendFailed);
    assert_eq!(engine.subs[0].cursor, 100);
    assert_eq!(engine.sent_log.len(), 0);
    assert_eq!(engine.retries.len(), 0);
}
