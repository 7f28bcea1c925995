use feedwatch::filters::Filters;
use feedwatch::workunits::{build_index_workunits, get_channels_to_send, get_filters, Subscription};
use feedwatch::youtube::{reverse_videos, Video};

fn sub_at(channel_id: u64, cursor: u64) -> Subscription {
    Subscription {
        channel_id,
        cursor,
        filters: Filters { live_allowed: true, vod_allowed: true, short_allowed: true },
    }
}

fn vid(id: &str, published_at: u64) -> Video {
    Video { id: String::from(id), published_at }
}

#[test]
fn channels_need_cursor_strictly_behind() {
    let subs = vec![sub_at(1, 100), sub_at(2, 150), sub_at(3, 200)];
    // A cursor equal to the publish instant means the upload was handled.
    let channels = get_channels_to_send(&subs, 150);
    assert_eq!(channels, vec![1]);
    let channels = get_channels_to_send(&subs, 151);
    assert_eq!(channels, vec![1, 2]);
    let channels = get_channels_to_send(&subs, 100);
    assert_eq!(channels.len(), 0);
}

#[test]
fn builder_emits_upload_major_pairs() {
    let videos = vec![vid("a", 150), vid("b", 200)];
    let subs = vec![sub_at(1, 100), sub_at(2, 175)];
    let (units, first_index) = build_index_workunits(&videos, &subs);
    assert_eq!(first_index, 0);
    let pairs: Vec<(usize, u64)> = units.iter().map(|u| (u.index, u.channel_id)).collect();
    assert_eq!(pairs, vec![(0, 1), (1, 1), (1, 2)]);
}

#[test]
fn skip_forward_moves_past_contiguous_empty_prefix() {
    let videos = vec![vid("a", 50), vid("b", 60), vid("c", 200)];
    let subs = vec![sub_at(1, 100)];
    let (units, first_index) = build_index_workunits(&videos, &subs);
    assert_eq!(first_index, 2);
    assert_eq!(units.len(), 1);
    assert_eq!(units[0].index, 2);
}

#[test]
fn out_of_order_empty_position_is_retained() {
    // The middle upload is older than the cursor while its neighbours are
    // newer: the skip-forward pointer must not move past it, so its
    // position stays inside the enriched tail.
    let videos = vec![vid("new1", 150), vid("old", 50), vid("new2", 200)];
    let subs = vec![sub_at(1, 100)];
    let (units, first_index) = build_index_workunits(&videos, &subs);
    assert_eq!(first_index, 0);
    let indices: Vec<usize> = units.iter().map(|u| u.index).collect();
    assert_eq!(indices, vec![0, 2]);
}

#[test]
fn no_subscribers_skips_everything() {
    let videos = vec![vid("a", 150)];
    let subs: Vec<Subscription> = vec![];
    let (units, first_index) = build_index_workunits(&videos, &subs);
    assert_eq!(units.len(), 0);
    assert_eq!(first_index, 1);
}

#[test]
fn empty_feed_builds_nothing() {
    let videos: Vec<Video> = vec![];
    let subs = vec![sub_at(1, 100)];
    let (units, first_index) = build_index_workunits(&videos, &subs);
    assert_eq!(units.len(), 0);
    assert_eq!(first_index, 0);
}

#[test]
fn filters_found_by_endpoint() {
    let mut first = sub_at(1, 100);
    first.filters.live_allowed = false;
    let subs = vec![first, sub_at(2, 150)];
    let found = get_filters(&subs, 1).unwrap();
    assert!(!found.live_allowed);
    assert!(get_filters(&subs, 2).unwrap().live_allowed);
    assert!(get_filters(&subs, 3).is_none());
}

#[test]
fn reverse_turns_newest_first_into_oldest_first() {
    let page = vec![vid("newest", 300), vid("middle", 200), vid("oldest", 100)];
    let ordered = reverse_videos(&page);
    let ids: Vec<&str> = ordered.iter().map(|v| v.id.as_str()).collect();
    assert_eq!(ids, vec!["oldest", "middle", "newest"]);
    assert_eq!(ordered[0].published_at, 100);
}
