//! The workunit builder: joining the new uploads of one feed with the
//! subscribers whose delivery cursor lies behind them, one workunit per
//! (upload, subscriber) pair still to be delivered.

use crate::filters::{Filters, VideoExtras, VideoExtrasView};
use crate::youtube::{Video, VideoView};
use vstd::prelude::*;

verus! {

/// One subscriber of one feed: the endpoint it is notified at, the publish
/// instant of the newest upload already handled for it, and its
/// content-type switches.
#[derive(Clone, Copy, PartialEq, Eq, Structural, Debug)]
pub struct Subscription {
    pub channel_id: u64,
    pub cursor: u64,
    pub filters: Filters,
}

/// The content-type switches of the subscription carrying endpoint `ch`:
/// those of the first such subscription in the list, if one exists.
pub open spec fn spec_filters_of(subs: Seq<Subscription>, ch: u64) -> Option<Filters>
    decreases subs.len(),
{
    if subs.len() == 0 {
        None
    } else if subs[0].channel_id == ch {
        Some(subs[0].filters)
    } else {
        spec_filters_of(subs.drop_first(), ch)
    }
}

proof fn lemma_filters_of_at(subs: Seq<Subscription>, ch: u64, i: int)
    requires
        0 <= i < subs.len(),
        forall|j: int| 0 <= j < i ==> (#[trigger] subs[j]).channel_id != ch,
        subs[i].channel_id == ch,
    ensures
        spec_filters_of(subs, ch) == Some(subs[i].filters),
    decreases subs.len(),
{
    if i > 0 {
        lemma_filters_of_at(subs.drop_first(), ch, i - 1);
    }
}

proof fn lemma_filters_of_none(subs: Seq<Subscription>, ch: u64)
    requires
        forall|j: int| 0 <= j < subs.len() ==> (#[trigger] subs[j]).channel_id != ch,
    ensures
        spec_filters_of(subs, ch) is None,
    decreases subs.len(),
{
    if subs.len() > 0 {
        lemma_filters_of_none(subs.drop_first(), ch);
    }
}

/// Looks a subscriber's content-type switches up in one feed's
/// subscription list.
pub fn get_filters(subs: &Vec<Subscription>, channel_id: u64) -> (r: Option<Filters>)
    ensures
        r == spec_filters_of(subs@, channel_id),
{
    let n = subs.len();
    for i in 0..n
        invariant
            n == subs@.len(),
            forall|j: int| 0 <= j < i ==> (#[trigger] subs@[j]).channel_id != channel_id,
    {
        if subs[i].channel_id == channel_id {
            proof {
                lemma_filters_of_at(subs@, channel_id, i as int);
            }
            return Some(subs[i].filters);
        }
    }
    proof {
        lemma_filters_of_none(subs@, channel_id);
    }
    None
}

/// A delivery candidate before enrichment: which upload (by position in the
/// feed's upload list) goes to which subscriber endpoint.
#[derive(Clone, Copy, PartialEq, Eq, Structural, Debug)]
pub struct IndexWorkunit {
    pub index: usize,
    pub channel_id: u64,
}

/// One candidate delivery of one enriched upload to one subscriber.
pub struct Workunit {
    pub playlist_id: String,
    pub video: Video,
    pub extras: VideoExtras,
    pub channel_id: u64,
}

/// A workunit as mathematical values.
pub struct WorkunitView {
    pub playlist_id: Seq<char>,
    pub video: VideoView,
    pub extras: VideoExtrasView,
    pub channel_id: u64,
}

impl View for Workunit {
    type V = WorkunitView;

    open spec fn view(&self) -> WorkunitView {
        WorkunitView {
            playlist_id: self.playlist_id@,
            video: self.video@,
            extras: self.extras@,
            channel_id: self.channel_id,
        }
    }
}

/// The subscriber endpoints whose cursor lies strictly behind an upload
/// published at `t`, in subscription-list order.
pub open spec fn spec_channels_to_send(subs: Seq<Subscription>, t: u64) -> Seq<u64>
    decreases subs.len(),
{
    if subs.len() == 0 {
        Seq::empty()
    } else {
        let rest = spec_channels_to_send(subs.drop_last(), t);
        if subs.last().cursor < t {
            rest.push(subs.last().channel_id)
        } else {
            rest
        }
    }
}

/// An endpoint is owed an upload exactly when some subscription carries it
/// with a cursor behind the upload's publish instant.
pub proof fn lemma_channels_to_send_membership(subs: Seq<Subscription>, t: u64, ch: u64)
    ensures
        spec_channels_to_send(subs, t).contains(ch) <==> exists|j: int|
            0 <= j < subs.len() && (#[trigger] subs[j]).channel_id == ch && subs[j].cursor < t,
    decreases subs.len(),
{
    if subs.len() > 0 {
        let pre = subs.drop_last();
        lemma_channels_to_send_membership(pre, t, ch);
        let rest = spec_channels_to_send(pre, t);
        let full = spec_channels_to_send(subs, t);
        assert(forall|j: int| 0 <= j < pre.len() ==> #[trigger] pre[j] == subs[j]);
        if full.contains(ch) {
            let k = choose|k: int| 0 <= k < full.len() && full[k] == ch;
            if subs.last().cursor < t && k == rest.len() {
                assert(subs[subs.len() - 1].channel_id == ch && subs[subs.len() - 1].cursor < t);
            } else {
                assert(rest[k] == ch);
                assert(rest.contains(ch));
                let j = choose|j: int|
                    0 <= j < pre.len() && (#[trigger] pre[j]).channel_id == ch && pre[j].cursor
                        < t;
                assert(subs[j].channel_id == ch && subs[j].cursor < t);
            }
        }
        if exists|j: int|
            0 <= j < subs.len() && (#[trigger] subs[j]).channel_id == ch && subs[j].cursor < t {
            let j = choose|j: int|
                0 <= j < subs.len() && (#[trigger] subs[j]).channel_id == ch && subs[j].cursor < t;
            if j == subs.len() - 1 {
                assert(full[full.len() - 1] == ch);
            } else {
                assert(pre[j].channel_id == ch && pre[j].cursor < t);
                assert(rest.contains(ch));
                let k = choose|k: int| 0 <= k < rest.len() && rest[k] == ch;
                assert(full[k] == ch);
            }
            assert(full.contains(ch));
        }
    }
}

/// Computes the endpoints owed an upload published at `t`.
pub fn get_channels_to_send(subs: &Vec<Subscription>, published_at: u64) -> (r: Vec<u64>)
    ensures
        r@ == spec_channels_to_send(subs@, published_at),
{
    let mut r: Vec<u64> = Vec::new();
    let n = subs.len();
    for i in 0..n
        invariant
            n == subs@.len(),
            r@ == spec_channels_to_send(subs@.take(i as int), published_at),
    {
        proof {
            assert(subs@.take(i + 1).drop_last() =~= subs@.take(i as int));
            assert(subs@.take(i + 1).last() == subs@[i as int]);
        }
        if subs[i].cursor < published_at {
            r.push(subs[i].channel_id);
        }
    }
    proof {
        assert(subs@.take(n as int) =~= subs@);
    }
    r
}

/// How far the front of the upload list consists of uploads nobody is owed:
/// the length of the longest such prefix. Everything before this position
/// may be dropped before enrichment; everything at or after it is kept,
/// because a later upload in the same batch shares the enrichment call.
pub open spec fn spec_first_relevant(videos: Seq<Video>, subs: Seq<Subscription>) -> int
    decreases videos.len(),
{
    if videos.len() == 0 {
        0
    } else if spec_channels_to_send(subs, videos[0].published_at).len() != 0 {
        0
    } else {
        1 + spec_first_relevant(videos.drop_first(), subs)
    }
}

/// The position found by `spec_first_relevant` is the first whose upload
/// somebody is owed, if any upload qualifies at all.
pub proof fn lemma_first_relevant_bounds(videos: Seq<Video>, subs: Seq<Subscription>)
    ensures
        0 <= spec_first_relevant(videos, subs) <= videos.len(),
        forall|j: int|
            0 <= j < spec_first_relevant(videos, subs) ==> spec_channels_to_send(
                subs,
                (#[trigger] videos[j]).published_at,
            ).len() == 0,
        spec_first_relevant(videos, subs) < videos.len() ==> spec_channels_to_send(
            subs,
            videos[spec_first_relevant(videos, subs)].published_at,
        ).len() != 0,
    decreases videos.len(),
{
    if videos.len() > 0 && spec_channels_to_send(subs, videos[0].published_at).len() == 0 {
        lemma_first_relevant_bounds(videos.drop_first(), subs);
        assert forall|j: int| 0 <= j < spec_first_relevant(videos, subs) implies spec_channels_to_send(
            subs,
            (#[trigger] videos[j]).published_at,
        ).len() == 0 by {
            if j > 0 {
                assert(videos.drop_first()[j - 1] == videos[j]);
            }
        }
        if spec_first_relevant(videos, subs) < videos.len() {
            assert(videos.drop_first()[spec_first_relevant(videos.drop_first(), subs)]
                == videos[spec_first_relevant(videos, subs)]);
        }
    }
}

/// The delivery candidates one upload contributes.
pub open spec fn spec_units_for(i: int, v: Video, subs: Seq<Subscription>) -> Seq<IndexWorkunit> {
    spec_channels_to_send(subs, v.published_at).map(
        |_j: int, ch: u64| IndexWorkunit { index: i as usize, channel_id: ch },
    )
}

/// All delivery candidates of one feed's upload list, upload-major in
/// publish order, subscribers in subscription-list order within one upload.
pub open spec fn spec_index_units(videos: Seq<Video>, subs: Seq<Subscription>) -> Seq<IndexWorkunit>
    decreases videos.len(),
{
    if videos.len() == 0 {
        Seq::empty()
    } else {
        spec_index_units(videos.drop_last(), subs) + spec_units_for(
            videos.len() - 1,
            videos.last(),
            subs,
        )
    }
}

/// A delivery candidate occurs exactly when its upload position is real and
/// its endpoint is owed that upload.
pub proof fn lemma_index_units_membership(
    videos: Seq<Video>,
    subs: Seq<Subscription>,
    u: IndexWorkunit,
)
    requires
        videos.len() <= usize::MAX,
    ensures
        spec_index_units(videos, subs).contains(u) <==> (u.index < videos.len()
            && spec_channels_to_send(subs, videos[u.index as int].published_at).contains(
            u.channel_id,
        )),
    decreases videos.len(),
{
    if videos.len() > 0 {
        lemma_index_units_membership(videos.drop_last(), subs, u);
        let front = spec_index_units(videos.drop_last(), subs);
        let tail = spec_units_for(videos.len() - 1, videos.last(), subs);
        let chans = spec_channels_to_send(subs, videos.last().published_at);
        assert(videos.drop_last().len() == videos.len() - 1);
        assert forall|j: int| 0 <= j < videos.len() - 1 implies videos.drop_last()[j] == videos[j]
            by {}
        if spec_index_units(videos, subs).contains(u) {
            let k = choose|k: int|
                0 <= k < spec_index_units(videos, subs).len() && spec_index_units(videos, subs)[k]
                    == u;
            if k < front.len() {
                assert(front[k] == u);
                assert(front.contains(u));
            } else {
                assert(tail[k - front.len()] == u);
                assert(chans[k - front.len()] == u.channel_id);
                assert(chans.contains(u.channel_id));
            }
        }
        if u.index < videos.len() && spec_channels_to_send(
            subs,
            videos[u.index as int].published_at,
        ).contains(u.channel_id) {
            if u.index < videos.len() - 1 {
                assert(front.contains(u));
                let k = choose|k: int| 0 <= k < front.len() && front[k] == u;
                assert(spec_index_units(videos, subs)[k] == u);
            } else {
                let k = choose|k: int| 0 <= k < chans.len() && chans[k] == u.channel_id;
                assert(tail[k] == u);
                assert(spec_index_units(videos, subs)[front.len() + k] == u);
            }
        }
    }
}

/// Every delivery candidate points at a real upload position.
pub proof fn lemma_index_units_in_range(videos: Seq<Video>, subs: Seq<Subscription>)
    ensures
        forall|k: int|
            0 <= k < spec_index_units(videos, subs).len() ==> (#[trigger] spec_index_units(
                videos,
                subs,
            )[k]).index < videos.len(),
    decreases videos.len(),
{
    if videos.len() > 0 {
        lemma_index_units_in_range(videos.drop_last(), subs);
        let front = spec_index_units(videos.drop_last(), subs);
        assert forall|k: int|
            0 <= k < spec_index_units(videos, subs).len() implies (#[trigger] spec_index_units(
            videos,
            subs,
        )[k]).index < videos.len() by {
            if k < front.len() {
                assert(spec_index_units(videos, subs)[k] == front[k]);
            }
        }
    }
}

/// Delivery candidates come out in publish order: a candidate never points
/// at an older upload than one before it. Dispatching them in list order
/// therefore notifies each subscriber oldest first.
pub proof fn lemma_index_units_ordered(videos: Seq<Video>, subs: Seq<Subscription>)
    requires
        videos.len() <= usize::MAX,
    ensures
        forall|k1: int, k2: int|
            0 <= k1 <= k2 < spec_index_units(videos, subs).len() ==> (#[trigger] spec_index_units(
                videos,
                subs,
            )[k1]).index <= (#[trigger] spec_index_units(videos, subs)[k2]).index,
    decreases videos.len(),
{
    if videos.len() > 0 {
        lemma_index_units_ordered(videos.drop_last(), subs);
        lemma_index_units_in_range(videos.drop_last(), subs);
        let front = spec_index_units(videos.drop_last(), subs);
        let tail = spec_units_for(videos.len() - 1, videos.last(), subs);
        assert forall|k1: int, k2: int|
            0 <= k1 <= k2 < spec_index_units(videos, subs).len() implies (
        #[trigger] spec_index_units(videos, subs)[k1]).index <= (#[trigger] spec_index_units(
            videos,
            subs,
        )[k2]).index by {
            if k2 < front.len() {
                assert(spec_index_units(videos, subs)[k1] == front[k1]);
                assert(spec_index_units(videos, subs)[k2] == front[k2]);
            } else if k1 < front.len() {
                assert(spec_index_units(videos, subs)[k1] == front[k1]);
                assert(spec_index_units(videos, subs)[k2] == tail[k2 - front.len()]);
            } else {
                assert(spec_index_units(videos, subs)[k1] == tail[k1 - front.len()]);
                assert(spec_index_units(videos, subs)[k2] == tail[k2 - front.len()]);
            }
        }
    }
}

/// Builds the delivery candidates of one feed from its upload list (oldest
/// first) and its subscriptions, and reports how far the front of the list
/// nobody is owed reaches. The skip-forward pointer only advances while the
/// empty prefix is contiguous; if an upload out of publish order made a
/// later list position empty, that position is retained rather than
/// skipped.
pub fn build_index_workunits(videos: &Vec<Video>, subs: &Vec<Subscription>) -> (r: (
    Vec<IndexWorkunit>,
    usize,
))
    ensures
        r.0@ == spec_index_units(videos@, subs@),
        r.1 == spec_first_relevant(videos@, subs@),
        forall|k: int|
            0 <= k < r.0@.len() ==> r.1 <= (#[trigger] r.0@[k]).index < videos@.len(),
{
    let n = videos.len();
    let mut units: Vec<IndexWorkunit> = Vec::new();
    let mut first_index: usize = 0;
    proof {
        lemma_first_relevant_bounds(videos@, subs@);
    }
    let ghost fr = spec_first_relevant(videos@, subs@);
    for i in 0..n
        invariant
            n == videos@.len(),
            fr == spec_first_relevant(videos@, subs@),
            0 <= fr <= n,
            forall|j: int|
                0 <= j < fr ==> spec_channels_to_send(
                    subs@,
                    (#[trigger] videos@[j]).published_at,
                ).len() == 0,
            fr < n ==> spec_channels_to_send(subs@, videos@[fr].published_at).len() != 0,
            first_index == if fr < i {
                fr
            } else {
                i as int
            },
            units@ == spec_index_units(videos@.take(i as int), subs@),
            forall|k: int|
                0 <= k < units@.len() ==> fr <= (#[trigger] units@[k]).index < i,
    {
        proof {
            assert(videos@.take(i + 1).drop_last() =~= videos@.take(i as int));
            assert(videos@.take(i + 1).last() == videos@[i as int]);
        }
        let channels = get_channels_to_send(subs, videos[i].published_at);
        if channels.len() == 0 {
            if first_index == i {
                first_index = i + 1;
            }
            proof {
                assert(spec_units_for(i as int, videos@[i as int], subs@).len() == 0);
                assert(units@ =~= spec_index_units(videos@.take(i + 1), subs@));
            }
        } else {
            let m = channels.len();
            let ghost units_before = units@;
            for k in 0..m
                invariant
                    m == channels@.len(),
                    channels@ == spec_channels_to_send(subs@, videos@[i as int].published_at),
                    i < n,
                    n == videos@.len(),
                    units@ == units_before + spec_units_for(
                        i as int,
                        videos@[i as int],
                        subs@,
                    ).take(k as int),
                    forall|k2: int|
                        0 <= k2 < units_before.len() ==> fr <= (
                        #[trigger] units_before[k2]).index < i,
                    fr <= i,
            {
                units.push(IndexWorkunit { index: i, channel_id: channels[k] });
                proof {
                    assert(units@ =~= units_before + spec_units_for(
                        i as int,
                        videos@[i as int],
                        subs@,
                    ).take(k + 1));
                }
            }
            proof {
                assert(spec_units_for(i as int, videos@[i as int], subs@).take(m as int)
                    =~= spec_units_for(i as int, videos@[i as int], subs@));
                assert(units@ =~= spec_index_units(videos@.take(i + 1), subs@));
            }
        }
    }
    proof {
        assert(videos@.take(n as int) =~= videos@);
    }
    (units, first_index)
}

/// Joins enriched attributes onto the delivery candidates of one feed.
/// `extras` aligns with the retained tail of the upload list, which starts
/// at `first_index`.
pub fn assign_workunit_extras(
    videos: &Vec<Video>,
    extras: &Vec<VideoExtras>,
    index_units: &Vec<IndexWorkunit>,
    first_index: usize,
    playlist_id: &String,
) -> (r: Vec<Workunit>)
    requires
        first_index <= videos@.len(),
        extras@.len() == videos@.len() - first_index,
        forall|k: int|
            0 <= k < index_units@.len() ==> first_index <= (#[trigger] index_units@[k]).index
                < videos@.len(),
    ensures
        r@.len() == index_units@.len(),
        forall|k: int|
            0 <= k < r@.len() ==> (#[trigger] r@[k])@ == (WorkunitView {
                playlist_id: playlist_id@,
                video: videos@[index_units@[k].index as int]@,
                extras: extras@[index_units@[k].index - first_index]@,
                channel_id: index_units@[k].channel_id,
            }),
{
    let mut r: Vec<Workunit> = Vec::new();
    let n = index_units.len();
    for k in 0..n
        invariant
            n == index_units@.len(),
            first_index <= videos@.len(),
            extras@.len() == videos@.len() - first_index,
            forall|k2: int|
                0 <= k2 < index_units@.len() ==> first_index <= (
                #[trigger] index_units@[k2]).index < videos@.len(),
            r@.len() == k,
            forall|k2: int|
                0 <= k2 < k ==> (#[trigger] r@[k2])@ == (WorkunitView {
                    playlist_id: playlist_id@,
                    video: videos@[index_units@[k2].index as int]@,
                    extras: extras@[index_units@[k2].index - first_index]@,
                    channel_id: index_units@[k2].channel_id,
                }),
    {
        let iu = index_units[k];
        let w = Workunit {
            playlist_id: playlist_id.clone(),
            video: videos[iu.index].duplicate(),
            extras: extras[iu.index - first_index].duplicate(),
            channel_id: iu.channel_id,
        };
        r.push(w);
    }
    r
}

} // verus!
