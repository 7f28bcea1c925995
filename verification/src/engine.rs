//! The dispatch-and-reconcile engine.
//!
//! Each workunit runs through a small state machine: a suppressed upload
//! only advances the subscriber's cursor; a failed send changes nothing
//! (the upload stays newer than the cursor and is retried next cycle); a
//! sent notification must be followed by a cursor write, and when that
//! write fails the notification is deleted again — when even the delete
//! fails, the workunit joins the resync queue, which is retried until the
//! cursor write finally lands.
//!
//! The engine holds the model of the externally observable state: the
//! subscription table as last written, the resync queue, and the log of
//! notifications currently standing in subscriber channels. The
//! surrounding application performs the real sends, deletes and writes,
//! and reports each outcome; the engine applies the outcome to the model
//! and names the terminal state reached.

use crate::workunits::{Subscription, Workunit, WorkunitView, spec_channels_to_send, spec_index_units, lemma_channels_to_send_membership, lemma_index_units_membership};
use crate::youtube::Video;
use vstd::prelude::*;

verus! {

/// What followed a successful send: the cursor write landed, or it failed
/// and the compensating delete either landed or failed too.
#[derive(Clone, Copy, PartialEq, Eq, Structural, Debug)]
pub enum SentFollowup {
    CursorOk,
    CursorFailDeleteOk,
    CursorFailDeleteFail,
}

/// Everything the application observed while driving one workunit.
#[derive(Clone, Copy, PartialEq, Eq, Structural, Debug)]
pub enum DispatchEvents {
    Suppressed { cursor_ok: bool },
    SendFailed,
    Sent { followup: SentFollowup },
}

/// The terminal state a workunit reached within its cycle.
#[derive(Clone, Copy, PartialEq, Eq, Structural, Debug)]
pub enum Terminal {
    FilteredAdvanced,
    FilteredRetry,
    SendFailed,
    Delivered,
    Compensated,
    Deferred,
}

/// One notification standing in a subscriber channel.
pub struct SentRecord {
    pub channel_id: u64,
    pub video_id: String,
}

/// A standing notification as mathematical values.
pub struct SentRecordView {
    pub channel_id: u64,
    pub video_id: Seq<char>,
}

impl View for SentRecord {
    type V = SentRecordView;

    open spec fn view(&self) -> SentRecordView {
        SentRecordView { channel_id: self.channel_id, video_id: self.video_id@ }
    }
}

/// The engine's state for one feed: its subscription table as last
/// persisted, the resync queue (front first), and the notifications
/// standing in subscriber channels.
pub struct Engine {
    pub subs: Vec<Subscription>,
    pub retries: Vec<Workunit>,
    pub sent_log: Vec<SentRecord>,
}

/// The engine's state as mathematical values.
pub struct EngineView {
    pub subs: Seq<Subscription>,
    pub retries: Seq<WorkunitView>,
    pub sent_log: Seq<SentRecordView>,
}

impl View for Engine {
    type V = EngineView;

    open spec fn view(&self) -> EngineView {
        EngineView {
            subs: self.subs@,
            retries: self.retries@.map(|_i: int, w: Workunit| w@),
            sent_log: self.sent_log@.map(|_i: int, r: SentRecord| r@),
        }
    }
}

/// The notification a workunit leaves standing when sent.
pub open spec fn record_of(w: WorkunitView) -> SentRecordView {
    SentRecordView { channel_id: w.channel_id, video_id: w.video.id }
}

/// The subscription table after the cursor of endpoint `ch` advances to
/// `t`. A cursor never moves backwards: an already larger cursor stays.
pub open spec fn spec_advance(subs: Seq<Subscription>, ch: u64, t: u64) -> Seq<Subscription> {
    subs.map(
        |_i: int, s: Subscription|
            if s.channel_id == ch {
                Subscription {
                    cursor: if s.cursor >= t {
                        s.cursor
                    } else {
                        t
                    },
                    ..s
                }
            } else {
                s
            },
    )
}

/// The second table carries the same subscriptions as the first, with no
/// cursor behind where it was.
pub open spec fn cursors_nondecreasing(a: Seq<Subscription>, b: Seq<Subscription>) -> bool {
    &&& a.len() == b.len()
    &&& forall|i: int|
        0 <= i < a.len() ==> {
            &&& (#[trigger] b[i]).channel_id == (#[trigger] a[i]).channel_id
            &&& b[i].filters == a[i].filters
            &&& b[i].cursor >= a[i].cursor
        }
}

/// Cursor monotonicity composes across any sequence of dispatch steps.
pub proof fn lemma_cursors_nondecreasing_trans(
    a: Seq<Subscription>,
    b: Seq<Subscription>,
    c: Seq<Subscription>,
)
    requires
        cursors_nondecreasing(a, b),
        cursors_nondecreasing(b, c),
    ensures
        cursors_nondecreasing(a, c),
{
    assert forall|i: int|
        0 <= i < a.len() implies {
        &&& (#[trigger] c[i]).channel_id == (#[trigger] a[i]).channel_id
        &&& c[i].filters == a[i].filters
        &&& c[i].cursor >= a[i].cursor
    } by {
        assert(b[i].channel_id == a[i].channel_id && b[i].filters == a[i].filters && b[i].cursor
            >= a[i].cursor);
        assert(c[i].channel_id == b[i].channel_id && c[i].filters == b[i].filters && c[i].cursor
            >= b[i].cursor);
    }
}

/// Advancing one cursor moves no cursor backwards.
pub proof fn lemma_advance_nondecreasing(subs: Seq<Subscription>, ch: u64, t: u64)
    ensures
        cursors_nondecreasing(subs, spec_advance(subs, ch, t)),
{
}

/// After an advance, every subscription of that endpoint has its cursor at
/// `t` or beyond.
pub proof fn lemma_advance_cursor_at_least(subs: Seq<Subscription>, ch: u64, t: u64)
    ensures
        forall|i: int|
            0 <= i < subs.len() && (#[trigger] spec_advance(subs, ch, t)[i]).channel_id == ch
                ==> spec_advance(subs, ch, t)[i].cursor >= t,
{
}

/// The engine's transition for one workunit, by the events observed:
/// suppressed uploads advance the cursor and nothing else; a failed send
/// changes nothing; a sent notification is logged and its cursor written;
/// a compensated workunit nets out to nothing; a double failure leaves the
/// notification standing and queues the workunit for resync.
pub open spec fn spec_conclude(e: EngineView, w: WorkunitView, ev: DispatchEvents) -> (
    EngineView,
    Terminal,
) {
    match ev {
        DispatchEvents::Suppressed { cursor_ok } => {
            if cursor_ok {
                (
                    EngineView {
                        subs: spec_advance(e.subs, w.channel_id, w.video.published_at),
                        ..e
                    },
                    Terminal::FilteredAdvanced,
                )
            } else {
                (e, Terminal::FilteredRetry)
            }
        },
        DispatchEvents::SendFailed => (e, Terminal::SendFailed),
        DispatchEvents::Sent { followup } => match followup {
            SentFollowup::CursorOk => (
                EngineView {
                    subs: spec_advance(e.subs, w.channel_id, w.video.published_at),
                    sent_log: e.sent_log.push(record_of(w)),
                    ..e
                },
                Terminal::Delivered,
            ),
            SentFollowup::CursorFailDeleteOk => (e, Terminal::Compensated),
            SentFollowup::CursorFailDeleteFail => (
                EngineView {
                    retries: e.retries.push(w),
                    sent_log: e.sent_log.push(record_of(w)),
                    ..e
                },
                Terminal::Deferred,
            ),
        },
    }
}

/// The engine's transition for one resync attempt: the queue's head is
/// retried; on success it leaves the queue and its cursor write lands, on
/// failure it goes to the back of the queue.
pub open spec fn spec_resync_step(e: EngineView, ok: bool) -> EngineView {
    let w = e.retries[0];
    let rest = e.retries.drop_first();
    if ok {
        EngineView {
            subs: spec_advance(e.subs, w.channel_id, w.video.published_at),
            retries: rest,
            ..e
        }
    } else {
        EngineView { retries: rest.push(w), ..e }
    }
}

/// How many attempts of a sequence succeeded.
pub open spec fn count_true(s: Seq<bool>) -> int
    decreases s.len(),
{
    if s.len() == 0 {
        0
    } else {
        count_true(s.drop_last()) + if s.last() {
            1int
        } else {
            0int
        }
    }
}

proof fn lemma_count_true_bounds(s: Seq<bool>)
    ensures
        0 <= count_true(s) <= s.len(),
    decreases s.len(),
{
    if s.len() > 0 {
        lemma_count_true_bounds(s.drop_last());
    }
}

/// The engine after draining the resync queue against a sequence of write
/// outcomes: one `spec_resync_step` per outcome, in order, stopping early
/// once the queue is empty.
pub open spec fn spec_run_resync(e: EngineView, outcomes: Seq<bool>) -> EngineView
    decreases outcomes.len(),
{
    if outcomes.len() == 0 || e.retries.len() == 0 {
        e
    } else {
        spec_run_resync(spec_resync_step(e, outcomes[0]), outcomes.drop_first())
    }
}

impl Engine {
    /// A fresh engine over one feed's subscriptions: empty resync queue, no
    /// standing notifications.
    pub fn new(subs: Vec<Subscription>) -> (r: Engine)
        ensures
            r@.subs == subs@,
            r@.retries == Seq::<WorkunitView>::empty(),
            r@.sent_log == Seq::<SentRecordView>::empty(),
    {
        let r = Engine { subs, retries: Vec::new(), sent_log: Vec::new() };
        proof {
            assert(r@.retries =~= Seq::<WorkunitView>::empty());
            assert(r@.sent_log =~= Seq::<SentRecordView>::empty());
        }
        r
    }

    /// Applies one landed cursor write to the model table.
    fn advance_cursor(&mut self, ch: u64, t: u64)
        ensures
            final(self)@.subs == spec_advance(old(self)@.subs, ch, t),
            final(self)@.retries == old(self)@.retries,
            final(self)@.sent_log == old(self)@.sent_log,
    {
        let n = self.subs.len();
        let mut out: Vec<Subscription> = Vec::new();
        for i in 0..n
            invariant
                n == self.subs@.len(),
                self.subs@ == old(self).subs@,
                self.retries@ == old(self).retries@,
                self.sent_log@ == old(self).sent_log@,
                out@ == spec_advance(old(self)@.subs, ch, t).take(i as int),
        {
            let s = self.subs[i];
            if s.channel_id == ch {
                let cursor = if s.cursor >= t {
                    s.cursor
                } else {
                    t
                };
                out.push(Subscription { channel_id: s.channel_id, cursor, filters: s.filters });
            } else {
                out.push(s);
            }
            proof {
                assert(out@ =~= spec_advance(old(self)@.subs, ch, t).take(i + 1));
            }
        }
        self.subs = out;
        proof {
            assert(spec_advance(old(self)@.subs, ch, t).take(n as int) =~= spec_advance(
                old(self)@.subs,
                ch,
                t,
            ));
        }
    }

    /// Drives one workunit to its terminal state from the events the
    /// application observed, as `spec_conclude` describes. Cursors never
    /// move backwards.
    pub fn conclude_workunit(&mut self, w: Workunit, events: DispatchEvents) -> (t: Terminal)
        ensures
            final(self)@ == spec_conclude(old(self)@, w@, events).0,
            t == spec_conclude(old(self)@, w@, events).1,
            cursors_nondecreasing(old(self)@.subs, final(self)@.subs),
    {
        proof {
            lemma_advance_nondecreasing(self@.subs, w@.channel_id, w@.video.published_at);
        }
        match events {
            DispatchEvents::Suppressed { cursor_ok } => {
                if cursor_ok {
                    self.advance_cursor(w.channel_id, w.video.published_at);
                    Terminal::FilteredAdvanced
                } else {
                    Terminal::FilteredRetry
                }
            },
            DispatchEvents::SendFailed => Terminal::SendFailed,
            DispatchEvents::Sent { followup } => match followup {
                SentFollowup::CursorOk => {
                    let record = SentRecord { channel_id: w.channel_id, video_id: w.video.id };
                    self.advance_cursor(record.channel_id, w.video.published_at);
                    self.sent_log.push(record);
                    proof {
                        assert(self@.sent_log =~= old(self)@.sent_log.push(record_of(w@)));
                    }
                    Terminal::Delivered
                },
                SentFollowup::CursorFailDeleteOk => Terminal::Compensated,
                SentFollowup::CursorFailDeleteFail => {
                    let record = SentRecord {
                        channel_id: w.channel_id,
                        video_id: w.video.id.clone(),
                    };
                    self.sent_log.push(record);
                    self.retries.push(w);
                    proof {
                        assert(self@.sent_log =~= old(self)@.sent_log.push(record_of(w@)));
                        assert(self@.retries =~= old(self)@.retries.push(w@));
                    }
                    Terminal::Deferred
                },
            },
        }
    }

    /// Retries the head of the resync queue, as `spec_resync_step`
    /// describes. Cursors never move backwards, and the queue shrinks by
    /// one exactly when the write landed.
    pub fn resync_step(&mut self, ok: bool)
        requires
            old(self)@.retries.len() > 0,
        ensures
            final(self)@ == spec_resync_step(old(self)@, ok),
            cursors_nondecreasing(old(self)@.subs, final(self)@.subs),
            final(self)@.retries.len() == old(self)@.retries.len() - if ok {
                1int
            } else {
                0int
            },
    {
        proof {
            lemma_advance_nondecreasing(
                self@.subs,
                self@.retries[0].channel_id,
                self@.retries[0].video.published_at,
            );
        }
        let w = self.retries.remove(0);
        proof {
            assert(self@.retries =~= old(self)@.retries.drop_first());
        }
        if ok {
            self.advance_cursor(w.channel_id, w.video.published_at);
        } else {
            self.retries.push(w);
            proof {
                assert(self@.retries =~= old(self)@.retries.drop_first().push(w@));
            }
        }
    }

    /// Drains the resync queue against a sequence of write outcomes, one
    /// attempt per outcome, stopping when the queue empties or the
    /// outcomes run out. The queue shrinks by exactly one per landed
    /// write; in particular, enough landed writes always empty it.
    pub fn drain_retries(&mut self, outcomes: &Vec<bool>)
        ensures
            final(self)@ == spec_run_resync(old(self)@, outcomes@),
            cursors_nondecreasing(old(self)@.subs, final(self)@.subs),
            final(self)@.sent_log == old(self)@.sent_log,
            final(self)@.retries.len() == if count_true(outcomes@) >= old(self)@.retries.len() {
                0int
            } else {
                old(self)@.retries.len() - count_true(outcomes@)
            },
    {
        let n = outcomes.len();
        let mut i: usize = 0;
        let ghost start = self@;
        proof {
            assert(outcomes@.skip(0) =~= outcomes@);
        }
        while i < n && self.retries.len() > 0
            invariant
                i <= n,
                n == outcomes@.len(),
                start == old(self)@,
                spec_run_resync(start, outcomes@) == spec_run_resync(
                    self@,
                    outcomes@.skip(i as int),
                ),
                cursors_nondecreasing(start.subs, self@.subs),
                self@.sent_log == start.sent_log,
                count_true(outcomes@.take(i as int)) <= start.retries.len(),
                self@.retries.len() == start.retries.len() - count_true(outcomes@.take(i as int)),
            decreases n - i,
        {
            proof {
                assert(outcomes@.take(i + 1).drop_last() =~= outcomes@.take(i as int));
                assert(outcomes@.take(i + 1).last() == outcomes@[i as int]);
                assert(outcomes@.skip(i as int)[0] == outcomes@[i as int]);
                assert(outcomes@.skip(i as int).drop_first() =~= outcomes@.skip(i + 1));
            }
            let ghost before = self@.subs;
            self.resync_step(outcomes[i]);
            proof {
                lemma_cursors_nondecreasing_trans(start.subs, before, self@.subs);
            }
            i = i + 1;
        }
        proof {
            if i == n {
                assert(outcomes@.skip(n as int).len() == 0);
            }
        }
        proof {
            if i == n {
                assert(outcomes@.take(n as int) =~= outcomes@);
            } else {
                assert(self@.retries.len() == 0);
                lemma_count_true_prefix(outcomes@, i as int);
                lemma_count_true_bounds(outcomes@);
            }
        }
    }
}

/// A longer run of attempts has at least as many successes as its prefix.
proof fn lemma_count_true_prefix(s: Seq<bool>, i: int)
    requires
        0 <= i <= s.len(),
    ensures
        count_true(s.take(i)) <= count_true(s),
    decreases s.len() - i,
{
    if i < s.len() {
        assert(s.take(i + 1).drop_last() =~= s.take(i));
        lemma_count_true_prefix(s, i + 1);
    } else {
        assert(s.take(i) =~= s);
    }
}

/// The engine after a whole sequence of workunit conclusions.
pub open spec fn spec_run_dispatch(
    e: EngineView,
    steps: Seq<(WorkunitView, DispatchEvents)>,
) -> EngineView
    decreases steps.len(),
{
    if steps.len() == 0 {
        e
    } else {
        spec_conclude(
            spec_run_dispatch(e, steps.drop_last()),
            steps.last().0,
            steps.last().1,
        ).0
    }
}

/// One workunit conclusion moves no cursor backwards.
pub proof fn lemma_conclude_nondecreasing(e: EngineView, w: WorkunitView, ev: DispatchEvents)
    ensures
        cursors_nondecreasing(e.subs, spec_conclude(e, w, ev).0.subs),
{
    lemma_advance_nondecreasing(e.subs, w.channel_id, w.video.published_at);
    assert(cursors_nondecreasing(e.subs, e.subs));
}

/// Across any sequence of workunit conclusions — any number of dispatch
/// cycles, whatever each send, write or delete did — every subscription's
/// cursor is non-decreasing.
pub proof fn lemma_cursors_monotone_over_dispatch(
    e: EngineView,
    steps: Seq<(WorkunitView, DispatchEvents)>,
)
    ensures
        cursors_nondecreasing(e.subs, spec_run_dispatch(e, steps).subs),
    decreases steps.len(),
{
    if steps.len() == 0 {
        assert(cursors_nondecreasing(e.subs, e.subs));
    } else {
        lemma_cursors_monotone_over_dispatch(e, steps.drop_last());
        let mid = spec_run_dispatch(e, steps.drop_last());
        lemma_conclude_nondecreasing(mid, steps.last().0, steps.last().1);
        lemma_cursors_nondecreasing_trans(
            e.subs,
            mid.subs,
            spec_run_dispatch(e, steps).subs,
        );
    }
}

/// The workunits of a sequence of conclusions that ended in a double
/// failure (cursor write failed, compensating delete failed), in order.
pub open spec fn spec_deferred(steps: Seq<(WorkunitView, DispatchEvents)>) -> Seq<WorkunitView>
    decreases steps.len(),
{
    if steps.len() == 0 {
        Seq::empty()
    } else {
        let rest = spec_deferred(steps.drop_last());
        if steps.last().1 == (DispatchEvents::Sent {
            followup: SentFollowup::CursorFailDeleteFail,
        }) {
            rest.push(steps.last().0)
        } else {
            rest
        }
    }
}

/// At the end of a dispatch pass the resync queue holds exactly what it
/// held at the start plus the pass's double failures, oldest first: no
/// workunit is lost, and nothing else is queued.
pub proof fn lemma_resync_queue_holds_double_failures(
    e: EngineView,
    steps: Seq<(WorkunitView, DispatchEvents)>,
)
    ensures
        spec_run_dispatch(e, steps).retries == e.retries + spec_deferred(steps),
    decreases steps.len(),
{
    if steps.len() == 0 {
        assert(e.retries + spec_deferred(steps) =~= e.retries);
    } else {
        lemma_resync_queue_holds_double_failures(e, steps.drop_last());
        let mid = spec_run_dispatch(e, steps.drop_last());
        if steps.last().1 == (DispatchEvents::Sent {
            followup: SentFollowup::CursorFailDeleteFail,
        }) {
            assert(mid.retries.push(steps.last().0) =~= e.retries + spec_deferred(steps));
        }
    }
}

/// A workunit whose cursor write failed and whose compensating delete
/// failed too stands at the back of the resync queue, with the
/// notification still standing and the cursor untouched.
pub proof fn lemma_double_failure_enqueues(e: EngineView, w: WorkunitView)
    ensures
        ({
            let after = spec_conclude(
                e,
                w,
                DispatchEvents::Sent { followup: SentFollowup::CursorFailDeleteFail },
            ).0;
            &&& after.retries == e.retries.push(w)
            &&& after.retries.last() == w
            &&& after.subs == e.subs
            &&& after.sent_log == e.sent_log.push(record_of(w))
        }),
{
}

/// When the cursor write fails but the compensating delete lands, the net
/// state is exactly the state after a failed send: no notification stands,
/// no cursor moved, nothing queued. The upload is delivered afresh next
/// cycle.
pub proof fn lemma_compensated_matches_send_failure(e: EngineView, w: WorkunitView)
    ensures
        spec_conclude(e, w, DispatchEvents::Sent { followup: SentFollowup::CursorFailDeleteOk }).0
            == spec_conclude(e, w, DispatchEvents::SendFailed).0,
        spec_conclude(
            e,
            w,
            DispatchEvents::Sent { followup: SentFollowup::CursorFailDeleteOk },
        ).0 == e,
{
}

/// Once an upload is delivered and its cursor write lands, no later cycle
/// builds a workunit delivering an upload at or before that publish
/// instant to that subscriber again.
pub proof fn lemma_delivery_is_idempotent(
    e: EngineView,
    w: WorkunitView,
    videos: Seq<Video>,
    v: int,
)
    requires
        videos.len() <= usize::MAX,
        0 <= v < videos.len(),
        videos[v]@.published_at <= w.video.published_at,
    ensures
        ({
            let after = spec_conclude(
                e,
                w,
                DispatchEvents::Sent { followup: SentFollowup::CursorOk },
            ).0;
            forall|k: int|
                0 <= k < spec_index_units(videos, after.subs).len() ==> !((
                #[trigger] spec_index_units(videos, after.subs)[k]).index == v
                    && spec_index_units(videos, after.subs)[k].channel_id == w.channel_id)
        }),
{
    let after = spec_conclude(e, w, DispatchEvents::Sent { followup: SentFollowup::CursorOk }).0;
    let t = videos[v]@.published_at;
    lemma_advance_cursor_at_least(e.subs, w.channel_id, w.video.published_at);
    assert forall|k: int|
        0 <= k < spec_index_units(videos, after.subs).len() implies !((
    #[trigger] spec_index_units(videos, after.subs)[k]).index == v && spec_index_units(
        videos,
        after.subs,
    )[k].channel_id == w.channel_id) by {
        let u = spec_index_units(videos, after.subs)[k];
        if u.index == v && u.channel_id == w.channel_id {
            assert(spec_index_units(videos, after.subs).contains(u));
            lemma_index_units_membership(videos, after.subs, u);
            assert(spec_channels_to_send(after.subs, t).contains(u.channel_id));
            lemma_channels_to_send_membership(after.subs, t, u.channel_id);
            let j = choose|j: int|
                0 <= j < after.subs.len() && (#[trigger] after.subs[j]).channel_id == u.channel_id
                    && after.subs[j].cursor < t;
            assert(after.subs[j].cursor >= w.video.published_at);
        }
    }
}

} // verus!
