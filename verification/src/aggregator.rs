//! Grouping the event stream by time.
//!
//! The aggregator is a machine of two states. It starts with no bucket open.
//! A timestamp closes the open bucket and opens an empty one at its instant. A
//! value change goes to the end of its domain's sequence in the open bucket;
//! where none is open, the change opens one at instant 0. Any other event
//! changes nothing. A bucket that is closed joins the timeline if it holds at
//! least one change and is dropped if it holds none; the end of the stream
//! closes the open bucket by the same rule.

use vstd::prelude::*;
use crate::raw::event_views;
use crate::raw::EventView;
use crate::raw::RawEvent;
use crate::signal::bucket_views;
use crate::signal::BucketView;
use crate::signal::SignalDataAndTime;
use crate::signal::SignalDataReal;
use crate::signal::SignalDataScalar;
use crate::signal::SignalDataString;
use crate::signal::SignalDataVector;

verus! {

/// The state of the machine as a mathematical value.
#[verifier::ext_equal]
pub enum StateView {
    NoOpenBucket,
    BucketOpen(BucketView),
}

/// The aggregator as a mathematical value: the buckets closed so far, and the
/// state.
#[verifier::ext_equal]
pub struct AggregatorView {
    pub timeline: Seq<BucketView>,
    pub state: StateView,
}

/// The aggregator before the first event.
pub open spec fn initial() -> AggregatorView {
    AggregatorView { timeline: Seq::empty(), state: StateView::NoOpenBucket }
}

/// The bucket that a change goes to: the open one, or a new one at instant 0.
pub open spec fn open_bucket(state: StateView) -> BucketView {
    match state {
        StateView::BucketOpen(bucket) => bucket,
        StateView::NoOpenBucket => BucketView::empty_at(0),
    }
}

/// The bucket with a change appended to the sequence of its domain. An event
/// that is no change leaves the bucket as it is.
pub open spec fn recorded(bucket: BucketView, event: EventView) -> BucketView {
    match event {
        EventView::Scalar(code, value) => BucketView {
            scalars: bucket.scalars.push((code, value)),
            ..bucket
        },
        EventView::Vector(code, bits) => BucketView {
            vectors: bucket.vectors.push((code, bits)),
            ..bucket
        },
        EventView::Real(code, bits) => BucketView {
            reals: bucket.reals.push((code, bits)),
            ..bucket
        },
        EventView::Str(code, text) => BucketView {
            strings: bucket.strings.push((code, text)),
            ..bucket
        },
        EventView::Timestamp(_) => bucket,
        EventView::Other => bucket,
    }
}

/// The timeline once the open bucket is closed: the bucket joins it if it
/// holds a change, and is dropped if it holds none.
pub open spec fn flushed(a: AggregatorView) -> Seq<BucketView> {
    match a.state {
        StateView::BucketOpen(bucket) => if bucket.change_count() > 0 {
            a.timeline.push(bucket)
        } else {
            a.timeline
        },
        StateView::NoOpenBucket => a.timeline,
    }
}

/// The aggregator after one more event.
pub open spec fn step(a: AggregatorView, event: EventView) -> AggregatorView {
    match event {
        EventView::Timestamp(time) => AggregatorView {
            timeline: flushed(a),
            state: StateView::BucketOpen(BucketView::empty_at(time)),
        },
        EventView::Other => a,
        _ => AggregatorView {
            timeline: a.timeline,
            state: StateView::BucketOpen(recorded(open_bucket(a.state), event)),
        },
    }
}

/// The aggregator after a run of events, taken in order from the start.
pub open spec fn run(events: Seq<EventView>) -> AggregatorView
    decreases events.len(),
{
    if events.len() == 0 {
        initial()
    } else {
        step(run(events.drop_last()), events.last())
    }
}

/// The timeline of a whole event stream.
pub open spec fn timeline_of(events: Seq<EventView>) -> Seq<BucketView> {
    flushed(run(events))
}

/// The instant in force at position `p` of a stream: that of the last
/// timestamp before `p`, and 0 where no timestamp stands before `p`.
pub open spec fn instant_at(events: Seq<EventView>, p: int) -> u64
    decreases p,
{
    if p <= 0 {
        0
    } else {
        match events[p - 1] {
            EventView::Timestamp(time) => time,
            _ => instant_at(events, p - 1),
        }
    }
}

/// Whether a timestamp stands between the positions `p` and `q`.
pub open spec fn separated(events: Seq<EventView>, p: int, q: int) -> bool {
    exists|m: int| p < m < q && (#[trigger] events[m]) is Timestamp
}

/// Whether time moves forward between the changes of a stream: of two changes
/// with a timestamp between them, the later one falls at a strictly later
/// instant.
pub open spec fn time_moves_forward(events: Seq<EventView>) -> bool {
    forall|p: int, q: int|
        #![trigger events[p], events[q]]
        0 <= p < q < events.len() && events[p].is_change() && events[q].is_change()
            && separated(events, p, q) ==> instant_at(events, p) < instant_at(events, q)
}

/// Whether the instants of a timeline ascend strictly.
pub open spec fn ascends(timeline: Seq<BucketView>) -> bool {
    forall|i: int, j: int|
        0 <= i < j < timeline.len() ==> (#[trigger] timeline[i]).time < (#[trigger] timeline[j]).time
}

/// The four value domains.
pub enum Domain {
    Scalar,
    Vector,
    Real,
    Str,
}

/// Whether an event is a change of the given domain.
pub open spec fn in_domain(event: EventView, domain: Domain) -> bool {
    match domain {
        Domain::Scalar => event is Scalar,
        Domain::Vector => event is Vector,
        Domain::Real => event is Real,
        Domain::Str => event is Str,
    }
}

/// The changes of one domain that a stream holds, in order.
pub open spec fn changes_in(events: Seq<EventView>, domain: Domain) -> Seq<EventView>
    decreases events.len(),
{
    if events.len() == 0 {
        Seq::empty()
    } else if in_domain(events.last(), domain) {
        changes_in(events.drop_last(), domain).push(events.last())
    } else {
        changes_in(events.drop_last(), domain)
    }
}

/// The changes of one domain that a bucket holds, in order, each as the event
/// that it came from.
pub open spec fn held(bucket: BucketView, domain: Domain) -> Seq<EventView> {
    match domain {
        Domain::Scalar => Seq::new(
            bucket.scalars.len(),
            |i: int| EventView::Scalar(bucket.scalars[i].0, bucket.scalars[i].1),
        ),
        Domain::Vector => Seq::new(
            bucket.vectors.len(),
            |i: int| EventView::Vector(bucket.vectors[i].0, bucket.vectors[i].1),
        ),
        Domain::Real => Seq::new(
            bucket.reals.len(),
            |i: int| EventView::Real(bucket.reals[i].0, bucket.reals[i].1),
        ),
        Domain::Str => Seq::new(
            bucket.strings.len(),
            |i: int| EventView::Str(bucket.strings[i].0, bucket.strings[i].1),
        ),
    }
}

/// The changes of one domain that the buckets of a timeline hold, bucket
/// after bucket.
pub open spec fn held_by_all(timeline: Seq<BucketView>, domain: Domain) -> Seq<EventView>
    decreases timeline.len(),
{
    if timeline.len() == 0 {
        Seq::empty()
    } else {
        held_by_all(timeline.drop_last(), domain) + held(timeline.last(), domain)
    }
}

/// The state of the machine.
#[derive(Debug)]
pub enum AggregatorState {
    NoOpenBucket,
    BucketOpen(SignalDataAndTime),
}

/// The aggregator: the buckets closed so far, and the state.
#[derive(Debug)]
pub struct Aggregator {
    timeline: Vec<SignalDataAndTime>,
    state: AggregatorState,
}

impl View for AggregatorState {
    type V = StateView;

    open spec fn view(&self) -> StateView {
        match self {
            AggregatorState::NoOpenBucket => StateView::NoOpenBucket,
            AggregatorState::BucketOpen(bucket) => StateView::BucketOpen(bucket@),
        }
    }
}

impl View for Aggregator {
    type V = AggregatorView;

    closed spec fn view(&self) -> AggregatorView {
        AggregatorView { timeline: bucket_views(self.timeline@), state: self.state@ }
    }
}

impl Aggregator {
    /// The aggregator before the first event.
    pub fn new() -> (r: Aggregator)
        ensures
            r@ == initial(),
    {
        let r = Aggregator { timeline: Vec::new(), state: AggregatorState::NoOpenBucket };
        assert(r@ =~= initial());
        r
    }

    /// Takes in one event.
    pub fn accept(self, event: RawEvent) -> (next: Aggregator)
        ensures
            next@ == step(self@, event@),
    {
        let ghost before = self@;
        let mut timeline = self.timeline;
        let next = match event {
            RawEvent::Timestamp(time) => {
                match self.state {
                    AggregatorState::BucketOpen(bucket) => {
                        if bucket.has_changes() {
                            timeline.push(bucket);
                        }
                    },
                    AggregatorState::NoOpenBucket => {},
                }
                Aggregator {
                    timeline,
                    state: AggregatorState::BucketOpen(SignalDataAndTime::empty_at(time)),
                }
            },
            RawEvent::ChangeScalar(code, value) => {
                let mut bucket = Self::bucket_for_change(self.state);
                bucket.push_scalar(SignalDataScalar::new(code, value));
                Aggregator { timeline, state: AggregatorState::BucketOpen(bucket) }
            },
            RawEvent::ChangeVector(code, bits) => {
                let mut bucket = Self::bucket_for_change(self.state);
                bucket.push_vector(SignalDataVector::new(code, bits));
                Aggregator { timeline, state: AggregatorState::BucketOpen(bucket) }
            },
            RawEvent::ChangeReal(code, bits) => {
                let mut bucket = Self::bucket_for_change(self.state);
                bucket.push_real(SignalDataReal::new(code, bits));
                Aggregator { timeline, state: AggregatorState::BucketOpen(bucket) }
            },
            RawEvent::ChangeString(code, text) => {
                let mut bucket = Self::bucket_for_change(self.state);
                bucket.push_string(SignalDataString::new(code, text));
                Aggregator { timeline, state: AggregatorState::BucketOpen(bucket) }
            },
            RawEvent::Other => Aggregator { timeline, state: self.state },
        };
        assert(next@ =~= step(before, event@));
        next
    }

    /// Closes the stream and hands out the timeline.
    pub fn finish(self) -> (timeline: Vec<SignalDataAndTime>)
        ensures
            bucket_views(timeline@) == flushed(self@),
            timeline@.len() == flushed(self@).len(),
            forall|i: int|
                0 <= i < timeline@.len() ==> (#[trigger] timeline@[i])@ == flushed(self@)[i],
    {
        let mut timeline = self.timeline;
        match self.state {
            AggregatorState::BucketOpen(bucket) => {
                if bucket.has_changes() {
                    timeline.push(bucket);
                }
            },
            AggregatorState::NoOpenBucket => {},
        }
        assert forall|i: int| 0 <= i < timeline@.len() implies (#[trigger] timeline@[i])@
            == bucket_views(timeline@)[i] by {}
        timeline
    }

    /// The bucket that a change goes to.
    fn bucket_for_change(state: AggregatorState) -> (bucket: SignalDataAndTime)
        ensures
            bucket@ == open_bucket(state@),
    {
        match state {
            AggregatorState::BucketOpen(bucket) => bucket,
            AggregatorState::NoOpenBucket => SignalDataAndTime::empty_at(0),
        }
    }
}

/// The timeline of an event stream. No bucket of it is empty.
pub fn aggregate(events: Vec<RawEvent>) -> (timeline: Vec<SignalDataAndTime>)
    ensures
        bucket_views(timeline@) == timeline_of(event_views(events@)),
        timeline@.len() == timeline_of(event_views(events@)).len(),
        forall|i: int|
            0 <= i < timeline@.len() ==> (#[trigger] timeline@[i])@ == timeline_of(
                event_views(events@),
            )[i],
        forall|i: int| 0 <= i < timeline@.len() ==> (#[trigger] timeline@[i])@.change_count() > 0,
{
    let ghost all = event_views(events@);
    let mut aggregator = Aggregator::new();
    for event in it: events
        invariant
            all == event_views(it.seq()),
            aggregator@ == run(all.take(it.index() as int)),
    {
        proof {
            let n = it.index() as int;
            assert(all.take(n + 1).drop_last() == all.take(n));
            assert(all.take(n + 1).last() == event@);
        }
        aggregator = aggregator.accept(event);
    }
    let timeline = aggregator.finish();
    proof {
        assert(all.take(all.len() as int) == all);
        lemma_no_empty_bucket(all);
        assert(bucket_views(timeline@) == timeline_of(all));
    }
    timeline
}

/// The machine takes a stream in event by event: after a stream with one
/// more event it is one step further than after the stream.
pub proof fn lemma_one_more_event(events: Seq<EventView>, event: EventView)
    ensures
        run(events.push(event)) == step(run(events), event),
{
    assert(events.push(event).drop_last() == events);
}

/// No bucket of a timeline is empty.
pub proof fn lemma_no_empty_bucket(events: Seq<EventView>)
    ensures
        forall|i: int|
            0 <= i < timeline_of(events).len() ==> (#[trigger] timeline_of(
                events,
            )[i]).change_count() > 0,
{
    lemma_closed_buckets_hold_changes(events);
}

/// A timestamp at the end of a stream adds no bucket: the bucket that it
/// opens receives no change and is dropped.
pub proof fn lemma_trailing_timestamp_discarded(events: Seq<EventView>, time: u64)
    ensures
        timeline_of(events.push(EventView::Timestamp(time))) == timeline_of(events),
{
    lemma_one_more_event(events, EventView::Timestamp(time));
}

/// A bucket that is closed stays as it is: one more event leaves the
/// closed buckets where they are and at most adds one behind them.
pub proof fn lemma_closed_buckets_stay(events: Seq<EventView>, event: EventView)
    ensures
        run(events).timeline.len() <= run(events.push(event)).timeline.len() <= run(
            events,
        ).timeline.len() + 1,
        run(events.push(event)).timeline.take(run(events).timeline.len() as int) == run(
            events,
        ).timeline,
{
    lemma_one_more_event(events, event);
}

/// No change is lost, none is added, and none changes its place among the
/// changes of its domain: the buckets of the timeline, one after the other,
/// hold the changes of each domain as the stream holds them.
pub proof fn lemma_changes_are_kept(events: Seq<EventView>, domain: Domain)
    ensures
        held_by_all(timeline_of(events), domain) == changes_in(events, domain),
{
    lemma_changes_so_far(events, domain);
    let a = run(events);
    if open_bucket(a.state).change_count() > 0 {
        assert(flushed(a).drop_last() == a.timeline);
    } else {
        assert(held(open_bucket(a.state), domain) =~= Seq::<EventView>::empty());
    }
}

/// The closed buckets and the open one hold the changes of the stream so
/// far.
proof fn lemma_changes_so_far(events: Seq<EventView>, domain: Domain)
    ensures
        held_by_all(run(events).timeline, domain) + held(open_bucket(run(events).state), domain)
            == changes_in(events, domain),
    decreases events.len(),
{
    if events.len() == 0 {
        assert(held(BucketView::empty_at(0), domain) =~= Seq::<EventView>::empty());
    } else {
        let front = events.drop_last();
        let event = events.last();
        lemma_changes_so_far(front, domain);
        let before = run(front);
        let bucket = open_bucket(before.state);
        match event {
            EventView::Timestamp(time) => {
                assert(held(BucketView::empty_at(time), domain) =~= Seq::<EventView>::empty());
                if bucket.change_count() > 0 {
                    assert(flushed(before).drop_last() == before.timeline);
                } else {
                    assert(held(bucket, domain) =~= Seq::<EventView>::empty());
                }
            },
            EventView::Other => {},
            _ => {
                if in_domain(event, domain) {
                    assert(held(recorded(bucket, event), domain) =~= held(bucket, domain).push(
                        event,
                    ));
                } else {
                    assert(held(recorded(bucket, event), domain) =~= held(bucket, domain));
                }
            },
        }
    }
}

/// Where time moves forward between the changes of a stream, the instants of
/// its timeline ascend strictly.
pub proof fn lemma_timeline_ascends(events: Seq<EventView>)
    requires
        time_moves_forward(events),
    ensures
        ascends(timeline_of(events)),
{
    let n = events.len() as int;
    let (closed, open) = lemma_buckets_traced(events, n);
    assert(events.take(n) == events);
    let places = if open_bucket(run(events).state).change_count() > 0 {
        closed.push(open)
    } else {
        closed
    };
    let timeline = timeline_of(events);
    assert forall|i: int, j: int| 0 <= i < j < timeline.len() implies (#[trigger] timeline[i]).time
        < (#[trigger] timeline[j]).time by {
        let p = places[i];
        let q = places[j];
        assert(separated(events, p, q));
        assert(events[p].is_change() && events[q].is_change());
    }
}

/// And only there: a stream whose timeline ascends strictly is one in which
/// time moves forward between the changes.
pub proof fn lemma_timeline_ascends_only_then(events: Seq<EventView>)
    requires
        ascends(timeline_of(events)),
    ensures
        time_moves_forward(events),
{
    let n = events.len() as int;
    let timeline = timeline_of(events);
    assert(events.take(n) == events);
    assert forall|p: int, q: int|
        #![trigger events[p], events[q]]
        0 <= p < q < events.len() && events[p].is_change() && events[q].is_change() && separated(
            events,
            p,
            q,
        ) implies instant_at(events, p) < instant_at(events, q) by {
        let m = choose|m: int| p < m < q && (#[trigger] events[m]) is Timestamp;
        lemma_change_lands_last(events, p);
        lemma_change_lands_last(events, q);
        lemma_timeline_grows(events, p + 1, m + 1);
        lemma_timestamp_parts_buckets(events, m, q);
        lemma_timeline_grows(events, p + 1, n);
        lemma_timeline_grows(events, q + 1, n);
        let i = timeline_after(events, p + 1).len() - 1;
        let j = timeline_after(events, q + 1).len() - 1;
        assert(timeline[i].time < timeline[j].time);
    }
}

/// The timeline that the first `n` events of a stream come to.
spec fn timeline_after(events: Seq<EventView>, n: int) -> Seq<BucketView> {
    timeline_of(events.take(n))
}

/// One more event leaves the instants of the timeline so far as they are,
/// and adds at most one bucket.
proof fn lemma_timeline_grows_by_one(events: Seq<EventView>, n: int)
    requires
        0 <= n < events.len(),
    ensures
        timeline_after(events, n).len() <= timeline_after(events, n + 1).len(),
        run(events.take(n)).timeline.len() <= run(events.take(n + 1)).timeline.len(),
        forall|i: int|
            0 <= i < timeline_after(events, n).len() ==> (#[trigger] timeline_after(
                events,
                n + 1,
            )[i]).time == timeline_after(events, n)[i].time,
{
    assert(events.take(n + 1).drop_last() == events.take(n));
}

/// More events leave the instants of the timeline so far as they are, and
/// take no bucket away.
proof fn lemma_timeline_grows(events: Seq<EventView>, n: int, later: int)
    requires
        0 <= n <= later <= events.len(),
    ensures
        timeline_after(events, n).len() <= timeline_after(events, later).len(),
        run(events.take(n)).timeline.len() <= run(events.take(later)).timeline.len(),
        forall|i: int|
            0 <= i < timeline_after(events, n).len() ==> (#[trigger] timeline_after(
                events,
                later,
            )[i]).time == timeline_after(events, n)[i].time,
    decreases later - n,
{
    if n < later {
        lemma_timeline_grows(events, n, later - 1);
        lemma_timeline_grows_by_one(events, later - 1);
    }
}

/// Right after a change, the last bucket of the timeline lies at the instant
/// in force at the change.
proof fn lemma_change_lands_last(events: Seq<EventView>, p: int)
    requires
        0 <= p < events.len(),
        events[p].is_change(),
    ensures
        timeline_after(events, p + 1).len() > 0,
        timeline_after(events, p + 1).last().time == instant_at(events, p),
{
    lemma_buckets_traced(events, p);
    assert(events.take(p + 1).drop_last() == events.take(p));
}

/// A change after a timestamp falls into a later bucket than every change
/// before the timestamp.
proof fn lemma_timestamp_parts_buckets(events: Seq<EventView>, m: int, q: int)
    requires
        0 <= m < q < events.len(),
        events[m] is Timestamp,
        events[q].is_change(),
    ensures
        timeline_after(events, m + 1).len() < timeline_after(events, q + 1).len(),
{
    assert(events.take(m + 1).drop_last() == events.take(m));
    assert(events.take(q + 1).drop_last() == events.take(q));
    lemma_timeline_grows(events, m + 1, q);
}

/// What links the machine after `n` events to the stream. `closed[k]` is the
/// position of a change that fell into the `k`-th closed bucket, and `open`
/// that of a change in the open bucket, if it holds one. The positions
/// ascend, a timestamp stands between any two of them, and each bucket lies
/// at the instant in force at its position.
spec fn traced(events: Seq<EventView>, n: int, closed: Seq<int>, open: int) -> bool {
    let a = run(events.take(n));
    let current = open_bucket(a.state);
    &&& closed.len() == a.timeline.len()
    &&& forall|k: int|
        0 <= k < closed.len() ==> {
            &&& 0 <= (#[trigger] closed[k]) < n
            &&& events[closed[k]].is_change()
            &&& instant_at(events, closed[k]) == a.timeline[k].time
            &&& separated(events, closed[k], n)
        }
    &&& forall|j: int, k: int|
        0 <= j < k < closed.len() ==> (#[trigger] closed[j]) < (#[trigger] closed[k]) && separated(
            events,
            closed[j],
            closed[k],
        )
    &&& current.time == instant_at(events, n)
    &&& current.change_count() > 0 ==> {
        &&& 0 <= open < n
        &&& events[open].is_change()
        &&& instant_at(events, open) == current.time
        &&& forall|k: int|
            0 <= k < closed.len() ==> (#[trigger] closed[k]) < open && separated(
                events,
                closed[k],
                open,
            )
    }
}

/// A timestamp that stands between `p` and `q` also stands between `p` and
/// any later position.
proof fn lemma_separated_widens(events: Seq<EventView>, p: int, q: int, later: int)
    requires
        separated(events, p, q),
        q <= later,
    ensures
        separated(events, p, later),
{
    let m = choose|m: int| p < m < q && (#[trigger] events[m]) is Timestamp;
    assert(p < m < later && events[m] is Timestamp);
}

/// The machine after `n` events can be traced back to the stream.
proof fn lemma_buckets_traced(events: Seq<EventView>, n: int) -> (r: (Seq<int>, int))
    requires
        0 <= n <= events.len(),
    ensures
        traced(events, n, r.0, r.1),
    decreases n,
{
    if n == 0 {
        assert(events.take(0) =~= Seq::<EventView>::empty());
        (Seq::empty(), 0)
    } else {
        let (closed, open) = lemma_buckets_traced(events, n - 1);
        let before = run(events.take(n - 1));
        assert(events.take(n).drop_last() == events.take(n - 1));
        assert forall|k: int| 0 <= k < closed.len() implies separated(
            events,
            #[trigger] closed[k],
            n,
        ) by {
            lemma_separated_widens(events, closed[k], n - 1, n);
        }
        match events[n - 1] {
            EventView::Timestamp(_) => {
                if open_bucket(before.state).change_count() > 0 {
                    (closed.push(open), 0)
                } else {
                    (closed, 0)
                }
            },
            EventView::Other => (closed, open),
            _ => (closed, n - 1),
        }
    }
}

/// Every bucket that the machine has closed holds a change.
proof fn lemma_closed_buckets_hold_changes(events: Seq<EventView>)
    ensures
        forall|i: int|
            0 <= i < run(events).timeline.len() ==> (#[trigger] run(
                events,
            ).timeline[i]).change_count() > 0,
    decreases events.len(),
{
    if events.len() > 0 {
        lemma_closed_buckets_hold_changes(events.drop_last());
    }
}

} // verus!
