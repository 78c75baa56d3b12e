//! The whole model of one trace, and the function that reads a trace text
//! into it.

use vstd::prelude::*;
use crate::aggregator::aggregate;
use crate::aggregator::lemma_no_empty_bucket;
use crate::aggregator::timeline_of;
use crate::builder::built_header;
use crate::builder::get_vcd_header;
use crate::error::IndexOutOfRange;
use crate::error::TraceError;
use crate::raw::event_views;
use crate::raw::EventView;
use crate::raw::RawEvent;
use crate::reader::raw_event;
use crate::reader::raw_header;
use crate::scope::HeaderView;
use crate::scope::VcdHeader;
use crate::signal::bucket_views;
use crate::signal::BucketView;
use crate::signal::SignalDataAndTime;
use crate::source::command_content;
use crate::source::header_content;
use crate::source::next_command;
use crate::source::pending;
use crate::source::read_header;
use crate::source::tokenized_body;
use crate::source::tokenized_header;

verus! {

/// A model as a mathematical value: the header, and the timeline of buckets.
#[verifier::ext_equal]
pub struct TraceView {
    pub header: HeaderView,
    pub timeline: Seq<BucketView>,
}

/// The model of one trace: its header and its timeline. No bucket of the
/// timeline is empty.
#[derive(Debug)]
pub struct VcdData {
    header: VcdHeader,
    signal: Vec<SignalDataAndTime>,
}

impl View for VcdData {
    type V = TraceView;

    closed spec fn view(&self) -> TraceView {
        TraceView { header: self.header@, timeline: bucket_views(self.signal@) }
    }
}

impl VcdData {
    #[verifier::type_invariant]
    spec fn holds_no_empty_bucket(self) -> bool {
        forall|i: int|
            0 <= i < self.signal@.len() ==> (#[trigger] self.signal@[i])@.change_count() > 0
    }

    /// The model with the given header and timeline.
    pub fn new(header: VcdHeader, signal: Vec<SignalDataAndTime>) -> (r: VcdData)
        requires
            forall|i: int| 0 <= i < signal@.len() ==> (#[trigger] signal@[i])@.change_count() > 0,
        ensures
            r@ == (TraceView { header: header@, timeline: bucket_views(signal@) }),
    {
        VcdData { header, signal }
    }

    pub fn get_vcd_header(&self) -> (r: VcdHeader)
        ensures
            r@ == self@.header,
    {
        self.header.clone()
    }

    /// The number of buckets of the timeline.
    pub fn get_vcd_signal_size(&self) -> (r: usize)
        ensures
            r == self@.timeline.len(),
    {
        self.signal.len()
    }

    /// The bucket at position `i` of the timeline. It holds at least one
    /// change.
    pub fn get_vcd_signal_data(&self, i: usize) -> (r: Result<SignalDataAndTime, IndexOutOfRange>)
        ensures
            i < self@.timeline.len() ==> r is Ok && r->Ok_0@ == self@.timeline[i as int]
                && r->Ok_0@.change_count() > 0,
            i >= self@.timeline.len() ==> r == Err::<SignalDataAndTime, IndexOutOfRange>(
                IndexOutOfRange { index: i, len: self@.timeline.len() as usize },
            ),
    {
        proof {
            use_type_invariant(self);
        }
        if i < self.signal.len() {
            Ok(self.signal[i].clone())
        } else {
            Err(IndexOutOfRange { index: i, len: self.signal.len() })
        }
    }
}

/// The position of the first error among what the tokenizer yields, and the
/// length where it yields none.
pub open spec fn first_fault(body: Seq<Result<vcd::Command, std::io::Error>>) -> int
    decreases body.len(),
{
    if body.len() == 0 {
        0
    } else if body.first() is Err {
        0
    } else {
        1 + first_fault(body.drop_first())
    }
}

/// The events that the commands of an error-free body hold, in order.
pub open spec fn body_events(body: Seq<Result<vcd::Command, std::io::Error>>) -> Seq<EventView> {
    Seq::new(body.len(), |i: int| command_content(body[i]->Ok_0))
}

/// What reading a trace text comes to. The declarations are tokenized first:
/// an error there is `Decode`. The header is built next: declarations without
/// their metadata are `MissingMetadata`. The events are tokenized last: the
/// first error among them is `StreamDecode`. Otherwise the model holds the
/// header built from the declarations and the timeline of the events.
pub open spec fn parsed(text: Seq<char>) -> Result<TraceView, TraceError> {
    match tokenized_header(text) {
        Err(error) => Err(TraceError::Decode(error)),
        Ok(declarations) => match built_header(header_content(declarations)) {
            None => Err(TraceError::MissingMetadata),
            Some(header) => {
                let body = tokenized_body(text);
                let fault = first_fault(body);
                if fault < body.len() {
                    Err(TraceError::StreamDecode(body[fault]->Err_0))
                } else {
                    Ok(TraceView { header, timeline: timeline_of(body_events(body)) })
                }
            },
        },
    }
}

/// Where the first `n` results are no errors, and the one at `n` is one or
/// `n` is the length, the first error is at `n`.
proof fn lemma_first_fault(body: Seq<Result<vcd::Command, std::io::Error>>, n: int)
    requires
        0 <= n <= body.len(),
        forall|k: int| 0 <= k < n ==> (#[trigger] body[k]) is Ok,
        n < body.len() ==> body[n] is Err,
    ensures
        first_fault(body) == n,
    decreases n,
{
    if n > 0 {
        let rest = body.drop_first();
        assert(body.first() == body[0]);
        assert forall|k: int| 0 <= k < n - 1 implies (#[trigger] rest[k]) is Ok by {
            assert(rest[k] == body[k + 1]);
        }
        lemma_first_fault(rest, n - 1);
    }
}

/// Reads a trace text into its model, or says why there is none.
pub fn parse(vcd_text: &str) -> (r: Result<VcdData, TraceError>)
    ensures
        match parsed(vcd_text@) {
            Ok(trace) => r is Ok && r->Ok_0@ == trace,
            Err(error) => r is Err && r->Err_0 == error,
        },
        r is Ok ==> forall|i: int|
            0 <= i < r->Ok_0@.timeline.len() ==> (#[trigger] r->Ok_0@.timeline[i]).change_count()
                > 0,
{
    let (mut reader, declarations) = read_header(vcd_text);
    let declarations = match declarations {
        Ok(declarations) => declarations,
        Err(error) => {
            return Err(TraceError::Decode(error));
        },
    };
    let header = match get_vcd_header(raw_header(&declarations)) {
        Ok(header) => header,
        Err(_) => {
            return Err(TraceError::MissingMetadata);
        },
    };
    let ghost body = tokenized_body(vcd_text@);
    let mut events: Vec<RawEvent> = Vec::new();
    loop
        invariant_except_break
            events@.len() <= body.len(),
            pending(reader) == body.skip(events@.len() as int),
        invariant
            body == tokenized_body(vcd_text@),
            parsed(vcd_text@) is Err ==> parsed(vcd_text@)->Err_0 is StreamDecode,
            forall|k: int| 0 <= k < events@.len() ==> (#[trigger] body[k]) is Ok,
            forall|k: int|
                0 <= k < events@.len() ==> (#[trigger] events@[k])@ == command_content(
                    body[k]->Ok_0,
                ),
        ensures
            events@.len() == body.len(),
        decreases pending(reader).len(),
    {
        let ghost n = events@.len() as int;
        match next_command(&mut reader) {
            None => {
                break ;
            },
            Some(Err(error)) => {
                proof {
                    lemma_first_fault(body, n);
                }
                return Err(TraceError::StreamDecode(error));
            },
            Some(Ok(command)) => {
                events.push(raw_event(&command));
                assert(body.skip(n).drop_first() == body.skip(n + 1));
            },
        }
    }
    proof {
        lemma_first_fault(body, body.len() as int);
        assert(event_views(events@) =~= body_events(body));
        lemma_no_empty_bucket(body_events(body));
    }
    let timeline = aggregate(events);
    Ok(VcdData::new(header, timeline))
}

} // verus!
