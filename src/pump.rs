use vstd::prelude::*;

use crate::annotated::Annotated;
use crate::error::{is_fatal, stream_message, ResponseProcessingError};

verus! {

/// Capacity of the bounded channel between the forwarding task and the
/// consumer of a response stream.
pub const RESPONSE_CHANNEL_CAPACITY: usize = 128;

/// Whether a pulled item ends the request's stream.
pub open spec fn is_fatal_item<R>(item: Result<R, ResponseProcessingError>) -> bool {
    match item {
        Ok(_) => false,
        Err(e) => is_fatal(e),
    }
}

/// `a` is the response that the pump forwards for `item`: the payload itself,
/// or an error-tagged response with the error's stream message.
pub open spec fn responds_to<R>(a: Annotated<R>, item: Result<R, ResponseProcessingError>) -> bool {
    match item {
        Ok(d) => a == Annotated::Data(d),
        Err(e) => a matches Annotated::Error(m) && m@ == stream_message(e),
    }
}

/// Number of responses forwarded from `items[i..]` to a consumer that stays:
/// every item up to and including the first fatal one.
pub open spec fn stream_len_from<R>(items: Seq<Result<R, ResponseProcessingError>>, i: int) -> int
    decreases items.len() - i,
{
    if i < 0 || i >= items.len() {
        0
    } else if is_fatal_item(items[i]) {
        1
    } else {
        1 + stream_len_from(items, i + 1)
    }
}

/// Number of responses a request's stream holds when its consumer stays.
pub open spec fn stream_len<R>(items: Seq<Result<R, ResponseProcessingError>>) -> int {
    stream_len_from(items, 0)
}

/// Where the forwarding task of one request stands.
#[derive(Debug, Clone, Copy, PartialEq, Eq, Structural)]
pub enum ForwardState {
    /// Waiting for the next item of the guest sequence.
    Pulling,
    /// A response has been produced and waits to be sent; `last` tells whether
    /// it is the request's final one.
    Sending { last: bool },
    /// The task has finished; the channel's producer end is dropped.
    Closed,
}

/// What the forwarding task does with one pulled item.
#[derive(Debug)]
pub struct Forward<R> {
    /// The response to push onto the channel.
    pub response: Annotated<R>,
    /// Whether to raise the request context's stop signal first.
    pub stop_generating: bool,
}

impl ForwardState {
    pub fn new() -> (r: Self)
        ensures
            r == ForwardState::Pulling,
    {
        ForwardState::Pulling
    }

    pub fn is_closed(&self) -> (r: bool)
        ensures
            r == (*self == ForwardState::Closed),
    {
        match self {
            ForwardState::Closed => true,
            _ => false,
        }
    }

    /// Decides the response for the next pulled item. A guest exception is
    /// forwarded as an error and iteration goes on; a failed conversion is
    /// forwarded as the final error and raises the stop signal.
    pub fn on_item<R>(&mut self, item: Result<R, ResponseProcessingError>) -> (r: Forward<R>)
        requires
            *old(self) == ForwardState::Pulling,
        ensures
            *final(self) == (ForwardState::Sending { last: is_fatal_item(item) }),
            responds_to(r.response, item),
            r.stop_generating == is_fatal_item(item),
    {
        match item {
            Ok(d) => {
                *self = ForwardState::Sending { last: false };
                Forward { response: Annotated::from_data(d), stop_generating: false }
            },
            Err(e) => {
                let fatal = e.is_fatal();
                *self = ForwardState::Sending { last: fatal };
                Forward { response: Annotated::from_error(e.stream_message()), stop_generating: fatal }
            },
        }
    }

    /// Records whether the consumer took the response; returns whether the
    /// task pulls another item. A vanished consumer ends the task silently.
    pub fn on_sent(&mut self, delivered: bool) -> (more: bool)
        requires
            *old(self) is Sending,
        ensures
            more == (delivered && !(*old(self))->last),
            *final(self) == (if more {
                ForwardState::Pulling
            } else {
                ForwardState::Closed
            }),
    {
        let last = match self {
            ForwardState::Sending { last } => *last,
            _ => true,
        };
        let more = delivered && !last;
        *self = if more {
            ForwardState::Pulling
        } else {
            ForwardState::Closed
        };
        more
    }

    /// The guest sequence ended normally.
    pub fn on_exhausted(&mut self)
        requires
            *old(self) == ForwardState::Pulling,
        ensures
            *final(self) == ForwardState::Closed,
    {
        *self = ForwardState::Closed;
    }
}


/// What a forwarding task did for one request.
#[derive(Debug)]
pub struct PumpReport<R> {
    /// The responses the consumer received, in order.
    pub delivered: Vec<Annotated<R>>,
    /// How many items were pulled from the guest sequence.
    pub pulled: usize,
    /// How many times the request context's stop signal was raised.
    pub stop_signals: usize,
}

/// How many responses reach a consumer that takes at most `limit` of them
/// (`None`: no limit) before dropping the stream.
pub open spec fn delivered_count<R>(items: Seq<Result<R, ResponseProcessingError>>, limit: Option<usize>) -> int {
    match limit {
        None => stream_len(items),
        Some(m) => if stream_len(items) <= m {
            stream_len(items)
        } else {
            m as int
        },
    }
}

/// How many items the task pulls before it stops: it pulls one more than the
/// consumer takes, finds the channel closed on sending it, and stops.
pub open spec fn pulled_count<R>(items: Seq<Result<R, ResponseProcessingError>>, limit: Option<usize>) -> int {
    match limit {
        None => stream_len(items),
        Some(m) => if stream_len(items) <= m + 1 {
            stream_len(items)
        } else {
            m + 1
        },
    }
}

/// `out` is the whole response stream of a request whose pulled items are
/// `items`: one response per item, in order, up to and including the first
/// fatal one.
pub open spec fn is_stream_of<R>(items: Seq<Result<R, ResponseProcessingError>>, out: Seq<Annotated<R>>) -> bool {
    &&& out.len() == stream_len(items)
    &&& forall|i: int| 0 <= i < out.len() ==> responds_to(#[trigger] out[i], items[i])
}

/// `r` is what the forwarding task does for `items` towards a consumer that
/// takes at most `limit` responses.
pub open spec fn reports<R>(
    items: Seq<Result<R, ResponseProcessingError>>,
    limit: Option<usize>,
    r: PumpReport<R>,
) -> bool {
    &&& r.pulled == pulled_count(items, limit)
    &&& r.delivered@.len() == delivered_count(items, limit)
    &&& forall|i: int| 0 <= i < r.delivered@.len() ==> responds_to(#[trigger] r.delivered@[i], items[i])
    &&& r.stop_signals == (if r.pulled > 0 && is_fatal_item(items[r.pulled - 1]) {
        1int
    } else {
        0int
    })
}

proof fn lemma_stream_len_from_bounds<R>(items: Seq<Result<R, ResponseProcessingError>>, i: int)
    requires
        0 <= i <= items.len(),
    ensures
        0 <= stream_len_from(items, i) <= items.len() - i,
        i < items.len() ==> stream_len_from(items, i) >= 1,
    decreases items.len() - i,
{
    if i < items.len() && !is_fatal_item(items[i]) {
        lemma_stream_len_from_bounds(items, i + 1);
    }
}

proof fn lemma_stream_len_from_no_fatal<R>(items: Seq<Result<R, ResponseProcessingError>>, i: int)
    requires
        0 <= i <= items.len(),
        forall|j: int| i <= j < items.len() ==> !is_fatal_item(#[trigger] items[j]),
    ensures
        stream_len_from(items, i) == items.len() - i,
    decreases items.len() - i,
{
    if i < items.len() {
        lemma_stream_len_from_no_fatal(items, i + 1);
    }
}

proof fn lemma_stream_len_from_first_fatal<R>(items: Seq<Result<R, ResponseProcessingError>>, i: int, k: int)
    requires
        0 <= i <= k < items.len(),
        is_fatal_item(items[k]),
        forall|j: int| i <= j < k ==> !is_fatal_item(#[trigger] items[j]),
    ensures
        stream_len_from(items, i) == k + 1 - i,
    decreases k - i,
{
    if i < k {
        lemma_stream_len_from_first_fatal(items, i + 1, k);
    }
}

/// A stream never holds more responses than there are items.
pub proof fn lemma_stream_len_bounds<R>(items: Seq<Result<R, ResponseProcessingError>>)
    ensures
        0 <= stream_len(items) <= items.len(),
{
    lemma_stream_len_from_bounds(items, 0);
}

/// Every item before the last one a stream holds is non-fatal.
pub proof fn lemma_stream_prefix_not_fatal<R>(items: Seq<Result<R, ResponseProcessingError>>, j: int, i: int)
    requires
        0 <= j <= i,
        i + 1 < j + stream_len_from(items, j),
    ensures
        !is_fatal_item(items[i]),
    decreases i - j,
{
    if j < i {
        lemma_stream_prefix_not_fatal(items, j + 1, i);
    }
}

/// A sequence without fatal items is forwarded whole.
pub proof fn lemma_stream_len_no_fatal<R>(items: Seq<Result<R, ResponseProcessingError>>)
    requires
        forall|j: int| 0 <= j < items.len() ==> !is_fatal_item(#[trigger] items[j]),
    ensures
        stream_len(items) == items.len(),
{
    lemma_stream_len_from_no_fatal(items, 0);
}

/// The stream ends right after the first fatal item.
pub proof fn lemma_stream_len_first_fatal<R>(items: Seq<Result<R, ResponseProcessingError>>, k: int)
    requires
        0 <= k < items.len(),
        is_fatal_item(items[k]),
        forall|j: int| 0 <= j < k ==> !is_fatal_item(#[trigger] items[j]),
    ensures
        stream_len(items) == k + 1,
{
    lemma_stream_len_from_first_fatal(items, 0, k);
}

/// Runs the forwarding task of one request whose guest sequence yields
/// `items` (each already converted, or the error that stopped it), towards a
/// consumer that takes at most `consumer_limit` responses and then drops the
/// stream (`None`: a consumer that reads to the end).
pub fn pump_sequence<R>(items: Vec<Result<R, ResponseProcessingError>>, consumer_limit: Option<usize>) -> (r: PumpReport<R>)
    ensures
        reports(items@, consumer_limit, r),
        consumer_limit is None ==> is_stream_of(items@, r.delivered@),
{
    let ghost orig = items@;
    let total: usize = items.len();
    let mut items = items;
    let mut state = ForwardState::new();
    let mut delivered: Vec<Annotated<R>> = Vec::new();
    let mut pulled: usize = 0;
    let mut stop_signals: usize = 0;
    proof {
        lemma_stream_len_from_bounds(orig, 0);
    }
    while !state.is_closed()
        invariant
            state == ForwardState::Pulling || state == ForwardState::Closed,
            delivered@.len() <= pulled <= orig.len(),
            orig.len() == total,
            items@ == orig.subrange(pulled as int, orig.len() as int),
            forall|i: int| 0 <= i < delivered@.len() ==> responds_to(#[trigger] delivered@[i], orig[i]),
            stop_signals == (if pulled > 0 && is_fatal_item(orig[pulled - 1]) {
                1int
            } else {
                0int
            }),
            state == ForwardState::Pulling ==> {
                &&& delivered@.len() == pulled
                &&& (pulled == 0 || !is_fatal_item(orig[pulled - 1]))
                &&& (consumer_limit matches Some(m) ==> pulled <= m)
                &&& stream_len(orig) == pulled + stream_len_from(orig, pulled as int)
            },
            state == ForwardState::Closed ==> {
                &&& pulled == pulled_count(orig, consumer_limit)
                &&& delivered@.len() == delivered_count(orig, consumer_limit)
            },
        decreases orig.len() - pulled + (if state == ForwardState::Closed {
            0int
        } else {
            1int
        }),
    {
        if items.len() == 0 {
            state.on_exhausted();
        } else {
            let ghost p = pulled as int;
            proof {
                lemma_stream_len_from_bounds(orig, p);
                lemma_stream_len_from_bounds(orig, p + 1);
            }
            let item = items.remove(0);
            assert(items@ =~= orig.subrange(p + 1, orig.len() as int));
            pulled = pulled + 1;
            let Forward { response, stop_generating } = state.on_item(item);
            stop_signals = if stop_generating {
                1
            } else {
                0
            };
            let accepts = match consumer_limit {
                None => true,
                Some(m) => delivered.len() < m,
            };
            if accepts {
                delivered.push(response);
            }
            state.on_sent(accepts);
        }
    }
    PumpReport { delivered, pulled, stop_signals }
}

} // verus!
