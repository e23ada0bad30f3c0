use vstd::prelude::*;

use crate::annotated::Annotated;
use crate::error::{stream_message, ResponseProcessingError};
use crate::pump::{
    is_fatal_item, lemma_stream_len_first_fatal, lemma_stream_prefix_not_fatal, lemma_stream_len_no_fatal, reports, stream_len,
    PumpReport,
};

verus! {

/// When every item of the guest sequence converts and the consumer reads to
/// the end, the stream holds exactly one payload per item, in the guest's
/// order, and the stop signal is never raised.
pub proof fn law_every_item_forwarded<R>(items: Seq<Result<R, ResponseProcessingError>>, r: PumpReport<R>)
    requires
        reports(items, None, r),
        forall|j: int| 0 <= j < items.len() ==> (#[trigger] items[j]) is Ok,
    ensures
        r.delivered@.len() == items.len(),
        r.pulled == items.len(),
        forall|i: int| 0 <= i < items.len() ==> r.delivered@[i] == Annotated::Data(
            (#[trigger] items[i])->Ok_0,
        ),
        r.stop_signals == 0,
{
    assert forall|j: int| 0 <= j < items.len() implies !is_fatal_item(#[trigger] items[j]) by {
        assert(items[j] is Ok);
    }
    lemma_stream_len_no_fatal(items);
    assert forall|i: int| 0 <= i < items.len() implies r.delivered@[i] == Annotated::Data(
        (#[trigger] items[i])->Ok_0,
    ) by {
        assert(items[i] is Ok);
    }
    if r.pulled > 0 {
        assert(items[r.pulled - 1] is Ok);
    }
}

/// A guest exception on item `k` yields an error-tagged response for that
/// item alone: every item is still forwarded, in order, the others as
/// payloads, and the stop signal is never raised.
pub proof fn law_guest_exception_not_fatal<R>(
    items: Seq<Result<R, ResponseProcessingError>>,
    r: PumpReport<R>,
    k: int,
)
    requires
        reports(items, None, r),
        0 <= k < items.len(),
        items[k] matches Err(e) && e is PythonException,
        forall|j: int| 0 <= j < items.len() && j != k ==> (#[trigger] items[j]) is Ok,
    ensures
        r.delivered@.len() == items.len(),
        r.pulled == items.len(),
        r.delivered@[k] matches Annotated::Error(m) && m@ == stream_message(items[k]->Err_0),
        forall|i: int|
            0 <= i < items.len() && i != k ==> r.delivered@[i] == Annotated::Data(
                (#[trigger] items[i])->Ok_0,
            ),
        r.stop_signals == 0,
{
    assert forall|j: int| 0 <= j < items.len() implies !is_fatal_item(#[trigger] items[j]) by {
        if j != k {
            assert(items[j] is Ok);
        }
    }
    lemma_stream_len_no_fatal(items);
    assert(r.delivered@.len() == items.len());
    assert forall|i: int| 0 <= i < items.len() && i != k implies r.delivered@[i] == Annotated::Data(
        (#[trigger] items[i])->Ok_0,
    ) by {
        assert(items[i] is Ok);
    }
    assert(!is_fatal_item(items[r.pulled - 1]));
}

/// When item `k` fails conversion (a shape mismatch or a failed offload)
/// after `k` items that converted, the stream holds `k + 1` responses: the
/// `k` payloads, then one error-tagged response. No later item is pulled,
/// and the stop signal is raised exactly once.
pub proof fn law_fatal_item_ends_stream<R>(
    items: Seq<Result<R, ResponseProcessingError>>,
    r: PumpReport<R>,
    k: int,
)
    requires
        reports(items, None, r),
        0 <= k < items.len(),
        items[k] matches Err(e) && !(e is PythonException),
        forall|j: int| 0 <= j < k ==> (#[trigger] items[j]) is Ok,
    ensures
        r.delivered@.len() == k + 1,
        r.pulled == k + 1,
        forall|i: int| 0 <= i < k ==> r.delivered@[i] == Annotated::Data((#[trigger] items[i])->Ok_0),
        r.delivered@[k] matches Annotated::Error(m) && m@ == stream_message(items[k]->Err_0),
        r.stop_signals == 1,
{
    assert forall|j: int| 0 <= j < k implies !is_fatal_item(#[trigger] items[j]) by {
        assert(items[j] is Ok);
    }
    lemma_stream_len_first_fatal(items, k);
    assert forall|i: int| 0 <= i < k implies r.delivered@[i] == Annotated::Data(
        (#[trigger] items[i])->Ok_0,
    ) by {
        assert(items[i] is Ok);
    }
}

/// Whatever the items and the consumer, only the last response a consumer
/// receives can come from a fatal error: at most one fatal error reaches the
/// stream, and nothing follows it.
pub proof fn law_fatal_error_only_last<R>(
    items: Seq<Result<R, ResponseProcessingError>>,
    limit: Option<usize>,
    r: PumpReport<R>,
)
    requires
        reports(items, limit, r),
    ensures
        forall|i: int| 0 <= i < r.delivered@.len() - 1 ==> !is_fatal_item(#[trigger] items[i]),
{
    assert forall|i: int| 0 <= i < r.delivered@.len() - 1 implies !is_fatal_item(
        #[trigger] items[i],
    ) by {
        lemma_stream_prefix_not_fatal(items, 0, i);
    }
}

/// A consumer that drops the stream after `m` responses, fewer than the
/// stream would hold, receives the first `m` responses in order; the task
/// pulls one item more, finds the channel closed, and stops without sending
/// anything further.
pub proof fn law_consumer_drop_stops_task<R>(
    items: Seq<Result<R, ResponseProcessingError>>,
    r: PumpReport<R>,
    m: usize,
)
    requires
        reports(items, Some(m), r),
        m < stream_len(items),
    ensures
        r.delivered@.len() == m,
        r.pulled == m + 1,
        r.pulled <= items.len(),
        forall|i: int|
            0 <= i < m ==> crate::pump::responds_to(#[trigger] r.delivered@[i], items[i]),
{
    crate::pump::lemma_stream_len_bounds(items);
}

} // verus!
