//! Serving a batch from the in-memory store.
//!
//! Here the dispatcher and the store are put together: every step that asks
//! for the store is performed on a `ReminderStore` at hand, call after call,
//! until the batch is done or needs the answering service.

use vstd::prelude::*;
use crate::call::{handler_for, FunctionArgsView, Handler, ToolCall, ToolCallView};
use crate::dispatch::{
    answered,
    awaiting,
    current_call,
    fits,
    BatchView,
    DispatchError,
    DispatchErrorView,
    Dispatcher,
    PendingAsk,
    Step,
};
use crate::models::{ReminderView, ResponseWrapper, ToolCallResponseView, ToolCallResultView};
use crate::store::{duplicate_id_message, holds_id, ReminderStore};

verus! {

/// The records after a call that was given the answer `result`: one more
/// after a creation, none after a deletion, the same after any other call.
pub open spec fn records_after_call(
    records: Seq<ReminderView>,
    call: ToolCallView,
    result: ToolCallResultView,
) -> Seq<ReminderView> {
    match handler_for(call.function) {
        Handler::StoreReminder => records.push(result.result->Single_0),
        Handler::DeleteAllReminders => Seq::empty(),
        _ => records,
    }
}

/// The records after the calls from index `from` up to, not including,
/// index `to`, each with the answer that it was given.
pub open spec fn records_after(
    records: Seq<ReminderView>,
    calls: Seq<ToolCallView>,
    results: Seq<ToolCallResultView>,
    from: int,
    to: int,
) -> Seq<ReminderView>
    decreases to - from,
{
    if to <= from {
        records
    } else {
        records_after_call(
            records_after(records, calls, results, from, to - 1),
            calls[to - 1],
            results[to - 1],
        )
    }
}

/// Whether `result` is the answer that a store holding `records` gives to
/// the call: it fits the call's row, a listing holds exactly the records,
/// and a created reminder bears an identifier that no record had.
pub open spec fn served(
    records: Seq<ReminderView>,
    call: ToolCallView,
    result: ToolCallResultView,
) -> bool {
    &&& fits(call, result)
    &&& match handler_for(call.function) {
        Handler::ListReminders => result.result == ToolCallResponseView::Multiple(records),
        Handler::StoreReminder => !holds_id(records, result.result->Single_0.id),
        _ => true,
    }
}

/// Each call from index `from` up to, not including, index `to` got the
/// answer of the store as its predecessors had left it.
pub open spec fn served_in_turn(
    records: Seq<ReminderView>,
    calls: Seq<ToolCallView>,
    results: Seq<ToolCallResultView>,
    from: int,
    to: int,
) -> bool {
    forall|i: int|
        from <= i < to ==> served(
            records_after(records, calls, results, from, i),
            calls[i],
            #[trigger] results[i],
        )
}

/// No call from index `from` up to, not including, index `to` forwards a
/// question.
pub open spec fn none_forwarded(calls: Seq<ToolCallView>, from: int, to: int) -> bool {
    forall|i: int|
        from <= i < to ==> handler_for(#[trigger] calls[i].function) != Handler::AskPerplexity
}

/// How a batch stands after the store refused a write. The calls from index
/// `from` on were served in turn, with the answers `partial`, up to a call
/// that stores a reminder; that call and those after it were not served.
/// The records `left` are those that the calls served had left, and there
/// is at least one: a write is refused only for an identifier that a record
/// bears.
pub open spec fn stopped_at_write(
    records: Seq<ReminderView>,
    calls: Seq<ToolCallView>,
    from: int,
    partial: Seq<ToolCallResultView>,
    left: Seq<ReminderView>,
) -> bool {
    &&& from <= partial.len() < calls.len()
    &&& handler_for(calls[partial.len() as int].function) == Handler::StoreReminder
    &&& none_forwarded(calls, from, partial.len() as int)
    &&& served_in_turn(records, calls, partial, from, partial.len() as int)
    &&& left == records_after(records, calls, partial, from, partial.len() as int)
    &&& left.len() > 0
}

/// Where a batch stands once the store has served it as far as it can.
pub enum Served {
    /// At a call that forwards a question.
    AskPerplexity(PendingAsk),
    /// At its end.
    Done(ResponseWrapper),
}

impl Served {
    /// The answers that are on the books.
    pub open spec fn results(self) -> Seq<ToolCallResultView> {
        match self {
            Served::AskPerplexity(pending) => pending@.results,
            Served::Done(response) => response@,
        }
    }

    /// The batch stands at a call that forwards a question, with the
    /// question in hand, or is done, with every call answered.
    pub open spec fn stands_in(self, calls: Seq<ToolCallView>) -> bool {
        match self {
            Served::AskPerplexity(pending) => {
                &&& pending@.calls == calls
                &&& awaiting(pending@, Handler::AskPerplexity)
                &&& current_call(pending@).function.arguments == FunctionArgsView::Message(
                    pending.question(),
                )
            },
            Served::Done(response) => {
                &&& response@.len() == calls.len()
                &&& answered(BatchView { calls, results: response@ })
            },
        }
    }
}

/// The records after a range of calls depend on the answers in that range
/// only.
pub proof fn lemma_records_after_agree(
    records: Seq<ReminderView>,
    calls: Seq<ToolCallView>,
    first: Seq<ToolCallResultView>,
    second: Seq<ToolCallResultView>,
    from: int,
    to: int,
)
    requires
        forall|i: int| from <= i < to ==> first[i] == second[i],
    ensures
        records_after(records, calls, first, from, to) == records_after(
            records,
            calls,
            second,
            from,
            to,
        ),
    decreases to - from,
{
    if to > from {
        lemma_records_after_agree(records, calls, first, second, from, to - 1);
    }
}

/// Calls that no handler fits leave the records as they are.
pub proof fn lemma_unrecognized_calls_keep_records(
    records: Seq<ReminderView>,
    calls: Seq<ToolCallView>,
    results: Seq<ToolCallResultView>,
    from: int,
    mid: int,
    to: int,
)
    requires
        from <= mid <= to,
        forall|i: int| mid <= i < to ==> handler_for(calls[i].function) == Handler::Unrecognized,
    ensures
        records_after(records, calls, results, from, to) == records_after(
            records,
            calls,
            results,
            from,
            mid,
        ),
    decreases to - mid,
{
    if to > mid {
        lemma_unrecognized_calls_keep_records(records, calls, results, from, mid, to - 1);
    }
}

/// One more stretch of the way: the call at index `at` was served from the
/// records as they stood, and the calls after it up to `to` were
/// unrecognized.
proof fn lemma_served_further(
    records: Seq<ReminderView>,
    calls: Seq<ToolCallView>,
    before: Seq<ToolCallResultView>,
    after: Seq<ToolCallResultView>,
    from: int,
    at: int,
    to: int,
)
    requires
        0 <= from <= at < to <= calls.len(),
        before.len() == at,
        after.len() == to,
        forall|i: int| 0 <= i < at ==> after[i] == before[i],
        served_in_turn(records, calls, before, from, at),
        served(records_after(records, calls, before, from, at), calls[at], after[at]),
        forall|i: int|
            at < i < to ==> handler_for(calls[i].function) == Handler::Unrecognized && fits(
                calls[i],
                after[i],
            ),
    ensures
        served_in_turn(records, calls, after, from, to),
        records_after(records, calls, after, from, to) == records_after_call(
            records_after(records, calls, before, from, at),
            calls[at],
            after[at],
        ),
{
    assert forall|i: int| from <= i < to implies served(
        records_after(records, calls, after, from, i),
        calls[i],
        #[trigger] after[i],
    ) by {
        if i <= at {
            lemma_records_after_agree(records, calls, before, after, from, i);
        }
    }
    lemma_records_after_agree(records, calls, before, after, from, at);
    lemma_unrecognized_calls_keep_records(records, calls, after, from, at + 1, to);
}

/// Serves the batch from the store: lists, stores and deletes as its calls
/// ask, one call after the other, until the batch is done or stands at a
/// call that forwards a question. Each answer is the store's as the calls
/// before had left it, and the store ends as the calls served leave it.
/// Calls that no handler fits are answered with the fixed message and do not
/// touch the store.
///
/// A question is never answered here: the batch stops at the first call
/// that forwards one, and hands it out.
///
/// The batch fails, as a persistence failure, only where the store refuses
/// a write because the identifier drawn for it is taken, which cannot happen
/// while the store is empty. The calls before that write were served and
/// what they did to the store stays; the write and the calls after it are
/// not served, and no answer is returned.
pub fn serve(store: &mut ReminderStore, batch: Dispatcher) -> (outcome: Result<
    Served,
    DispatchError,
>)
    requires
        old(store).wf(),
    ensures
        final(store).wf(),
        match outcome {
            Ok(stop) => {
                &&& stop.stands_in(batch@.calls)
                &&& batch@.results.len() <= stop.results().len()
                &&& forall|i: int|
                    0 <= i < batch@.results.len() ==> stop.results()[i] == batch@.results[i]
                &&& served_in_turn(
                    old(store)@,
                    batch@.calls,
                    stop.results(),
                    batch@.results.len() as int,
                    stop.results().len() as int,
                )
                &&& final(store)@ == records_after(
                    old(store)@,
                    batch@.calls,
                    stop.results(),
                    batch@.results.len() as int,
                    stop.results().len() as int,
                )
                &&& none_forwarded(
                    batch@.calls,
                    batch@.results.len() as int,
                    stop.results().len() as int,
                )
            },
            Err(error) => {
                &&& error@ == DispatchErrorView::Persistence(duplicate_id_message())
                &&& exists|partial: Seq<ToolCallResultView>|
                    stopped_at_write(
                        old(store)@,
                        batch@.calls,
                        batch@.results.len() as int,
                        partial,
                        final(store)@,
                    )
            },
        },
{
    let ghost calls = batch@.calls;
    let ghost first = batch@.results;
    let ghost from = first.len() as int;
    let ghost records = store@;
    let mut step = batch.advance();
    proof {
        lemma_unrecognized_calls_keep_records(
            records,
            calls,
            step.results(),
            from,
            from,
            step.results().len() as int,
        );
    }
    loop
        invariant
            store.wf(),
            calls == batch@.calls,
            first == batch@.results,
            from == first.len(),
            records == old(store)@,
            step.stands_in(calls),
            from <= step.results().len() <= calls.len(),
            none_forwarded(calls, from, step.results().len() as int),
            forall|i: int| 0 <= i < from ==> step.results()[i] == first[i],
            served_in_turn(records, calls, step.results(), from, step.results().len() as int),
            store@ == records_after(records, calls, step.results(), from, step.results().len() as int),
        decreases calls.len() - step.results().len(),
    {
        let ghost before = step.results();
        let ghost at = before.len() as int;
        let ghost held = store@;
        match step {
            Step::Done(response) => {
                return Ok(Served::Done(response));
            },
            Step::AskPerplexity(pending) => {
                return Ok(Served::AskPerplexity(pending));
            },
            Step::ListReminders(pending) => {
                let listing = store.list_all();
                match pending.resume(Ok(listing)) {
                    Ok(next) => {
                        step = next.advance();
                    },
                    Err(error) => {
                        return Err(error);
                    },
                }
            },
            Step::StoreReminder(pending) => {
                let reminder = pending.reminder().clone();
                match store.insert(reminder) {
                    Ok(_) => match pending.resume(Ok(())) {
                        Ok(next) => {
                            step = next.advance();
                        },
                        Err(error) => {
                            return Err(error);
                        },
                    },
                    Err(refusal) => {
                        assert(stopped_at_write(records, calls, from, before, store@));
                        return Err(DispatchError::Persistence(refusal.message()));
                    },
                }
            },
            Step::DeleteAllReminders(pending) => {
                let count = store.delete_all();
                match pending.resume(Ok(count)) {
                    Ok(next) => {
                        step = next.advance();
                    },
                    Err(error) => {
                        return Err(error);
                    },
                }
            },
        }
        proof {
            let after = step.results();
            assert(after[at] == before.push(after[at])[at]);
            lemma_served_further(records, calls, before, after, from, at, after.len() as int);
        }
    }
}

/// Serves a batch of the given calls from the store, from its first call
/// on, as `serve` does: up to the end, to the first question, or to a write
/// that the store refuses.
pub fn handle_tool_call(store: &mut ReminderStore, calls: Vec<ToolCall>) -> (outcome: Result<
    Served,
    DispatchError,
>)
    requires
        old(store).wf(),
    ensures
        final(store).wf(),
        match outcome {
            Ok(stop) => {
                &&& stop.stands_in(calls.deep_view())
                &&& served_in_turn(
                    old(store)@,
                    calls.deep_view(),
                    stop.results(),
                    0,
                    stop.results().len() as int,
                )
                &&& final(store)@ == records_after(
                    old(store)@,
                    calls.deep_view(),
                    stop.results(),
                    0,
                    stop.results().len() as int,
                )
                &&& none_forwarded(calls.deep_view(), 0, stop.results().len() as int)
            },
            Err(error) => {
                &&& error@ == DispatchErrorView::Persistence(duplicate_id_message())
                &&& exists|partial: Seq<ToolCallResultView>|
                    stopped_at_write(
                        old(store)@,
                        calls.deep_view(),
                        0,
                        partial,
                        final(store)@,
                    )
            },
        },
{
    serve(store, Dispatcher::new(calls))
}

} // verus!
