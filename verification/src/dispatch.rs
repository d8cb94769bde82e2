//! The call dispatcher: one answer per call, in the order of the calls.
//!
//! The dispatcher does no storage or network work itself. It walks the
//! batch, answers on the spot every call that no handler fits, and stops at
//! each call that needs a collaborator. The step it hands out says what is
//! needed; resuming the step with the collaborator's outcome either records
//! the answer and gives the dispatcher back, or fails the whole batch.

use vstd::prelude::*;
use crate::call::{
    ask_name,
    delete_name,
    handler_for,
    infer_shape,
    list_name,
    store_name,
    FunctionArgs,
    FunctionArgsView,
    FunctionCallView,
    Handler,
    RawArgumentsView,
    ToolCall,
    ToolCallView,
};
use crate::ident::is_identifier;
use crate::models::{
    Reminder,
    ReminderView,
    ResponseWrapper,
    ToolCallResponse,
    ToolCallResponseView,
    ToolCallResult,
    ToolCallResultView,
};

verus! {

/// Why a batch failed. Either way the failure is an internal error of the
/// service, and the text is the collaborator's own.
#[derive(Debug)]
pub enum DispatchError {
    /// The store could not create, list or delete.
    Persistence(String),
    /// The answering service could not be reached or refused.
    Forwarding(String),
}

/// A batch failure as a mathematical value.
pub enum DispatchErrorView {
    Persistence(Seq<char>),
    Forwarding(Seq<char>),
}

impl View for DispatchError {
    type V = DispatchErrorView;

    open spec fn view(&self) -> DispatchErrorView {
        match self {
            DispatchError::Persistence(text) => DispatchErrorView::Persistence(text@),
            DispatchError::Forwarding(text) => DispatchErrorView::Forwarding(text@),
        }
    }
}

impl DispatchError {
    /// The collaborator's text.
    pub fn message(&self) -> (text: &String)
        ensures
            self@ == DispatchErrorView::Persistence(text@) || self@
                == DispatchErrorView::Forwarding(text@),
    {
        match self {
            DispatchError::Persistence(text) => text,
            DispatchError::Forwarding(text) => text,
        }
    }

    /// The HTTP status under which the failure is reported: 500, whichever
    /// collaborator failed.
    pub fn status_code(&self) -> (code: u16)
        ensures
            code == 500,
    {
        500
    }
}

/// The text that answers a call which no handler fits.
pub open spec fn unknown_call_message() -> Seq<char> {
    "Unknown function call"@
}

/// The answer to a call which no handler fits.
pub open spec fn unrecognized_result(call: ToolCallView) -> ToolCallResultView {
    ToolCallResultView {
        toolCallId: call.id,
        result: ToolCallResponseView::Message(unknown_call_message()),
    }
}

/// A reminder made from creation arguments: a fresh identifier, message and
/// due time verbatim.
pub open spec fn created_from(arguments: FunctionArgsView, reminder: ReminderView) -> bool {
    &&& arguments matches FunctionArgsView::Create(wanted)
    &&& is_identifier(reminder.id)
    &&& reminder.message == wanted.message
    &&& reminder.remind_at == wanted.remind_at
}

/// Whether `result` is an answer that the call's row of the routing table
/// can give: it carries the call's identifier, and has the shape, and as
/// far as the dispatcher decides it the content, that the row prescribes.
pub open spec fn fits(call: ToolCallView, result: ToolCallResultView) -> bool {
    &&& result.toolCallId == call.id
    &&& match handler_for(call.function) {
        Handler::ListReminders => result.result is Multiple,
        Handler::StoreReminder => {
            &&& result.result matches ToolCallResponseView::Single(reminder)
            &&& created_from(call.function.arguments, reminder)
        },
        Handler::DeleteAllReminders => result.result == ToolCallResponseView::Multiple(
            Seq::empty(),
        ),
        Handler::AskPerplexity => result.result is Message,
        Handler::Unrecognized => result == unrecognized_result(call),
    }
}

/// A batch under way: its calls and the answers given so far.
pub struct BatchView {
    pub calls: Seq<ToolCallView>,
    pub results: Seq<ToolCallResultView>,
}

/// The answers so far answer the first calls of the batch, one each and in
/// order.
pub open spec fn answered(batch: BatchView) -> bool {
    &&& batch.results.len() <= batch.calls.len()
    &&& forall|i: int|
        0 <= i < batch.results.len() ==> fits(batch.calls[i], #[trigger] batch.results[i])
}

/// The batch stands at a call of the given row: all calls before it are
/// answered, and it is not.
pub open spec fn awaiting(batch: BatchView, row: Handler) -> bool {
    &&& answered(batch)
    &&& batch.results.len() < batch.calls.len()
    &&& handler_for(batch.calls[batch.results.len() as int].function) == row
}

/// The call at which an unfinished batch stands.
pub open spec fn current_call(batch: BatchView) -> ToolCallView {
    batch.calls[batch.results.len() as int]
}

/// `after` is `before` with answers added for unrecognized calls only, each
/// the fixed message under the call's identifier.
pub open spec fn extended_by_unrecognized(
    calls: Seq<ToolCallView>,
    before: Seq<ToolCallResultView>,
    after: Seq<ToolCallResultView>,
) -> bool {
    &&& before.len() <= after.len() <= calls.len()
    &&& forall|i: int| 0 <= i < before.len() ==> after[i] == before[i]
    &&& forall|i: int|
        #![trigger after[i]]
        #![trigger calls[i]]
        before.len() <= i < after.len() ==> {
            &&& handler_for(calls[i].function) == Handler::Unrecognized
            &&& after[i] == unrecognized_result(calls[i])
        }
}

/// The batch with one more answer: `response` under the identifier of the
/// call at which the batch stands.
pub open spec fn with_answer(batch: BatchView, response: ToolCallResponseView) -> BatchView {
    BatchView {
        calls: batch.calls,
        results: batch.results.push(
            ToolCallResultView { toolCallId: current_call(batch).id, result: response },
        ),
    }
}

/// Shape priority. A payload that holds both `message` and `remind_at` has
/// the creation shape, not the forwarding shape. Under the name that stores
/// a reminder it is answered with one reminder of that message and due
/// time, never with text; under the name that forwards a question it is not
/// forwarded but unrecognized.
pub proof fn lemma_creation_payload_yields_reminder(
    id: Seq<char>,
    raw: RawArgumentsView,
    result: ToolCallResultView,
)
    requires
        raw is Object,
        raw->message is Some,
        raw->remind_at is Some,
        fits(
            ToolCallView {
                id,
                function: FunctionCallView { name: store_name(), arguments: infer_shape(raw) },
            },
            result,
        ),
    ensures
        infer_shape(raw) is Create,
        result.toolCallId == id,
        result.result is Single,
        result.result->Single_0.message == raw->message->0,
        result.result->Single_0.remind_at == raw->remind_at->0,
        handler_for(FunctionCallView { name: ask_name(), arguments: infer_shape(raw) })
            == Handler::Unrecognized,
{
    reveal_strlit("AskPerplexity");
    reveal_strlit("StoreUserReminder");
    assert(ask_name().len() != store_name().len());
}

/// A call under a name that the routing table does not hold is answered,
/// whatever its arguments, with the fixed message under its own identifier.
pub proof fn lemma_unknown_name_yields_message(call: ToolCallView, result: ToolCallResultView)
    requires
        call.function.name != list_name(),
        call.function.name != store_name(),
        call.function.name != delete_name(),
        call.function.name != ask_name(),
        fits(call, result),
    ensures
        handler_for(call.function) == Handler::Unrecognized,
        result.toolCallId == call.id,
        result.result == ToolCallResponseView::Message(unknown_call_message()),
{
}

/// A batch whose calls are all answered has one answer for each call, in
/// the order of the calls, each under the identifier of its call.
pub proof fn lemma_answers_follow_calls(batch: BatchView)
    requires
        answered(batch),
        batch.results.len() == batch.calls.len(),
    ensures
        forall|i: int|
            0 <= i < batch.calls.len() ==> (#[trigger] batch.results[i]).toolCallId
                == batch.calls[i].id,
{
}

/// A batch between two calls.
pub struct Dispatcher {
    calls: Vec<ToolCall>,
    results: Vec<ToolCallResult>,
}

/// A batch that stands at a call which lists the reminders.
pub struct PendingList {
    calls: Vec<ToolCall>,
    results: Vec<ToolCallResult>,
}

/// A batch that stands at a call which stores a reminder.
pub struct PendingStore {
    calls: Vec<ToolCall>,
    results: Vec<ToolCallResult>,
    reminder: Reminder,
}

/// A batch that stands at a call which deletes the reminders.
pub struct PendingDelete {
    calls: Vec<ToolCall>,
    results: Vec<ToolCallResult>,
}

/// A batch that stands at a call which forwards a question.
pub struct PendingAsk {
    calls: Vec<ToolCall>,
    results: Vec<ToolCallResult>,
    message: String,
}

/// What a batch needs next.
pub enum Step {
    /// Every reminder of the store.
    ListReminders(PendingList),
    /// The step's reminder persisted.
    StoreReminder(PendingStore),
    /// Every reminder of the store removed.
    DeleteAllReminders(PendingDelete),
    /// The answering service's reply to the step's message.
    AskPerplexity(PendingAsk),
    /// Nothing: every call is answered.
    Done(ResponseWrapper),
}

impl View for Dispatcher {
    type V = BatchView;

    closed spec fn view(&self) -> BatchView {
        BatchView { calls: self.calls.deep_view(), results: self.results.deep_view() }
    }
}

impl View for PendingList {
    type V = BatchView;

    closed spec fn view(&self) -> BatchView {
        BatchView { calls: self.calls.deep_view(), results: self.results.deep_view() }
    }
}

impl View for PendingStore {
    type V = BatchView;

    closed spec fn view(&self) -> BatchView {
        BatchView { calls: self.calls.deep_view(), results: self.results.deep_view() }
    }
}

impl View for PendingDelete {
    type V = BatchView;

    closed spec fn view(&self) -> BatchView {
        BatchView { calls: self.calls.deep_view(), results: self.results.deep_view() }
    }
}

impl View for PendingAsk {
    type V = BatchView;

    closed spec fn view(&self) -> BatchView {
        BatchView { calls: self.calls.deep_view(), results: self.results.deep_view() }
    }
}

impl Step {
    /// The answers that are on the books at this step.
    pub open spec fn results(self) -> Seq<ToolCallResultView> {
        match self {
            Step::ListReminders(pending) => pending@.results,
            Step::StoreReminder(pending) => pending@.results,
            Step::DeleteAllReminders(pending) => pending@.results,
            Step::AskPerplexity(pending) => pending@.results,
            Step::Done(response) => response@,
        }
    }

    /// The step is a stop of a batch of the given calls: it stands at a
    /// call of its row, with what the collaborator needs in hand, or it is
    /// done, with every call answered.
    pub open spec fn stands_in(self, calls: Seq<ToolCallView>) -> bool {
        match self {
            Step::ListReminders(pending) => {
                &&& pending@.calls == calls
                &&& awaiting(pending@, Handler::ListReminders)
            },
            Step::StoreReminder(pending) => {
                &&& pending@.calls == calls
                &&& awaiting(pending@, Handler::StoreReminder)
                &&& created_from(current_call(pending@).function.arguments, pending.record())
            },
            Step::DeleteAllReminders(pending) => {
                &&& pending@.calls == calls
                &&& awaiting(pending@, Handler::DeleteAllReminders)
            },
            Step::AskPerplexity(pending) => {
                &&& pending@.calls == calls
                &&& awaiting(pending@, Handler::AskPerplexity)
                &&& current_call(pending@).function.arguments == FunctionArgsView::Message(
                    pending.question(),
                )
            },
            Step::Done(response) => {
                &&& response@.len() == calls.len()
                &&& answered(BatchView { calls, results: response@ })
            },
        }
    }
}

/// Puts one more answer on the books.
fn record(
    calls: Vec<ToolCall>,
    results: Vec<ToolCallResult>,
    response: ToolCallResponse,
) -> (next: Dispatcher)
    requires
        results.len() < calls.len(),
        answered(BatchView { calls: calls.deep_view(), results: results.deep_view() }),
        fits(
            calls[results.len() as int]@,
            ToolCallResultView { toolCallId: calls[results.len() as int].id@, result: response@ },
        ),
    ensures
        next@ == with_answer(
            BatchView { calls: calls.deep_view(), results: results.deep_view() },
            response@,
        ),
{
    let mut results = results;
    let ghost before = results.deep_view();
    let id = calls[results.len()].id.clone();
    results.push(ToolCallResult { toolCallId: id, result: response });
    assert(results.deep_view() =~= before.push(
        ToolCallResultView { toolCallId: calls[before.len() as int].id@, result: response@ },
    ));
    Dispatcher { calls, results }
}

impl Dispatcher {
    #[verifier::type_invariant]
    spec fn well_formed(self) -> bool {
        answered(self@)
    }

    /// A batch of the given calls, none of them answered yet.
    pub fn new(calls: Vec<ToolCall>) -> (batch: Self)
        ensures
            batch@.calls == calls.deep_view(),
            batch@.results == Seq::<ToolCallResultView>::empty(),
    {
        let batch = Dispatcher { calls, results: Vec::new() };
        assert(batch@.results =~= Seq::<ToolCallResultView>::empty());
        batch
    }

    /// Goes on to the next call that needs a collaborator, answering on the
    /// way, with the fixed message and without any other effect, each call
    /// that no handler fits. Where no call is left the batch is done, with
    /// one answer for each call, in the order of the calls and under their
    /// identifiers.
    pub fn advance(self) -> (step: Step)
        ensures
            step.stands_in(self@.calls),
            extended_by_unrecognized(self@.calls, self@.results, step.results()),
            step matches Step::Done(response) ==> {
                &&& response@.len() == self@.calls.len()
                &&& forall|i: int|
                    0 <= i < response@.len() ==> (#[trigger] response@[i]).toolCallId
                        == self@.calls[i].id
            },
    {
        proof {
            use_type_invariant(&self);
        }
        let ghost start = self@;
        let Dispatcher { calls, results } = self;
        let mut results = results;
        while results.len() < calls.len()
            invariant
                start == self@,
                calls.deep_view() == start.calls,
                extended_by_unrecognized(start.calls, start.results, results.deep_view()),
                answered(BatchView { calls: start.calls, results: results.deep_view() }),
            decreases calls.len() - results.len(),
        {
            let ghost before = results.deep_view();
            let call = &calls[results.len()];
            assert(call@ == start.calls[before.len() as int]);
            match call.function.handler() {
                Handler::ListReminders => {
                    return Step::ListReminders(PendingList { calls, results });
                },
                Handler::DeleteAllReminders => {
                    return Step::DeleteAllReminders(PendingDelete { calls, results });
                },
                Handler::StoreReminder => {
                    if let FunctionArgs::Create(wanted) = &call.function.arguments {
                        let reminder = Reminder::new(
                            wanted.message.clone(),
                            wanted.remind_at.clone(),
                        );
                        return Step::StoreReminder(PendingStore { calls, results, reminder });
                    }
                },
                Handler::AskPerplexity => {
                    if let FunctionArgs::Message(wanted) = &call.function.arguments {
                        let message = wanted.message.clone();
                        return Step::AskPerplexity(PendingAsk { calls, results, message });
                    }
                },
                Handler::Unrecognized => {},
            }
            let id = call.id.clone();
            let text = "Unknown function call".to_owned();
            results.push(ToolCallResult { toolCallId: id, result: ToolCallResponse::Message(text) });
            assert(results.deep_view() =~= before.push(unrecognized_result(call@)));
        }
        Step::Done(ResponseWrapper { results })
    }
}

impl PendingList {
    #[verifier::type_invariant]
    spec fn well_formed(self) -> bool {
        awaiting(self@, Handler::ListReminders)
    }

    /// Takes the store's outcome. A listing becomes the call's answer; a
    /// failure fails the batch as a persistence failure with the store's
    /// text.
    pub fn resume(self, outcome: Result<Vec<Reminder>, String>) -> (next: Result<
        Dispatcher,
        DispatchError,
    >)
        ensures
            match outcome {
                Ok(reminders) => next matches Ok(batch) && batch@ == with_answer(
                    self@,
                    ToolCallResponseView::Multiple(reminders.deep_view()),
                ),
                Err(text) => next matches Err(error) && error@ == DispatchErrorView::Persistence(
                    text@,
                ),
            },
    {
        proof {
            use_type_invariant(&self);
        }
        let PendingList { calls, results } = self;
        match outcome {
            Ok(reminders) => Ok(record(calls, results, ToolCallResponse::Multiple(reminders))),
            Err(text) => Err(DispatchError::Persistence(text)),
        }
    }
}

impl PendingStore {
    #[verifier::type_invariant]
    spec fn well_formed(self) -> bool {
        &&& awaiting(self@, Handler::StoreReminder)
        &&& created_from(current_call(self@).function.arguments, self.reminder@)
    }

    /// The reminder that is to be persisted.
    pub closed spec fn record(&self) -> ReminderView {
        self.reminder@
    }

    /// The reminder that is to be persisted.
    pub fn reminder(&self) -> (reminder: &Reminder)
        ensures
            reminder@ == self.record(),
    {
        &self.reminder
    }

    /// Takes the store's outcome. Once the reminder is persisted it becomes
    /// the call's answer; a failure fails the batch as a persistence failure
    /// with the store's text.
    pub fn resume(self, outcome: Result<(), String>) -> (next: Result<Dispatcher, DispatchError>)
        ensures
            match outcome {
                Ok(_) => next matches Ok(batch) && batch@ == with_answer(
                    self@,
                    ToolCallResponseView::Single(self.record()),
                ),
                Err(text) => next matches Err(error) && error@ == DispatchErrorView::Persistence(
                    text@,
                ),
            },
    {
        proof {
            use_type_invariant(&self);
        }
        let PendingStore { calls, results, reminder } = self;
        match outcome {
            Ok(_) => Ok(record(calls, results, ToolCallResponse::Single(reminder))),
            Err(text) => Err(DispatchError::Persistence(text)),
        }
    }
}

impl PendingDelete {
    #[verifier::type_invariant]
    spec fn well_formed(self) -> bool {
        awaiting(self@, Handler::DeleteAllReminders)
    }

    /// Takes the store's outcome. After a deletion the call's answer is the
    /// empty list, whatever the number of records removed; a failure fails
    /// the batch as a persistence failure with the store's text.
    pub fn resume(self, outcome: Result<usize, String>) -> (next: Result<
        Dispatcher,
        DispatchError,
    >)
        ensures
            match outcome {
                Ok(_) => next matches Ok(batch) && batch@ == with_answer(
                    self@,
                    ToolCallResponseView::Multiple(Seq::empty()),
                ),
                Err(text) => next matches Err(error) && error@ == DispatchErrorView::Persistence(
                    text@,
                ),
            },
    {
        proof {
            use_type_invariant(&self);
        }
        let PendingDelete { calls, results } = self;
        match outcome {
            Ok(_) => {
                let none: Vec<Reminder> = Vec::new();
                assert(none.deep_view() =~= Seq::<ReminderView>::empty());
                Ok(record(calls, results, ToolCallResponse::Multiple(none)))
            },
            Err(text) => Err(DispatchError::Persistence(text)),
        }
    }
}

impl PendingAsk {
    #[verifier::type_invariant]
    spec fn well_formed(self) -> bool {
        &&& awaiting(self@, Handler::AskPerplexity)
        &&& current_call(self@).function.arguments == FunctionArgsView::Message(self.message@)
    }

    /// The message that is to be forwarded.
    pub closed spec fn question(&self) -> Seq<char> {
        self.message@
    }

    /// The message that is to be forwarded.
    pub fn message(&self) -> (message: &String)
        ensures
            message@ == self.question(),
    {
        &self.message
    }

    /// Takes the answering service's outcome. A reply becomes the call's
    /// answer, as it came; a failure fails the batch as a forwarding failure
    /// with the service's text.
    pub fn resume(self, outcome: Result<String, String>) -> (next: Result<
        Dispatcher,
        DispatchError,
    >)
        ensures
            match outcome {
                Ok(reply) => next matches Ok(batch) && batch@ == with_answer(
                    self@,
                    ToolCallResponseView::Message(reply@),
                ),
                Err(text) => next matches Err(error) && error@ == DispatchErrorView::Forwarding(
                    text@,
                ),
            },
    {
        proof {
            use_type_invariant(&self);
        }
        let PendingAsk { calls, results, message: _ } = self;
        match outcome {
            Ok(reply) => Ok(record(calls, results, ToolCallResponse::Message(reply))),
            Err(text) => Err(DispatchError::Forwarding(text)),
        }
    }
}

} // verus!
