//! The data that crosses the library's boundary: reminders and the results
//! of tool calls.

use vstd::prelude::*;
use vstd::pervasive::unreached;
use crate::due::{instant_pair, parse_rfc3339, rfc3339_instant, UtcDateTime};
use crate::ident::{is_identifier, random_identifier};

verus! {

/// A persisted reminder.
#[derive(Debug)]
pub struct Reminder {
    pub id: String,
    pub message: String,
    pub remind_at: String,
}

/// What a reminder holds, as mathematical text.
pub struct ReminderView {
    pub id: Seq<char>,
    pub message: Seq<char>,
    pub remind_at: Seq<char>,
}

impl View for Reminder {
    type V = ReminderView;

    open spec fn view(&self) -> ReminderView {
        ReminderView { id: self.id@, message: self.message@, remind_at: self.remind_at@ }
    }
}

impl DeepView for Reminder {
    type V = ReminderView;

    open spec fn deep_view(&self) -> ReminderView {
        self@
    }
}

impl Clone for Reminder {
    fn clone(&self) -> (copy: Self)
        ensures
            copy@ == self@,
    {
        Reminder {
            id: self.id.clone(),
            message: self.message.clone(),
            remind_at: self.remind_at.clone(),
        }
    }
}

impl Reminder {
    /// A new reminder with a freshly drawn identifier. The message and the
    /// due time are taken as they are; neither is validated.
    pub fn new(message: String, remind_at: String) -> (reminder: Self)
        ensures
            is_identifier(reminder.id@),
            reminder.message@ == message@,
            reminder.remind_at@ == remind_at@,
    {
        Reminder { id: random_identifier(), message, remind_at }
    }

    /// The instant at which the reminder is due, for a due time that is
    /// RFC 3339 text. `checked_datetime` takes any due time.
    pub fn into_datetime(&self) -> (due: UtcDateTime)
        requires
            rfc3339_instant(self.remind_at@) is Some,
        ensures
            Some((due.seconds, due.nanoseconds)) == rfc3339_instant(self.remind_at@),
    {
        match parse_rfc3339(self.remind_at.as_str()) {
            Some(due) => due,
            None => unreached(),
        }
    }

    /// The instant at which the reminder is due, or `None` where the due
    /// time is not RFC 3339 text.
    pub fn checked_datetime(&self) -> (due: Option<UtcDateTime>)
        ensures
            instant_pair(due) == rfc3339_instant(self.remind_at@),
    {
        match parse_rfc3339(self.remind_at.as_str()) {
            Some(_) => Some(self.into_datetime()),
            None => None,
        }
    }
}

/// The arguments of a call that creates a reminder.
#[derive(Debug)]
pub struct CreateReminder {
    pub message: String,
    pub remind_at: String,
}

/// What a creation payload holds, as mathematical text.
pub struct CreateReminderView {
    pub message: Seq<char>,
    pub remind_at: Seq<char>,
}

impl View for CreateReminder {
    type V = CreateReminderView;

    open spec fn view(&self) -> CreateReminderView {
        CreateReminderView { message: self.message@, remind_at: self.remind_at@ }
    }
}

impl Clone for CreateReminder {
    fn clone(&self) -> (copy: Self)
        ensures
            copy@ == self@,
    {
        CreateReminder { message: self.message.clone(), remind_at: self.remind_at.clone() }
    }
}

/// The answer to one call: one reminder, a list of reminders, or plain text.
/// Consumers tell the three apart by shape.
#[derive(Debug)]
pub enum ToolCallResponse {
    Single(Reminder),
    Multiple(Vec<Reminder>),
    Message(String),
}

/// An answer as a mathematical value.
pub enum ToolCallResponseView {
    Single(ReminderView),
    Multiple(Seq<ReminderView>),
    Message(Seq<char>),
}

impl View for ToolCallResponse {
    type V = ToolCallResponseView;

    open spec fn view(&self) -> ToolCallResponseView {
        match self {
            ToolCallResponse::Single(reminder) => ToolCallResponseView::Single(reminder@),
            ToolCallResponse::Multiple(reminders) => ToolCallResponseView::Multiple(
                reminders.deep_view(),
            ),
            ToolCallResponse::Message(text) => ToolCallResponseView::Message(text@),
        }
    }
}

/// One answer together with the identifier of the call that it answers.
#[allow(non_snake_case)]
#[derive(Debug)]
pub struct ToolCallResult {
    pub toolCallId: String,
    pub result: ToolCallResponse,
}

/// A correlated answer as a mathematical value.
#[allow(non_snake_case)]
pub struct ToolCallResultView {
    pub toolCallId: Seq<char>,
    pub result: ToolCallResponseView,
}

impl View for ToolCallResult {
    type V = ToolCallResultView;

    open spec fn view(&self) -> ToolCallResultView {
        ToolCallResultView { toolCallId: self.toolCallId@, result: self.result@ }
    }
}

impl DeepView for ToolCallResult {
    type V = ToolCallResultView;

    open spec fn deep_view(&self) -> ToolCallResultView {
        self@
    }
}

/// The envelope of a batch's answers, in the order of its calls.
#[derive(Debug)]
pub struct ResponseWrapper {
    pub results: Vec<ToolCallResult>,
}

impl View for ResponseWrapper {
    type V = Seq<ToolCallResultView>;

    open spec fn view(&self) -> Seq<ToolCallResultView> {
        self.results.deep_view()
    }
}

/// Copies a list of reminders, record by record.
pub fn clone_reminders(reminders: &Vec<Reminder>) -> (copy: Vec<Reminder>)
    ensures
        copy.deep_view() == reminders.deep_view(),
{
    let mut copy: Vec<Reminder> = Vec::new();
    let mut i: usize = 0;
    while i < reminders.len()
        invariant
            i <= reminders.len(),
            copy.len() == i,
            forall|k: int| 0 <= k < i ==> copy[k]@ == reminders[k]@,
        decreases reminders.len() - i,
    {
        copy.push(reminders[i].clone());
        i += 1;
    }
    assert(copy.deep_view() =~= reminders.deep_view());
    copy
}

} // verus!
