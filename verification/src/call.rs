//! Tool calls: their names, the shapes of their arguments, and the routing
//! table that pairs the two.

use vstd::prelude::*;
use crate::models::{CreateReminder, CreateReminderView};

verus! {

/// The argument payload of a call as it arrived, before its shape is known.
#[derive(Debug)]
pub enum RawArguments {
    /// An object. A member is `Some` when the object holds it and its value
    /// is a string.
    Object { message: Option<String>, remind_at: Option<String> },
    /// Anything that is not an object: a string, a number, a list, nothing.
    Other,
}

/// A raw argument payload as a mathematical value.
pub enum RawArgumentsView {
    Object { message: Option<Seq<char>>, remind_at: Option<Seq<char>> },
    Other,
}

/// An optional text as a mathematical value.
pub open spec fn text_view(text: Option<String>) -> Option<Seq<char>> {
    match text {
        Some(s) => Some(s@),
        None => None,
    }
}

impl View for RawArguments {
    type V = RawArgumentsView;

    open spec fn view(&self) -> RawArgumentsView {
        match self {
            RawArguments::Object { message, remind_at } => RawArgumentsView::Object {
                message: text_view(*message),
                remind_at: text_view(*remind_at),
            },
            RawArguments::Other => RawArgumentsView::Other,
        }
    }
}

/// The arguments of a call that forwards a question.
#[derive(Debug)]
pub struct PerplexityMessageArgs {
    pub message: String,
}

/// The arguments of a call that takes none.
#[derive(Debug)]
pub struct EmptyArgs {}

/// The arguments of a call, tagged with the shape that was inferred for
/// them.
#[derive(Debug)]
pub enum FunctionArgs {
    Create(CreateReminder),
    Message(PerplexityMessageArgs),
    Empty(EmptyArgs),
    /// No shape fits. A call with such arguments is unrecognized under
    /// every name.
    Unmatched,
}

/// Tagged arguments as a mathematical value.
pub enum FunctionArgsView {
    Create(CreateReminderView),
    Message(Seq<char>),
    Empty,
    Unmatched,
}

impl View for FunctionArgs {
    type V = FunctionArgsView;

    open spec fn view(&self) -> FunctionArgsView {
        match self {
            FunctionArgs::Create(args) => FunctionArgsView::Create(args@),
            FunctionArgs::Message(args) => FunctionArgsView::Message(args.message@),
            FunctionArgs::Empty(_) => FunctionArgsView::Empty,
            FunctionArgs::Unmatched => FunctionArgsView::Unmatched,
        }
    }
}

/// The shape of a raw argument payload. For an object the shapes are tried
/// in a fixed order and the first whose required members are all there
/// wins: creation (`message` and `remind_at`), then forwarding (`message`),
/// then empty (nothing required). Creation comes first because every
/// creation payload would pass for a forwarding payload too. A payload that
/// is not an object has no shape.
pub open spec fn infer_shape(raw: RawArgumentsView) -> FunctionArgsView {
    match raw {
        RawArgumentsView::Object { message: Some(message), remind_at: Some(remind_at) } => {
            FunctionArgsView::Create(CreateReminderView { message, remind_at })
        },
        RawArgumentsView::Object { message: Some(message), remind_at: None } => {
            FunctionArgsView::Message(message)
        },
        RawArgumentsView::Object { message: None, remind_at: _ } => FunctionArgsView::Empty,
        RawArgumentsView::Other => FunctionArgsView::Unmatched,
    }
}

impl FunctionArgs {
    /// Tags a raw argument object with its shape.
    pub fn infer(raw: RawArguments) -> (args: Self)
        ensures
            args@ == infer_shape(raw@),
    {
        match raw {
            RawArguments::Object { message, remind_at } => match message {
                Some(message) => match remind_at {
                    Some(remind_at) => FunctionArgs::Create(CreateReminder { message, remind_at }),
                    None => FunctionArgs::Message(PerplexityMessageArgs { message }),
                },
                None => FunctionArgs::Empty(EmptyArgs {  }),
            },
            RawArguments::Other => FunctionArgs::Unmatched,
        }
    }
}

/// The function that a call names, with its arguments.
#[derive(Debug)]
pub struct FunctionCall {
    pub name: String,
    pub arguments: FunctionArgs,
}

/// A named function with its arguments, as a mathematical value.
pub struct FunctionCallView {
    pub name: Seq<char>,
    pub arguments: FunctionArgsView,
}

impl View for FunctionCall {
    type V = FunctionCallView;

    open spec fn view(&self) -> FunctionCallView {
        FunctionCallView { name: self.name@, arguments: self.arguments@ }
    }
}

/// One call of a batch. The identifier is the caller's and is handed back
/// with the answer, untouched.
#[derive(Debug)]
pub struct ToolCall {
    pub id: String,
    pub function: FunctionCall,
}

/// A call as a mathematical value.
pub struct ToolCallView {
    pub id: Seq<char>,
    pub function: FunctionCallView,
}

impl View for ToolCall {
    type V = ToolCallView;

    open spec fn view(&self) -> ToolCallView {
        ToolCallView { id: self.id@, function: self.function@ }
    }
}

impl DeepView for ToolCall {
    type V = ToolCallView;

    open spec fn deep_view(&self) -> ToolCallView {
        self@
    }
}

/// A row of the routing table.
#[derive(Clone, Copy, Debug, PartialEq, Eq, Structural)]
pub enum Handler {
    /// List every stored reminder.
    ListReminders,
    /// Store one new reminder.
    StoreReminder,
    /// Delete every stored reminder.
    DeleteAllReminders,
    /// Forward a question to the answering service.
    AskPerplexity,
    /// No row fits: the call is answered with a fixed message.
    Unrecognized,
}

/// The name that lists the reminders.
pub open spec fn list_name() -> Seq<char> {
    "GetUserReminders"@
}

/// The name that stores a reminder.
pub open spec fn store_name() -> Seq<char> {
    "StoreUserReminder"@
}

/// The name that deletes the reminders.
pub open spec fn delete_name() -> Seq<char> {
    "DeleteAllReminders"@
}

/// The name that forwards a question.
pub open spec fn ask_name() -> Seq<char> {
    "AskPerplexity"@
}

/// The routing table. A row is chosen by the name and the shape together:
/// a known name with arguments of another shape is as unrecognized as an
/// unknown name.
pub open spec fn handler_for(function: FunctionCallView) -> Handler {
    if function.name == list_name() && function.arguments is Empty {
        Handler::ListReminders
    } else if function.name == store_name() && function.arguments is Create {
        Handler::StoreReminder
    } else if function.name == delete_name() && function.arguments is Empty {
        Handler::DeleteAllReminders
    } else if function.name == ask_name() && function.arguments is Message {
        Handler::AskPerplexity
    } else {
        Handler::Unrecognized
    }
}

/// A payload that is not an object is unrecognized, whatever the name
/// under which it comes.
pub proof fn lemma_shapeless_payload_is_unrecognized(name: Seq<char>)
    ensures
        handler_for(FunctionCallView { name, arguments: infer_shape(RawArgumentsView::Other) })
            == Handler::Unrecognized,
{
}

/// Whether a name is the given literal.
fn is_named(name: &String, literal: &str) -> (same: bool)
    ensures
        same == (name@ == literal@),
{
    let owned = literal.to_owned();
    *name == owned
}

impl FunctionCall {
    /// Looks the call up in the routing table.
    pub fn handler(&self) -> (row: Handler)
        ensures
            row == handler_for(self@),
    {
        match &self.arguments {
            FunctionArgs::Empty(_) => {
                if is_named(&self.name, "GetUserReminders") {
                    Handler::ListReminders
                } else if is_named(&self.name, "DeleteAllReminders") {
                    Handler::DeleteAllReminders
                } else {
                    Handler::Unrecognized
                }
            },
            FunctionArgs::Create(_) => {
                if is_named(&self.name, "StoreUserReminder") {
                    Handler::StoreReminder
                } else {
                    Handler::Unrecognized
                }
            },
            FunctionArgs::Message(_) => {
                if is_named(&self.name, "AskPerplexity") {
                    Handler::AskPerplexity
                } else {
                    Handler::Unrecognized
                }
            },
            FunctionArgs::Unmatched => Handler::Unrecognized,
        }
    }
}

} // verus!
