use reminder_dispatch::call::{
    EmptyArgs, FunctionArgs, FunctionCall, Handler, PerplexityMessageArgs, RawArguments,
};
use reminder_dispatch::models::CreateReminder;

fn raw_arguments(message: Option<&str>, remind_at: Option<&str>) -> RawArguments {
    RawArguments::Object {
        message: message.map(|s| s.to_string()),
        remind_at: remind_at.map(|s| s.to_string()),
    }
}

fn empty_arguments() -> FunctionArgs {
    FunctionArgs::Empty(EmptyArgs {})
}

fn creation_arguments() -> FunctionArgs {
    FunctionArgs::Create(CreateReminder {
        message: "buy milk".to_string(),
        remind_at: "2025-01-01T09:00:00Z".to_string(),
    })
}

fn forwarding_arguments() -> FunctionArgs {
    FunctionArgs::Message(PerplexityMessageArgs { message: "why is the sky blue".to_string() })
}

fn row_of(name: &str, arguments: FunctionArgs) -> Handler {
    FunctionCall { name: name.to_string(), arguments }.handler()
}

#[test]
fn both_members_make_the_creation_shape() {
    match FunctionArgs::infer(raw_arguments(Some("buy milk"), Some("2025-01-01T09:00:00Z"))) {
        FunctionArgs::Create(args) => {
            assert_eq!(args.message, "buy milk");
            assert_eq!(args.remind_at, "2025-01-01T09:00:00Z");
        }
        other => panic!("creation shape expected, got {:?}", other),
    }
}

#[test]
fn message_alone_makes_the_forwarding_shape() {
    match FunctionArgs::infer(raw_arguments(Some("why"), None)) {
        FunctionArgs::Message(args) => assert_eq!(args.message, "why"),
        other => panic!("forwarding shape expected, got {:?}", other),
    }
}

#[test]
fn no_member_makes_the_empty_shape() {
    assert!(matches!(FunctionArgs::infer(raw_arguments(None, None)), FunctionArgs::Empty(_)));
}

#[test]
fn due_time_alone_makes_the_empty_shape() {
    assert!(matches!(
        FunctionArgs::infer(raw_arguments(None, Some("2025-01-01T09:00:00Z"))),
        FunctionArgs::Empty(_)
    ));
}

#[test]
fn empty_texts_count_as_present() {
    assert!(matches!(
        FunctionArgs::infer(raw_arguments(Some(""), Some(""))),
        FunctionArgs::Create(_)
    ));
    assert!(matches!(FunctionArgs::infer(raw_arguments(Some(""), None)), FunctionArgs::Message(_)));
}

#[test]
fn a_payload_that_is_no_object_has_no_shape() {
    assert!(matches!(FunctionArgs::infer(RawArguments::Other), FunctionArgs::Unmatched));
}

#[test]
fn arguments_of_no_shape_are_unrecognized_under_every_name() {
    assert_eq!(row_of("GetUserReminders", FunctionArgs::Unmatched), Handler::Unrecognized);
    assert_eq!(row_of("StoreUserReminder", FunctionArgs::Unmatched), Handler::Unrecognized);
    assert_eq!(row_of("DeleteAllReminders", FunctionArgs::Unmatched), Handler::Unrecognized);
    assert_eq!(row_of("AskPerplexity", FunctionArgs::Unmatched), Handler::Unrecognized);
    assert_eq!(row_of("Frobnicate", FunctionArgs::Unmatched), Handler::Unrecognized);
}

#[test]
fn each_name_with_its_shape_has_a_row() {
    assert_eq!(row_of("GetUserReminders", empty_arguments()), Handler::ListReminders);
    assert_eq!(row_of("StoreUserReminder", creation_arguments()), Handler::StoreReminder);
    assert_eq!(row_of("DeleteAllReminders", empty_arguments()), Handler::DeleteAllReminders);
    assert_eq!(row_of("AskPerplexity", forwarding_arguments()), Handler::AskPerplexity);
}

#[test]
fn a_known_name_with_another_shape_is_unrecognized() {
    assert_eq!(row_of("GetUserReminders", creation_arguments()), Handler::Unrecognized);
    assert_eq!(row_of("GetUserReminders", forwarding_arguments()), Handler::Unrecognized);
    assert_eq!(row_of("StoreUserReminder", empty_arguments()), Handler::Unrecognized);
    assert_eq!(row_of("StoreUserReminder", forwarding_arguments()), Handler::Unrecognized);
    assert_eq!(row_of("DeleteAllReminders", creation_arguments()), Handler::Unrecognized);
    assert_eq!(row_of("DeleteAllReminders", forwarding_arguments()), Handler::Unrecognized);
    assert_eq!(row_of("AskPerplexity", empty_arguments()), Handler::Unrecognized);
    assert_eq!(row_of("AskPerplexity", creation_arguments()), Handler::Unrecognized);
}

#[test]
fn an_unknown_name_is_unrecognized_under_every_shape() {
    assert_eq!(row_of("Frobnicate", empty_arguments()), Handler::Unrecognized);
    assert_eq!(row_of("Frobnicate", creation_arguments()), Handler::Unrecognized);
    assert_eq!(row_of("Frobnicate", forwarding_arguments()), Handler::Unrecognized);
    assert_eq!(row_of("", empty_arguments()), Handler::Unrecognized);
}

#[test]
fn names_are_matched_to_the_letter() {
    assert_eq!(row_of("getuserreminders", empty_arguments()), Handler::Unrecognized);
    assert_eq!(row_of("GetUserReminders ", empty_arguments()), Handler::Unrecognized);
    assert_eq!(row_of("StoreUserReminders", creation_arguments()), Handler::Unrecognized);
}
