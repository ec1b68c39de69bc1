use sparkle_convenience::error::BotError;
use sparkle_convenience::reply::Reply;
use sparkle_convenience::interaction::{
    modal_components, DeferBehavior, DeferVisibility, InteractionHandle, InteractionKind, Request,
    ResponseKind,
};
use twilight_model::channel::message::component::{ActionRow, TextInput, TextInputStyle};
use twilight_model::channel::message::Component;

fn handle(kind: InteractionKind) -> InteractionHandle {
    InteractionHandle::new(7, String::from("token"), kind, None)
}

#[test]
fn new_handle_has_sent_nothing() {
    let handle = handle(InteractionKind::Command);
    assert_eq!(handle.id(), 7);
    assert_eq!(handle.token(), "token");
    assert_eq!(handle.kind(), InteractionKind::Command);
    assert_eq!(handle.app_permissions(), None);
    assert!(!handle.responded());
    assert_eq!(handle.last_message_id(), None);
}

#[test]
fn initial_reply_then_followup() {
    let mut handle = handle(InteractionKind::Command);

    let first = handle.reply(&Reply::new());
    assert_eq!(
        first,
        Request::CreateResponse { kind: ResponseKind::ChannelMessageWithSource, ephemeral: false }
    );
    let returned = handle.record(first, Ok(None));
    assert!(matches!(returned, Ok(None)));
    assert!(handle.responded());
    assert_eq!(handle.last_message_id(), None);

    let second = handle.reply(&Reply::new());
    assert_eq!(second, Request::CreateFollowup);
    let returned = handle.record(second, Ok(Some(4242)));
    assert!(matches!(returned, Ok(Some(4242))));
    assert!(handle.responded());
    assert_eq!(handle.last_message_id(), Some(4242));
}

#[test]
fn update_last_without_prior_followup() {
    let mut handle = handle(InteractionKind::Command);
    let first = handle.reply(&Reply::new());
    assert!(matches!(handle.record(first, Ok(None)), Ok(None)));
    assert!(handle.responded());
    assert_eq!(handle.last_message_id(), None);

    let update = handle.reply(&Reply::new().update_last());
    assert_eq!(update, Request::UpdateResponse);
    let returned = handle.record(update, Ok(Some(99)));
    assert!(matches!(returned, Ok(Some(99))));
    assert_eq!(handle.last_message_id(), Some(99));
}

#[test]
fn update_last_with_prior_followup() {
    let mut handle = handle(InteractionKind::Command);
    let first = handle.reply(&Reply::new());
    assert!(matches!(handle.record(first, Ok(None)), Ok(None)));
    let followup = handle.reply(&Reply::new());
    assert!(matches!(handle.record(followup, Ok(Some(5))), Ok(Some(5))));

    let update = handle.reply(&Reply::new().update_last());
    assert_eq!(update, Request::UpdateFollowup { message_id: 5 });
    let returned = handle.record(update, Ok(Some(5)));
    assert!(matches!(returned, Ok(None)));
    assert_eq!(handle.last_message_id(), Some(5));
}

#[test]
fn double_autocomplete() {
    let mut handle = handle(InteractionKind::Autocomplete);
    let request = handle.autocomplete();
    let request = match request {
        Ok(request) => request,
        Err(err) => panic!("first autocomplete was refused: {err:?}"),
    };
    assert_eq!(
        request,
        Request::CreateResponse {
            kind: ResponseKind::ApplicationCommandAutocompleteResult,
            ephemeral: false,
        }
    );
    assert!(matches!(handle.record(request, Ok(None)), Ok(None)));
    assert!(handle.responded());

    assert!(matches!(handle.autocomplete(), Err(BotError::AlreadyResponded)));
}

#[test]
fn modal_only_as_initial_response() {
    let mut handle = handle(InteractionKind::Command);
    let request = handle.modal();
    assert!(matches!(
        request,
        Ok(Request::CreateResponse { kind: ResponseKind::Modal, ephemeral: false })
    ));
    assert!(matches!(handle.record(request.unwrap(), Ok(None)), Ok(None)));
    assert!(matches!(handle.modal(), Err(BotError::AlreadyResponded)));
    assert!(matches!(handle.defer(DeferVisibility::Visible), Err(BotError::AlreadyResponded)));
    assert!(matches!(
        handle.defer_component(DeferVisibility::Ephemeral, DeferBehavior::Update),
        Err(BotError::AlreadyResponded)
    ));
}

#[test]
fn defer_honors_behavior_on_components_only() {
    let component = handle(InteractionKind::Component);
    assert!(matches!(
        component.defer_component(DeferVisibility::Ephemeral, DeferBehavior::Update),
        Ok(Request::CreateResponse { kind: ResponseKind::DeferredUpdateMessage, ephemeral: true })
    ));
    assert!(matches!(
        component.defer_component(DeferVisibility::Visible, DeferBehavior::Followup),
        Ok(Request::CreateResponse {
            kind: ResponseKind::DeferredChannelMessageWithSource,
            ephemeral: false,
        })
    ));
    assert!(matches!(
        component.defer(DeferVisibility::Visible),
        Ok(Request::CreateResponse {
            kind: ResponseKind::DeferredChannelMessageWithSource,
            ephemeral: false,
        })
    ));

    let command = handle(InteractionKind::Command);
    assert!(matches!(
        command.defer_component(DeferVisibility::Ephemeral, DeferBehavior::Update),
        Ok(Request::CreateResponse {
            kind: ResponseKind::DeferredChannelMessageWithSource,
            ephemeral: true,
        })
    ));
    let modal = handle(InteractionKind::ModalSubmit);
    assert!(matches!(
        modal.defer_component(DeferVisibility::Visible, DeferBehavior::Update),
        Ok(Request::CreateResponse {
            kind: ResponseKind::DeferredChannelMessageWithSource,
            ephemeral: false,
        })
    ));
}

#[test]
fn initial_reply_updates_message_on_components_only() {
    let component = handle(InteractionKind::Component);
    assert_eq!(
        component.reply(&Reply::new().update_last()),
        Request::CreateResponse { kind: ResponseKind::UpdateMessage, ephemeral: false }
    );
    assert_eq!(
        component.reply(&Reply::new()),
        Request::CreateResponse { kind: ResponseKind::ChannelMessageWithSource, ephemeral: false }
    );
    let command = handle(InteractionKind::Command);
    assert_eq!(
        command.reply(&Reply::new().update_last()),
        Request::CreateResponse { kind: ResponseKind::ChannelMessageWithSource, ephemeral: false }
    );
}

#[test]
fn ephemeral_reply_asks_for_an_ephemeral_response() {
    let handle = handle(InteractionKind::Command);
    assert_eq!(
        handle.reply(&Reply::new().ephemeral()),
        Request::CreateResponse { kind: ResponseKind::ChannelMessageWithSource, ephemeral: true }
    );
}

#[test]
fn failed_request_changes_nothing() {
    let mut handle = handle(InteractionKind::Command);
    let first = handle.reply(&Reply::new());
    let returned = handle.record(first, Err(BotError::LoggingWebhookMissing));
    assert!(matches!(returned, Err(BotError::LoggingWebhookMissing)));
    assert!(!handle.responded());
    assert_eq!(handle.last_message_id(), None);

    let deferred = handle.defer(DeferVisibility::Visible).unwrap();
    assert!(matches!(handle.record(deferred, Ok(None)), Ok(None)));
    assert!(handle.responded());

    let followup = handle.reply(&Reply::new());
    assert_eq!(followup, Request::CreateFollowup);
    let returned = handle.record(followup, Err(BotError::LoggingWebhookMissing));
    assert!(matches!(returned, Err(BotError::LoggingWebhookMissing)));
    assert!(handle.responded());
    assert_eq!(handle.last_message_id(), None);
}

#[test]
fn after_any_success_only_followups() {
    let mut handle = handle(InteractionKind::Component);
    let deferred = handle
        .defer_component(DeferVisibility::Ephemeral, DeferBehavior::Update)
        .unwrap();
    assert!(matches!(handle.record(deferred, Ok(None)), Ok(None)));

    for update_last in [false, true, false, true] {
        assert!(matches!(handle.autocomplete(), Err(BotError::AlreadyResponded)));
        assert!(matches!(handle.modal(), Err(BotError::AlreadyResponded)));
        let reply = if update_last { Reply::new().update_last() } else { Reply::new() };
        let request = handle.reply(&reply);
        assert!(!matches!(request, Request::CreateResponse { .. }));
        let returned = handle.record(request, Ok(Some(11)));
        assert!(returned.is_ok());
        assert!(handle.responded());
    }
}

#[test]
fn response_kinds_have_their_wire_values() {
    assert_eq!(ResponseKind::ChannelMessageWithSource.wire_value(), 4);
    assert_eq!(ResponseKind::DeferredChannelMessageWithSource.wire_value(), 5);
    assert_eq!(ResponseKind::DeferredUpdateMessage.wire_value(), 6);
    assert_eq!(ResponseKind::UpdateMessage.wire_value(), 7);
    assert_eq!(ResponseKind::ApplicationCommandAutocompleteResult.wire_value(), 8);
    assert_eq!(ResponseKind::Modal.wire_value(), 9);
}

fn text_input(custom_id: &str) -> TextInput {
    TextInput {
        custom_id: custom_id.to_owned(),
        label: custom_id.to_uppercase(),
        max_length: None,
        min_length: None,
        placeholder: None,
        required: Some(true),
        style: TextInputStyle::Short,
        value: None,
    }
}

#[test]
fn modal_has_a_row_for_each_text_input() {
    assert_eq!(modal_components(vec![]), vec![]);
    let components = modal_components(vec![text_input("name"), text_input("reason")]);
    assert_eq!(
        components,
        vec![
            Component::ActionRow(ActionRow {
                components: vec![Component::TextInput(text_input("name"))],
            }),
            Component::ActionRow(ActionRow {
                components: vec![Component::TextInput(text_input("reason"))],
            }),
        ]
    );
}

#[test]
fn at_most_one_initial_response() {
    // each step: what is asked for (0 defer, 1 reply, 2 reply that updates, 3 autocomplete,
    // 4 modal) and whether its request succeeds
    let runs: [&[(u8, bool)]; 4] = [
        &[(1, false), (0, false), (3, true), (1, true), (2, true), (4, true), (0, true)],
        &[(0, true), (0, true), (1, true), (2, true), (2, false), (1, true)],
        &[(4, false), (3, false), (2, false)],
        &[(2, true), (2, true), (1, true), (2, true), (3, true)],
    ];
    for steps in runs {
        let mut handle = handle(InteractionKind::Component);
        let mut initial_responses = 0;
        let mut next_message = 100;
        for &(asked, succeeds) in steps {
            let planned = match asked {
                0 => handle.defer_component(DeferVisibility::Visible, DeferBehavior::Update),
                1 => Ok(handle.reply(&Reply::new())),
                2 => Ok(handle.reply(&Reply::new().update_last())),
                3 => handle.autocomplete(),
                _ => handle.modal(),
            };
            let request = match planned {
                Ok(request) => request,
                Err(err) => {
                    assert!(matches!(err, BotError::AlreadyResponded));
                    assert!(handle.responded());
                    continue;
                }
            };
            let initial = matches!(request, Request::CreateResponse { .. });
            assert_eq!(initial, !handle.responded());
            let outcome = if !succeeds {
                Err(BotError::LoggingWebhookMissing)
            } else if initial {
                Ok(None)
            } else {
                next_message += 1;
                Ok(Some(next_message))
            };
            let recorded = handle.record(request, outcome);
            assert_eq!(recorded.is_ok(), succeeds);
            if initial && succeeds {
                initial_responses += 1;
            }
            assert!(handle.last_message_id().is_none() || handle.responded());
        }
        assert_eq!(initial_responses, u32::from(handle.responded()));
    }
}
