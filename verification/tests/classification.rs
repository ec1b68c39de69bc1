use std::fmt::{self, Display, Formatter};

use sparkle_convenience::error::http_error::{code_table, KnownCondition};
use sparkle_convenience::error::{settle_report, BotError, NoCustomError, UserError};
use sparkle_convenience::permissions::PermissionSet;

#[derive(Debug, Clone, Copy, PartialEq, Eq)]
enum CustomError {
    TooSlay,
}

impl Display for CustomError {
    fn fmt(&self, f: &mut Formatter<'_>) -> fmt::Result {
        f.write_str("slayed too hard")
    }
}

/// An error of the bot's own that was classified before it was wrapped
#[derive(Debug)]
struct Classified(UserError<CustomError>);

impl Display for Classified {
    fn fmt(&self, f: &mut Formatter<'_>) -> fmt::Result {
        f.write_str("classified before")
    }
}

fn from_anyhow(err: &anyhow::Error) -> UserError<CustomError> {
    let user = err.downcast_ref::<Classified>().map(|classified| classified.0);
    let custom = err.downcast_ref::<CustomError>().copied();
    UserError::from_anyhow_err(err, user, custom)
}

const SEND_MESSAGES: u64 = 1 << 11;

#[test]
fn user_err_downcast() {
    let missing_perms_from_anyhow = from_anyhow(&anyhow::Error::msg(Classified(
        UserError::MissingPermissions::<CustomError>(None),
    )));
    assert!(matches!(
        missing_perms_from_anyhow,
        UserError::MissingPermissions(None)
    ));

    let custom_from_anyhow =
        from_anyhow(&anyhow::Error::msg(Classified(UserError::Custom(CustomError::TooSlay))));
    assert!(matches!(
        custom_from_anyhow,
        UserError::Custom(CustomError::TooSlay)
    ));

    let internal_from_anyhow = from_anyhow(&anyhow::Error::msg("feature occurred"));
    assert!(matches!(
        internal_from_anyhow,
        UserError::<CustomError>::Internal
    ));
}

#[test]
fn custom_error_in_anyhow_is_custom() {
    let err = anyhow::Error::msg(CustomError::TooSlay);
    assert_eq!(from_anyhow(&err), UserError::Custom(CustomError::TooSlay));
}

#[test]
fn code_table_has_the_five_codes() {
    assert_eq!(code_table(10008), Some(KnownCondition::UnknownMessage));
    assert_eq!(code_table(50001), Some(KnownCondition::MissingAccess));
    assert_eq!(code_table(50007), Some(KnownCondition::FailedDm));
    assert_eq!(code_table(50013), Some(KnownCondition::MissingPermissions));
    assert_eq!(code_table(90001), Some(KnownCondition::ReactionBlocked));
    assert_eq!(code_table(0), None);
    assert_eq!(code_table(40001), None);
    assert_eq!(code_table(50012), None);
    assert_eq!(code_table(u64::MAX), None);
}

#[test]
fn conditions_know_their_codes() {
    for condition in [
        KnownCondition::FailedDm,
        KnownCondition::MissingAccess,
        KnownCondition::MissingPermissions,
        KnownCondition::ReactionBlocked,
        KnownCondition::UnknownMessage,
    ] {
        assert_eq!(code_table(condition.code()), Some(condition));
    }
    assert_eq!(KnownCondition::MissingPermissions.code(), 50013);
    assert_eq!(KnownCondition::UnknownMessage.code(), 10008);
}

#[test]
fn codes_classify_as_the_table_says() {
    type E = UserError<NoCustomError>;
    assert!(matches!(E::from_code(Some(10008)), UserError::Ignore));
    assert!(matches!(E::from_code(Some(50001)), UserError::MissingPermissions(None)));
    assert!(matches!(E::from_code(Some(50007)), UserError::Ignore));
    assert!(matches!(E::from_code(Some(50013)), UserError::MissingPermissions(None)));
    assert!(matches!(E::from_code(Some(90001)), UserError::Ignore));
    assert!(matches!(E::from_code(Some(0)), UserError::Internal));
    assert!(matches!(E::from_code(Some(40001)), UserError::Internal));
    assert!(matches!(E::from_code(None), UserError::Internal));
}

#[test]
fn conditions_classify() {
    type E = UserError<NoCustomError>;
    assert!(matches!(E::from_condition(Some(KnownCondition::FailedDm)), UserError::Ignore));
    assert!(matches!(
        E::from_condition(Some(KnownCondition::MissingAccess)),
        UserError::MissingPermissions(None)
    ));
    assert!(matches!(E::from_condition(None), UserError::Internal));
}

#[test]
fn classification_is_kept_when_classified_again() {
    let inputs: [(Option<UserError<CustomError>>, Option<Option<u64>>, Option<CustomError>); 6] = [
        (None, None, None),
        (None, Some(Some(50013)), None),
        (None, Some(Some(10008)), Some(CustomError::TooSlay)),
        (None, Some(None), Some(CustomError::TooSlay)),
        (Some(UserError::Ignore), Some(Some(50013)), Some(CustomError::TooSlay)),
        (Some(UserError::MissingPermissions(None)), None, None),
    ];
    for (user, http, custom) in inputs {
        let first = UserError::classify(user, http, custom);
        let again = UserError::classify(Some(first), Some(Some(50001)), Some(CustomError::TooSlay));
        assert_eq!(again, first);
        let again = UserError::classify(Some(first), None, None);
        assert_eq!(again, first);
    }
}

#[test]
fn classification_priorities() {
    // what was classified before wins over everything
    assert_eq!(
        UserError::classify(
            Some(UserError::Internal),
            Some(Some(50013)),
            Some(CustomError::TooSlay)
        ),
        UserError::Internal
    );
    // a known code wins over a custom error
    assert_eq!(
        UserError::classify(None, Some(Some(50013)), Some(CustomError::TooSlay)),
        UserError::MissingPermissions(None)
    );
    assert_eq!(
        UserError::classify(None, Some(Some(90001)), Some(CustomError::TooSlay)),
        UserError::Ignore
    );
    // an unknown code, or none, leaves it to the custom error
    assert_eq!(
        UserError::classify(None, Some(Some(40001)), Some(CustomError::TooSlay)),
        UserError::Custom(CustomError::TooSlay)
    );
    assert_eq!(
        UserError::classify(None, Some(None), Some(CustomError::TooSlay)),
        UserError::Custom(CustomError::TooSlay)
    );
    assert_eq!(
        UserError::classify(None, None, Some(CustomError::TooSlay)),
        UserError::Custom(CustomError::TooSlay)
    );
    // and whatever is left is internal
    assert_eq!(UserError::<CustomError>::classify(None, Some(Some(40001)), None), UserError::Internal);
    assert_eq!(UserError::<CustomError>::classify(None, Some(None), None), UserError::Internal);
    assert_eq!(UserError::<CustomError>::classify(None, None, None), UserError::Internal);
}

#[test]
fn with_permissions_only_touches_missing_permissions() {
    let permissions = PermissionSet::from_bits(SEND_MESSAGES);
    assert_eq!(
        UserError::<CustomError>::Ignore.with_permissions(permissions),
        UserError::Ignore
    );
    assert_eq!(
        UserError::<CustomError>::Internal.with_permissions(permissions),
        UserError::Internal
    );
    assert_eq!(
        UserError::Custom(CustomError::TooSlay).with_permissions(permissions),
        UserError::Custom(CustomError::TooSlay)
    );
    assert_eq!(
        UserError::<CustomError>::MissingPermissions(None).with_permissions(permissions),
        UserError::MissingPermissions(Some(permissions))
    );
    let other = PermissionSet::from_bits(1 << 3);
    assert_eq!(
        UserError::<CustomError>::MissingPermissions(Some(other)).with_permissions(permissions),
        UserError::MissingPermissions(Some(permissions))
    );
}

#[test]
fn missing_permissions_code_then_permissions_attached() {
    let classified = UserError::<NoCustomError>::from_code(Some(50013));
    assert!(matches!(classified, UserError::MissingPermissions(None)));
    let decorated = classified.with_permissions(PermissionSet::from_bits(SEND_MESSAGES));
    match decorated {
        UserError::MissingPermissions(Some(permissions)) => {
            assert_eq!(permissions.bits(), SEND_MESSAGES);
        }
        other => panic!("not a permission error: {other:?}"),
    }
}

#[test]
fn ignore_and_internal_are_told_apart() {
    assert!(UserError::<NoCustomError>::Ignore.is_ignore());
    assert!(!UserError::<NoCustomError>::Internal.is_ignore());
    assert!(!UserError::<NoCustomError>::MissingPermissions(None).is_ignore());
    assert!(UserError::<NoCustomError>::Internal.is_internal());
    assert!(!UserError::<NoCustomError>::Ignore.is_internal());
    assert!(!UserError::Custom(CustomError::TooSlay).is_internal());
}

#[test]
fn errors_of_the_library_say_what_they_are() {
    assert_eq!(
        BotError::AlreadyResponded.message(),
        "initial response for that interaction has already been sent"
    );
    assert_eq!(
        BotError::LoggingWebhookMissing.message(),
        "`Bot::log` was called without calling `Bot::set_logging_channel` first"
    );
    assert_eq!(
        NoCustomError.message(),
        "display implementation of `NoCustomError` shouldn't be used"
    );
    assert_eq!(
        UserError::<NoCustomError>::Ignore.message(),
        "display implementation of `UserError` shouldn't be used"
    );
}

#[test]
fn report_that_was_sent_is_handed_on() {
    assert!(matches!(settle_report(Ok(5)), Ok(Some(5))));
}

#[test]
fn report_that_failed_otherwise_is_an_error() {
    assert!(matches!(
        settle_report::<u64>(Err(BotError::AlreadyResponded)),
        Err(BotError::AlreadyResponded)
    ));
    assert!(!BotError::AlreadyResponded.is_known_condition());
    assert!(!BotError::LoggingWebhookMissing.is_known_condition());
}

#[test]
fn invalid_message_is_wrapped() {
    let err = twilight_validate::message::content("a".repeat(2001)).unwrap_err();
    let shown = err.to_string();
    let wrapped = BotError::from(err);
    assert!(matches!(wrapped, BotError::MessageValidation(_)));
    assert_eq!(wrapped.message(), shown);
    assert!(!wrapped.is_known_condition());
    assert!(matches!(
        settle_report::<u64>(Err(wrapped)),
        Err(BotError::MessageValidation(_))
    ));
}

#[test]
fn invalid_request_is_wrapped() {
    let err = twilight_validate::request::audit_reason("a".repeat(513)).unwrap_err();
    let shown = err.to_string();
    let wrapped = BotError::from(err);
    assert!(matches!(wrapped, BotError::RequestValidation(_)));
    assert_eq!(wrapped.message(), shown);
    assert!(!wrapped.is_known_condition());
}
