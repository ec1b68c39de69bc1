//! The library's error type, and the classification of errors into what
//! the user is to be told

pub mod extract;
pub mod http_error;

use vstd::prelude::*;
use vstd::string::*;

use crate::error::extract::{api_error_code, HttpErrorExt};
use crate::error::http_error::{code_table, condition_of, KnownCondition};
use crate::permissions::PermissionSet;

verus! {

/// Errors returned in this library
#[derive(Debug)]
pub enum BotError {
    /// Tried to send an initial response for an interaction multiple times
    AlreadyResponded,
    /// Deserializing a response body failed
    DeserializeBody(twilight_http::response::DeserializeBodyError),
    /// The HTTP client returned an error
    Http(twilight_http::Error),
    /// A message was to be logged before a logging channel was set
    LoggingWebhookMissing,
    /// A message was invalid
    MessageValidation(twilight_validate::message::MessageValidationError),
    /// A request was invalid
    RequestValidation(twilight_validate::request::ValidationError),
    /// Starting the recommended number of shards failed
    StartRecommended(twilight_gateway::stream::StartRecommendedError),
}

impl From<twilight_http::response::DeserializeBodyError> for BotError {
    /// Wrap the error of deserializing a response body
    fn from(err: twilight_http::response::DeserializeBodyError) -> (error: Self) {
        BotError::DeserializeBody(err)
    }
}

impl vstd::std_specs::convert::FromSpecImpl<twilight_http::response::DeserializeBodyError> for BotError {
    open spec fn obeys_from_spec() -> bool {
        true
    }

    open spec fn from_spec(err: twilight_http::response::DeserializeBodyError) -> Self {
        BotError::DeserializeBody(err)
    }
}

impl From<twilight_http::Error> for BotError {
    /// Wrap the error of the HTTP client
    fn from(err: twilight_http::Error) -> (error: Self) {
        BotError::Http(err)
    }
}

impl vstd::std_specs::convert::FromSpecImpl<twilight_http::Error> for BotError {
    open spec fn obeys_from_spec() -> bool {
        true
    }

    open spec fn from_spec(err: twilight_http::Error) -> Self {
        BotError::Http(err)
    }
}

impl From<twilight_validate::message::MessageValidationError> for BotError {
    /// Wrap the error of validating a message
    fn from(err: twilight_validate::message::MessageValidationError) -> (error: Self) {
        BotError::MessageValidation(err)
    }
}

impl vstd::std_specs::convert::FromSpecImpl<twilight_validate::message::MessageValidationError> for BotError {
    open spec fn obeys_from_spec() -> bool {
        true
    }

    open spec fn from_spec(err: twilight_validate::message::MessageValidationError) -> Self {
        BotError::MessageValidation(err)
    }
}

impl From<twilight_validate::request::ValidationError> for BotError {
    /// Wrap the error of validating a request
    fn from(err: twilight_validate::request::ValidationError) -> (error: Self) {
        BotError::RequestValidation(err)
    }
}

impl vstd::std_specs::convert::FromSpecImpl<twilight_validate::request::ValidationError> for BotError {
    open spec fn obeys_from_spec() -> bool {
        true
    }

    open spec fn from_spec(err: twilight_validate::request::ValidationError) -> Self {
        BotError::RequestValidation(err)
    }
}

impl From<twilight_gateway::stream::StartRecommendedError> for BotError {
    /// Wrap the error of starting the shards
    fn from(err: twilight_gateway::stream::StartRecommendedError) -> (error: Self) {
        BotError::StartRecommended(err)
    }
}

impl vstd::std_specs::convert::FromSpecImpl<twilight_gateway::stream::StartRecommendedError> for BotError {
    open spec fn obeys_from_spec() -> bool {
        true
    }

    open spec fn from_spec(err: twilight_gateway::stream::StartRecommendedError) -> Self {
        BotError::StartRecommended(err)
    }
}

impl BotError {
    /// Whether `text` says what this error is: a sentence of its own for
    /// the errors of this library, and for the others what the wrapped
    /// error displays
    pub open spec fn is_message(self, text: String) -> bool {
        match self {
            BotError::AlreadyResponded => text@
                == "initial response for that interaction has already been sent"@,
            BotError::DeserializeBody(err) => to_string_from_display_ensures(&err, text),
            BotError::Http(err) => to_string_from_display_ensures(&err, text),
            BotError::LoggingWebhookMissing => text@
                == "`Bot::log` was called without calling `Bot::set_logging_channel` first"@,
            BotError::MessageValidation(err) => to_string_from_display_ensures(&err, text),
            BotError::RequestValidation(err) => to_string_from_display_ensures(&err, text),
            BotError::StartRecommended(err) => to_string_from_display_ensures(&err, text),
        }
    }

    /// Say what this error is
    pub fn message(&self) -> (text: String)
        ensures
            self.is_message(text),
    {
        match self {
            BotError::AlreadyResponded => String::from_str(
                "initial response for that interaction has already been sent",
            ),
            BotError::DeserializeBody(err) => err.to_string(),
            BotError::Http(err) => err.to_string(),
            BotError::LoggingWebhookMissing => String::from_str(
                "`Bot::log` was called without calling `Bot::set_logging_channel` first",
            ),
            BotError::MessageValidation(err) => err.to_string(),
            BotError::RequestValidation(err) => err.to_string(),
            BotError::StartRecommended(err) => err.to_string(),
        }
    }

    /// Whether this is an HTTP error whose code stands for a known
    /// condition: one that the user caused or can mend, and that is
    /// therefore not worth the operator's attention
    pub open spec fn is_known_condition_spec(self) -> bool {
        match self {
            BotError::Http(http_err) => {
                let code = api_error_code(http_err);
                code is Some && condition_of(code->0) is Some
            },
            _ => false,
        }
    }

    /// Whether this is an HTTP error whose code stands for a known
    /// condition
    pub fn is_known_condition(&self) -> (known: bool)
        ensures
            known == self.is_known_condition_spec(),
    {
        match self {
            BotError::Http(http_err) => {
                let classified: UserError<NoCustomError> = UserError::from_http_err(http_err);
                !classified.is_internal()
            },
            _ => false,
        }
    }
}

/// What reporting an error to the user comes to, given how sending the
/// report went: a report that was sent is handed on, one that failed for
/// a known condition is dropped, and any other failure is the caller's
pub open spec fn report_outcome<T>(sent: Result<T, BotError>) -> Result<Option<T>, BotError> {
    match sent {
        Ok(value) => Ok(Some(value)),
        Err(err) => if err.is_known_condition_spec() {
            Ok(None)
        } else {
            Err(err)
        },
    }
}

/// Settle the attempt to report an error to the user
///
/// # Errors
///
/// If sending the report failed and the error is internal, returns the
/// error
pub fn settle_report<T>(sent: Result<T, BotError>) -> (result: Result<Option<T>, BotError>)
    ensures
        result == report_outcome(sent),
{
    match sent {
        Ok(value) => Ok(Some(value)),
        Err(err) => if err.is_known_condition() {
            Ok(None)
        } else {
            Err(err)
        },
    }
}

/// The HTTP error that a dynamically typed error holds, if it holds one
pub uninterp spec fn http_error_in(err: anyhow::Error) -> Option<twilight_http::Error>;

/// The code of the HTTP error that a dynamically typed error holds: `None`
/// where it holds no HTTP error, `Some(None)` where that error has no code
pub open spec fn http_code_in(err: anyhow::Error) -> Option<Option<u64>> {
    match http_error_in(err) {
        Some(http_err) => Some(api_error_code(http_err)),
        None => None,
    }
}

/// Calls `anyhow::Error::downcast_ref` for the HTTP client's error type. The
/// contract gives what it finds its name.
#[verifier::external_body]
fn downcast_http(err: &anyhow::Error) -> (found: Option<&twilight_http::Error>)
    ensures
        found is Some <==> http_error_in(*err) is Some,
        found is Some ==> *found->0 == http_error_in(*err)->0,
{
    err.downcast_ref::<twilight_http::Error>()
}

/// A marker type to be used with [`UserError`] without a custom error
#[derive(Debug, Clone, Copy)]
pub struct NoCustomError;

impl NoCustomError {
    /// A message for where one is asked for; it says that it shouldn't
    /// be used
    pub fn message(&self) -> (text: String)
        ensures
            text@ == "display implementation of `NoCustomError` shouldn't be used"@,
    {
        String::from_str("display implementation of `NoCustomError` shouldn't be used")
    }
}

/// A user-facing error
///
/// `C` is the type of custom user errors; [`NoCustomError`] where there is
/// none
#[derive(Clone, Copy, Debug, Eq, PartialEq)]
pub enum UserError<C> {
    /// A custom error was returned
    Custom(C),
    /// The error is safe to ignore
    ///
    /// In this case, the error shouldn't even be reported to the user
    Ignore,
    /// An error has occurred on the application's side
    Internal,
    /// The bot is missing some required permissions
    ///
    /// `None` until the permissions are known, from
    /// [`InteractionHandle::check_permissions`] or
    /// [`UserError::with_permissions`]
    ///
    /// [`InteractionHandle::check_permissions`]:
    /// crate::interaction::InteractionHandle::check_permissions
    MissingPermissions(Option<PermissionSet>),
}

impl<C> UserError<C> {
    /// What the user is to be told of a known condition, or of none
    pub open spec fn of_condition(condition: Option<KnownCondition>) -> Self {
        match condition {
            Some(KnownCondition::UnknownMessage)
            | Some(KnownCondition::FailedDm)
            | Some(KnownCondition::ReactionBlocked) => UserError::Ignore,
            Some(KnownCondition::MissingPermissions)
            | Some(KnownCondition::MissingAccess) => UserError::MissingPermissions(None),
            None => UserError::Internal,
        }
    }

    /// What the user is to be told of an HTTP error that carried `code`
    pub open spec fn of_code(code: Option<u64>) -> Self {
        match code {
            Some(code) => Self::of_condition(condition_of(code)),
            None => UserError::Internal,
        }
    }

    /// This error with its missing permissions, if it is about any,
    /// replaced by `permissions`
    pub open spec fn decorated(self, permissions: PermissionSet) -> Self {
        match self {
            UserError::MissingPermissions(_) => UserError::MissingPermissions(Some(permissions)),
            _ => self,
        }
    }

    /// The outcome of classifying an error that was found to hold a
    /// [`UserError`] (`user`), an HTTP error with the given code (`http`),
    /// a custom error (`custom`), or none of them
    ///
    /// An error that was classified before is kept as it is; then comes an
    /// HTTP error whose code is in the table, then a custom error, and
    /// whatever is left is internal.
    pub open spec fn classified(
        user: Option<Self>,
        http: Option<Option<u64>>,
        custom: Option<C>,
    ) -> Self {
        if let Some(user) = user {
            user
        } else if http is Some && Self::of_code(http->0) != UserError::<C>::Internal {
            Self::of_code(http->0)
        } else if let Some(custom) = custom {
            UserError::Custom(custom)
        } else {
            UserError::Internal
        }
    }

    /// Creates this error from a known condition, or from there being none
    pub fn from_condition(condition: Option<KnownCondition>) -> (error: Self)
        ensures
            error == Self::of_condition(condition),
    {
        match condition {
            Some(KnownCondition::UnknownMessage)
            | Some(KnownCondition::FailedDm)
            | Some(KnownCondition::ReactionBlocked) => UserError::Ignore,
            Some(KnownCondition::MissingPermissions)
            | Some(KnownCondition::MissingAccess) => UserError::MissingPermissions(None),
            None => UserError::Internal,
        }
    }

    /// Creates this error from the numeric code of an HTTP error
    ///
    /// Checks if the code is that of a permission error or of an error to
    /// ignore, returns [`UserError::Internal`] if not
    pub fn from_code(code: Option<u64>) -> (error: Self)
        ensures
            error == Self::of_code(code),
    {
        match code {
            Some(code) => Self::from_condition(code_table(code)),
            None => UserError::Internal,
        }
    }

    /// Creates this error from an HTTP error
    ///
    /// Checks if the error is a permission error or if it should be ignored,
    /// returns [`UserError::Internal`] if not
    pub fn from_http_err(http_err: &twilight_http::Error) -> (error: Self)
        ensures
            error == Self::of_code(api_error_code(*http_err)),
    {
        Self::from_code(http_err.code())
    }

    /// Classify an error of which it is known what it holds: a
    /// [`UserError`] (`user`), an HTTP error with the given code
    /// (`http_code`, whose inner `None` is an HTTP error without a code), a
    /// custom error (`custom`), or none of them
    ///
    /// An error that was classified before is returned as it is. Then an
    /// HTTP error counts if its code is a known one, then a custom error;
    /// anything else is [`UserError::Internal`].
    pub fn classify(
        user: Option<Self>,
        http_code: Option<Option<u64>>,
        custom: Option<C>,
    ) -> (error: Self)
        ensures
            error == Self::classified(user, http_code, custom),
    {
        if let Some(user) = user {
            return user;
        }
        if let Some(code) = http_code {
            let from_http: Self = Self::from_code(code);
            if !from_http.is_internal() {
                return from_http;
            }
        }
        match custom {
            Some(custom) => UserError::Custom(custom),
            None => UserError::Internal,
        }
    }

    /// Create this error from a dynamically typed error
    ///
    /// `user` and `custom` are what the caller found when it looked
    /// in `err` for a [`UserError`] and for a custom error; the HTTP error
    /// is looked for here.
    ///
    /// # Warning
    ///
    /// It's recommended to use the same type for `C` all around to avoid
    /// unexpected return values
    #[must_use]
    pub fn from_anyhow_err(
        err: &anyhow::Error,
        user: Option<Self>,
        custom: Option<C>,
    ) -> (error: Self)
        ensures
            error == Self::classified(user, http_code_in(*err), custom),
    {
        let http_code = match downcast_http(err) {
            Some(http_err) => Some(http_err.code()),
            None => None,
        };
        Self::classify(user, http_code, custom)
    }

    /// If this is a [`UserError::MissingPermissions`] error, replace the
    /// wrapped permissions with the given permissions
    #[must_use]
    pub fn with_permissions(self, permissions: PermissionSet) -> (error: Self)
        ensures
            error == self.decorated(permissions),
    {
        match self {
            UserError::MissingPermissions(_) => UserError::MissingPermissions(Some(permissions)),
            other => other,
        }
    }

    /// A message for where one is asked for; it says that it shouldn't
    /// be used
    pub fn message(&self) -> (text: String)
        ensures
            text@ == "display implementation of `UserError` shouldn't be used"@,
    {
        String::from_str("display implementation of `UserError` shouldn't be used")
    }

    /// Whether nothing is to be shown to the user, nor logged
    pub fn is_ignore(&self) -> (is: bool)
        ensures
            is == (*self is Ignore),
    {
        matches!(self, UserError::Ignore)
    }

    /// Whether the error needs the operator's attention
    pub fn is_internal(&self) -> (is: bool)
        ensures
            is == (*self is Internal),
    {
        matches!(self, UserError::Internal)
    }
}

/// Classifying again what was classified before changes nothing: whatever
/// else the error is found to hold the second time, the result is the
/// first one.
pub proof fn lemma_classify_idempotent<C>(
    user: Option<UserError<C>>,
    http: Option<Option<u64>>,
    custom: Option<C>,
    http_again: Option<Option<u64>>,
    custom_again: Option<C>,
)
    ensures
        UserError::classified(
            Some(UserError::classified(user, http, custom)),
            http_again,
            custom_again,
        ) == UserError::classified(user, http, custom),
{
}

/// The table of codes is total: each of its five codes gives its own
/// classification, and every other code, and the lack of one, is internal.
pub proof fn lemma_code_table_total<C>(code: Option<u64>)
    ensures
        code == Some(10008u64) ==> UserError::<C>::of_code(code) == UserError::<C>::Ignore,
        code == Some(50001u64) ==> UserError::<C>::of_code(code)
            == UserError::<C>::MissingPermissions(None),
        code == Some(50007u64) ==> UserError::<C>::of_code(code) == UserError::<C>::Ignore,
        code == Some(50013u64) ==> UserError::<C>::of_code(code)
            == UserError::<C>::MissingPermissions(None),
        code == Some(90001u64) ==> UserError::<C>::of_code(code) == UserError::<C>::Ignore,
        code != Some(10008u64) && code != Some(50001u64) && code != Some(50007u64) && code
            != Some(50013u64) && code != Some(90001u64) ==> UserError::<C>::of_code(code)
            == UserError::<C>::Internal,
        UserError::<C>::classified(None, Some(code), None) == UserError::<C>::of_code(code),
{
}

/// Attaching permissions changes an error about missing permissions only:
/// that one then holds the given permissions, whatever it held before.
pub proof fn lemma_with_permissions<C>(error: UserError<C>, permissions: PermissionSet)
    ensures
        !(error is MissingPermissions) ==> error.decorated(permissions) == error,
        error is MissingPermissions ==> error.decorated(permissions)
            == UserError::<C>::MissingPermissions(Some(permissions)),
        error.decorated(permissions).decorated(permissions) == error.decorated(permissions),
{
}

} // verus!
