//! Deciding what a log message is sent as

use vstd::prelude::*;
use vstd::string::*;

use crate::error::BotError;

verus! {

/// The most characters that a message's content may have
pub const CONTENT_LENGTH_MAX: usize = 2000;

/// The number of characters of a long message that its preview shows
pub const PREVIEW_LENGTH: usize = 100;

/// Calls `twilight_validate::message::content`, which accepts a content of
/// at most 2000 characters and refuses any other.
#[verifier::external_body]
fn validate_content(content: &str) -> (result: Result<
    (),
    twilight_validate::message::MessageValidationError,
>)
    ensures
        result is Ok <==> content@.len() <= CONTENT_LENGTH_MAX,
{
    twilight_validate::message::content(content)
}

/// What a message is logged as
#[derive(Debug, Clone, PartialEq, Eq)]
pub enum LogEntry {
    /// The message is the content
    Content,
    /// The message is too long for a content: it goes into an attachment,
    /// and the content is the given preview
    Attachment { preview: String },
}

/// The three dots that end a preview
pub open spec fn ellipsis() -> Seq<char> {
    seq!['.', '.', '.']
}

/// The preview of a long message: its first hundred characters, or all
/// of them if there are fewer, and three dots
pub open spec fn preview_of(message: Seq<char>) -> Seq<char> {
    if message.len() <= PREVIEW_LENGTH {
        message + ellipsis()
    } else {
        message.take(PREVIEW_LENGTH as int) + ellipsis()
    }
}

/// The preview of a long message
pub fn preview(message: &str) -> (preview: String)
    ensures
        preview@ == preview_of(message@),
        preview@.len() <= PREVIEW_LENGTH + 3,
{
    let length = message.unicode_len();
    let shown = if length <= PREVIEW_LENGTH {
        length
    } else {
        PREVIEW_LENGTH
    };
    let mut preview = String::from_str(message.substring_char(0, shown));
    preview.append("...");
    proof {
        reveal_strlit("...");
        assert("..."@ =~= ellipsis());
        assert(message@.subrange(0, shown as int) =~= message@.take(shown as int));
        if length <= PREVIEW_LENGTH {
            assert(message@.take(shown as int) =~= message@);
        }
    }
    preview
}

/// Decide what a message is logged as: as the content where the platform
/// takes it as one, else as an attachment with a preview for the content
pub fn log_entry(message: &str) -> (entry: LogEntry)
    ensures
        message@.len() <= CONTENT_LENGTH_MAX ==> entry == LogEntry::Content,
        message@.len() > CONTENT_LENGTH_MAX ==> ({
            &&& entry matches LogEntry::Attachment { preview }
            &&& preview@ == preview_of(message@)
        }),
{
    match validate_content(message) {
        Ok(_) => LogEntry::Content,
        Err(_) => LogEntry::Attachment { preview: preview(message) },
    }
}

/// A preview is never too long to be a content.
pub proof fn lemma_preview_is_content(message: Seq<char>)
    ensures
        preview_of(message).len() <= CONTENT_LENGTH_MAX,
{
}

/// The webhook to log with, which has to have been set before
///
/// # Errors
///
/// Returns [`BotError::LoggingWebhookMissing`] if there is none
pub fn logging_webhook<W>(webhook: Option<W>) -> (result: Result<W, BotError>)
    ensures
        match webhook {
            Some(webhook) => result == Ok::<W, BotError>(webhook),
            None => result == Err::<W, BotError>(BotError::LoggingWebhookMissing),
        },
{
    match webhook {
        Some(webhook) => Ok(webhook),
        None => Err(BotError::LoggingWebhookMissing),
    }
}

/// The first webhook of a channel that can be executed: the first that
/// has a token
pub fn first_with_token(tokens: &Vec<Option<String>>) -> (found: Option<usize>)
    ensures
        match found {
            Some(index) => {
                &&& index < tokens@.len()
                &&& tokens@[index as int] is Some
                &&& forall|earlier: int| 0 <= earlier < index ==> tokens@[earlier] is None
            },
            None => forall|index: int| 0 <= index < tokens@.len() ==> tokens@[index] is None,
        },
{
    let mut index: usize = 0;
    while index < tokens.len()
        invariant
            index <= tokens@.len(),
            forall|earlier: int| 0 <= earlier < index ==> tokens@[earlier] is None,
        decreases tokens@.len() - index,
    {
        if tokens[index].is_some() {
            return Some(index);
        }
        index = index + 1;
    }
    None
}

} // verus!
