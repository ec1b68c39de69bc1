//! Convenient message, DM and webhook handling

pub mod delete_after;

use vstd::prelude::*;

use crate::error::UserError;
use crate::reply::Reply;

verus! {

/// Allows convenient methods on message, DM and webhook message handling
#[derive(Debug, Clone, Copy)]
pub struct ReplyHandle<'bot> {
    /// The reply that the messages are made of
    pub reply: &'bot Reply,
}

impl<'bot> ReplyHandle<'bot> {
    /// Return a reply handle
    #[must_use]
    pub fn new(reply: &'bot Reply) -> (handle: Self)
        ensures
            handle.reply == reply,
    {
        ReplyHandle { reply }
    }

    /// Report an error returned in a message context to the user
    ///
    /// Returns whether a message with the reply is to be created: it is
    /// unless the error is to be ignored. How creating it went is then
    /// settled by [`settle_report`].
    ///
    /// [`settle_report`]: crate::error::settle_report
    pub fn report_error<C>(&self, error: &UserError<C>) -> (create: bool)
        ensures
            create == !(*error is Ignore),
    {
        !error.is_ignore()
    }

    /// Whether creating a message is to fail when the message it refers to
    /// does not exist; `None` where the reply leaves that to the platform
    pub fn fail_if_not_exists(&self) -> (fail: Option<bool>)
        ensures
            fail == match self.reply.missing_message_reference_handle_method {
                Some(method) => Some(method is Fail),
                None => None,
            },
    {
        match self.reply.missing_message_reference_handle_method {
            Some(method) => Some(method.fail_if_not_exists()),
            None => None,
        }
    }
}

} // verus!
