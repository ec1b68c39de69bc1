//! What has to be known of a message to delete it later

use vstd::prelude::*;

verus! {

/// Parameters for deleting a regular message
#[derive(Debug, Clone, Copy, PartialEq, Eq, Structural)]
pub struct DeleteParamsMessage {
    /// The channel that the message is in
    pub channel_id: u64,
    /// The message
    pub message_id: u64,
}

/// Marker type indicating that parameters to delete the message should be
/// received by deserializing it
#[derive(Debug, Clone, Copy, PartialEq, Eq, Structural)]
pub struct DeleteParamsUnknown;

/// Parameters for deleting a webhook message
#[derive(Debug, Clone, PartialEq, Eq)]
pub struct DeleteParamsWebhook {
    /// The message
    pub message_id: u64,
    /// The webhook's token
    pub token: String,
    /// The webhook that sent the message
    pub webhook_id: u64,
}

/// The deletion to make once the time is up
#[derive(Debug, Clone, PartialEq, Eq)]
pub enum Params {
    /// Delete the message of the channel: first the channel's id, then
    /// the message's
    Message(u64, u64),
    /// Delete the message of the webhook: the webhook's id, its token,
    /// then the message's id
    Webhook(u64, String, u64),
}

impl DeleteParamsMessage {
    /// The deletion that these parameters ask for
    pub fn params(&self) -> (params: Params)
        ensures
            params == Params::Message(self.channel_id, self.message_id),
    {
        Params::Message(self.channel_id, self.message_id)
    }
}

impl DeleteParamsUnknown {
    /// The deletion of a message of which the ids were learnt by
    /// deserializing it
    pub fn params(&self, channel_id: u64, message_id: u64) -> (params: Params)
        ensures
            params == Params::Message(channel_id, message_id),
    {
        Params::Message(channel_id, message_id)
    }
}

impl DeleteParamsWebhook {
    /// The deletion that these parameters ask for
    pub fn params(self) -> (params: Params)
        ensures
            params == Params::Webhook(self.webhook_id, self.token, self.message_id),
    {
        Params::Webhook(self.webhook_id, self.token, self.message_id)
    }
}

} // verus!
