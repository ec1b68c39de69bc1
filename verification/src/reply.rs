//! The [`Reply`] struct combining data to use when creating a message,
//! interaction response or executing a webhook

use twilight_model::channel::message::{AllowedMentions, Component, Embed};
use twilight_model::http::attachment::Attachment;
use vstd::prelude::*;
use vstd::string::*;

verus! {

/// The bit of a message's flags that makes it ephemeral
pub const EPHEMERAL: u64 = 64;

/// Defines what to do when the reference message doesn't exist
#[derive(Debug, Clone, Copy, PartialEq, Eq, Structural)]
pub enum MissingMessageReferenceHandleMethod {
    /// Return an error
    Fail,
    /// Ignore and don't set a message reference
    Ignore,
}

impl MissingMessageReferenceHandleMethod {
    /// Whether creating the message is to fail when the message it refers
    /// to does not exist
    pub fn fail_if_not_exists(self) -> (fail: bool)
        ensures
            fail == (self is Fail),
    {
        matches!(self, MissingMessageReferenceHandleMethod::Fail)
    }
}

/// The message to reply with combining data to use when creating a message,
/// interaction response or executing a webhook
#[derive(Clone, Debug, PartialEq, Eq)]
pub struct Reply {
    /// The allowed mentions of the reply
    ///
    /// Use `None` to use the bot's default allowed mentions and `Some(None)` to
    /// override this default
    pub allowed_mentions: Option<Option<AllowedMentions>>,
    /// The attachments of the reply
    pub attachments: Vec<Attachment>,
    /// See [`Reply::avatar_url`]
    pub avatar_url: Option<String>,
    /// The components of the reply
    pub components: Vec<Component>,
    /// The content of the reply
    pub content: String,
    /// The embeds of the reply
    pub embeds: Vec<Embed>,
    /// The flags of the reply, as the platform's bit mask
    pub flags: u64,
    /// See [`Reply::message_reference`]
    pub message_reference: Option<u64>,
    /// See [`Reply::message_reference`]
    pub missing_message_reference_handle_method: Option<MissingMessageReferenceHandleMethod>,
    /// See [`Reply::nonce`]
    pub nonce: Option<u64>,
    /// See [`Reply::sticker`]
    pub sticker_ids: Vec<u64>,
    /// See [`Reply::thread_id`]
    pub thread_id: Option<u64>,
    /// See [`Reply::thread_name`]
    pub thread_name: Option<String>,
    /// Whether the reply should be TTS
    pub tts: bool,
    /// See [`Reply::update_last`]
    pub update_last: bool,
    /// See [`Reply::username`]
    pub username: Option<String>,
    /// See [`Reply::wait`]
    pub wait: bool,
}

impl Reply {
    /// Whether this is the reply that [`Reply::new`] returns
    pub open spec fn is_blank(self) -> bool {
        &&& self.allowed_mentions is None
        &&& self.attachments@.len() == 0
        &&& self.avatar_url is None
        &&& self.components@.len() == 0
        &&& self.content@.len() == 0
        &&& self.embeds@.len() == 0
        &&& self.flags == 0
        &&& self.message_reference is None
        &&& self.missing_message_reference_handle_method is None
        &&& self.nonce is None
        &&& self.sticker_ids@.len() == 0
        &&& self.thread_id is None
        &&& self.thread_name is None
        &&& !self.tts
        &&& !self.update_last
        &&& self.username is None
        &&& !self.wait
    }

    /// Set the allowed mentions of the reply
    ///
    /// Pass `None` to ignore the bot's default allowed mentions
    #[must_use]
    pub fn allowed_mentions(self, allowed_mentions: Option<AllowedMentions>) -> (reply: Self)
        ensures
            reply == (Reply { allowed_mentions: Some(allowed_mentions), ..self }),
    {
        let mut reply = self;
        reply.allowed_mentions = Some(allowed_mentions);
        reply
    }

    /// Add an attachment to the reply
    #[must_use]
    pub fn attachment(self, attachment: Attachment) -> (reply: Self)
        ensures
            reply.attachments@ == self.attachments@.push(attachment),
            reply == (Reply { attachments: reply.attachments, ..self }),
    {
        let mut reply = self;
        reply.attachments.push(attachment);
        reply
    }

    /// Set the avatar URL of the reply
    ///
    /// Only used when executing webhooks
    #[must_use]
    pub fn avatar_url(self, avatar_url: String) -> (reply: Self)
        ensures
            reply == (Reply { avatar_url: Some(avatar_url), ..self }),
    {
        let mut reply = self;
        reply.avatar_url = Some(avatar_url);
        reply
    }

    /// Add a component to the reply
    #[must_use]
    pub fn component(self, component: Component) -> (reply: Self)
        ensures
            reply.components@ == self.components@.push(component),
            reply == (Reply { components: reply.components, ..self }),
    {
        let mut reply = self;
        reply.components.push(component);
        reply
    }

    /// Set the content of the reply
    ///
    /// This overwrites the previous content
    #[must_use]
    pub fn content(self, content: String) -> (reply: Self)
        ensures
            reply == (Reply { content, ..self }),
    {
        let mut reply = self;
        reply.content = content;
        reply
    }

    /// The content to send where an empty one is left out, as when a
    /// message can be made of the reply's other parts alone
    pub fn nonempty_content(&self) -> (content: Option<&str>)
        ensures
            self.content@.len() == 0 ==> content is None,
            self.content@.len() > 0 ==> content is Some && content->0@ == self.content@,
    {
        let content = self.content.as_str();
        if content.unicode_len() == 0 {
            None
        } else {
            Some(content)
        }
    }

    /// Add an embed to the reply
    #[must_use]
    pub fn embed(self, embed: Embed) -> (reply: Self)
        ensures
            reply.embeds@ == self.embeds@.push(embed),
            reply == (Reply { embeds: reply.embeds, ..self }),
    {
        let mut reply = self;
        reply.embeds.push(embed);
        reply
    }

    /// Make the reply ephemeral
    ///
    /// Only used in interactions
    #[must_use]
    pub fn ephemeral(self) -> (reply: Self)
        ensures
            reply == (Reply { flags: self.flags | EPHEMERAL, ..self }),
            reply.is_ephemeral(),
    {
        let mut reply = self;
        reply.flags = reply.flags | EPHEMERAL;
        proof {
            let flags = self.flags;
            assert((flags | 64) & 64 == 64) by (bit_vector);
        }
        reply
    }

    /// Whether the flags of the reply make it ephemeral
    #[verifier::when_used_as_spec(is_ephemeral_spec)]
    pub fn is_ephemeral(&self) -> (ephemeral: bool)
        ensures
            ephemeral == self.is_ephemeral_spec(),
    {
        self.flags & EPHEMERAL == EPHEMERAL
    }

    /// Whether the flags of the reply make it ephemeral
    pub open spec fn is_ephemeral_spec(&self) -> bool {
        self.flags & EPHEMERAL == EPHEMERAL
    }

    /// Set the flags of the reply
    ///
    /// # Warning
    ///
    /// Overwrites [`Reply::ephemeral`]
    #[must_use]
    pub fn flags(self, flags: u64) -> (reply: Self)
        ensures
            reply == (Reply { flags, ..self }),
    {
        let mut reply = self;
        reply.flags = flags;
        reply
    }

    /// Set the message reference of the reply, this is what's done in the
    /// client using the `Reply` button
    ///
    /// Only used when creating messages
    #[must_use]
    pub fn message_reference(
        self,
        message_id: u64,
        missing_handle_method: MissingMessageReferenceHandleMethod,
    ) -> (reply: Self)
        ensures
            reply == (Reply {
                message_reference: Some(message_id),
                missing_message_reference_handle_method: Some(missing_handle_method),
                ..self
            }),
    {
        let mut reply = self;
        reply.message_reference = Some(message_id);
        reply.missing_message_reference_handle_method = Some(missing_handle_method);
        reply
    }

    /// Create a new, empty [`Reply`]
    ///
    /// At least one of [`Reply::content`], [`Reply::embed`],
    /// [`Reply::component`], [`Reply::attachment`] must be called
    ///
    /// By default, the message is not ephemeral or TTS and its allowed mentions
    /// use the bot's default allowed mentions
    #[must_use]
    pub fn new() -> (reply: Self)
        ensures
            reply.is_blank(),
    {
        Reply {
            content: String::new(),
            embeds: Vec::new(),
            components: Vec::new(),
            attachments: Vec::new(),
            flags: 0,
            allowed_mentions: None,
            tts: false,
            update_last: false,
            sticker_ids: Vec::new(),
            message_reference: None,
            nonce: None,
            missing_message_reference_handle_method: None,
            username: None,
            avatar_url: None,
            thread_id: None,
            thread_name: None,
            wait: false,
        }
    }

    /// Attach a nonce to the reply
    ///
    /// Only used when creating messages
    #[must_use]
    pub fn nonce(self, nonce: u64) -> (reply: Self)
        ensures
            reply == (Reply { nonce: Some(nonce), ..self }),
    {
        let mut reply = self;
        reply.nonce = Some(nonce);
        reply
    }

    /// Add a sticker to the reply
    ///
    /// Only used when creating messages
    #[must_use]
    pub fn sticker(self, sticker_id: u64) -> (reply: Self)
        ensures
            reply.sticker_ids@ == self.sticker_ids@.push(sticker_id),
            reply == (Reply { sticker_ids: reply.sticker_ids, ..self }),
    {
        let mut reply = self;
        reply.sticker_ids.push(sticker_id);
        reply
    }

    /// Set the thread ID of the reply
    ///
    /// Only used when executing webhooks and updating webhook messages
    #[must_use]
    pub fn thread_id(self, thread_id: u64) -> (reply: Self)
        ensures
            reply == (Reply { thread_id: Some(thread_id), ..self }),
    {
        let mut reply = self;
        reply.thread_id = Some(thread_id);
        reply
    }

    /// Set the name of the thread created when using the reply in a forum
    /// channel
    ///
    /// Only used when executing webhooks
    #[must_use]
    pub fn thread_name(self, thread_name: String) -> (reply: Self)
        ensures
            reply == (Reply { thread_name: Some(thread_name), ..self }),
    {
        let mut reply = self;
        reply.thread_name = Some(thread_name);
        reply
    }

    /// Make the reply TTS
    #[must_use]
    pub fn tts(self) -> (reply: Self)
        ensures
            reply == (Reply { tts: true, ..self }),
    {
        let mut reply = self;
        reply.tts = true;
        reply
    }

    /// Make the reply update the last reply if one exists
    ///
    /// Currently only available in interaction handles
    #[must_use]
    pub fn update_last(self) -> (reply: Self)
        ensures
            reply == (Reply { update_last: true, ..self }),
    {
        let mut reply = self;
        reply.update_last = true;
        reply
    }

    /// Set the username of the reply
    ///
    /// Only used when executing webhooks
    #[must_use]
    pub fn username(self, username: String) -> (reply: Self)
        ensures
            reply == (Reply { username: Some(username), ..self }),
    {
        let mut reply = self;
        reply.username = Some(username);
        reply
    }

    /// Wait for the message to be sent
    ///
    /// Only used when executing webhooks
    #[must_use]
    pub fn wait(self) -> (reply: Self)
        ensures
            reply == (Reply { wait: true, ..self }),
    {
        let mut reply = self;
        reply.wait = true;
        reply
    }
}

impl Default for Reply {
    fn default() -> (reply: Self)
        ensures
            reply.is_blank(),
    {
        Self::new()
    }
}

} // verus!
