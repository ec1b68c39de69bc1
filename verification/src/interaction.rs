//! Tracking what has been sent in response to one interaction
//!
//! The platform takes exactly one initial response to an interaction and
//! any number of followups after it. [`InteractionHandle`] keeps what has
//! been sent so far and decides, for each thing the caller wants to send,
//! which request that has to be. The handle makes no request itself: a
//! method such as [`InteractionHandle::reply`] hands out the [`Request`] to
//! make, and [`InteractionHandle::record`] takes in how it went.

use twilight_model::channel::message::component::{ActionRow, TextInput};
use twilight_model::channel::message::Component;
use vstd::prelude::*;

use crate::error::{report_outcome, settle_report, BotError, UserError};
use crate::permissions::PermissionSet;
use crate::reply::Reply;

verus! {

/// Defines whether a defer request should be ephemeral
#[derive(Clone, Copy, Debug, PartialEq, Eq, Structural)]
pub enum DeferVisibility {
    /// The defer request is only shown to the user that created the
    /// interaction
    Ephemeral,
    /// The defer request is shown to everyone in the channel
    Visible,
}

/// Defines whether a defer request should update the message or create a
/// new message on the next response
#[derive(Clone, Copy, Debug, PartialEq, Eq, Structural)]
pub enum DeferBehavior {
    /// The next response creates a new message
    Followup,
    /// The next response updates the last message
    Update,
}

/// What kind of event an interaction is
#[derive(Clone, Copy, Debug, PartialEq, Eq, Structural)]
pub enum InteractionKind {
    /// The platform checks that the bot is there
    Ping,
    /// A command was invoked
    Command,
    /// A button or a select menu of a message was used
    Component,
    /// The user is typing a command's option and wants suggestions
    Autocomplete,
    /// A modal was submitted
    ModalSubmit,
}

/// The kind of an initial response
#[derive(Clone, Copy, Debug, PartialEq, Eq, Structural)]
pub enum ResponseKind {
    /// Respond with a new message
    ChannelMessageWithSource,
    /// Acknowledge now, send a new message later
    DeferredChannelMessageWithSource,
    /// Acknowledge now, update the component's message later
    DeferredUpdateMessage,
    /// Update the message that the component is attached to
    UpdateMessage,
    /// Respond with suggestions for a command's option
    ApplicationCommandAutocompleteResult,
    /// Respond with a modal
    Modal,
}

impl ResponseKind {
    /// The number that stands for this kind on the wire
    pub open spec fn wire_value_spec(self) -> u8 {
        match self {
            ResponseKind::ChannelMessageWithSource => 4,
            ResponseKind::DeferredChannelMessageWithSource => 5,
            ResponseKind::DeferredUpdateMessage => 6,
            ResponseKind::UpdateMessage => 7,
            ResponseKind::ApplicationCommandAutocompleteResult => 8,
            ResponseKind::Modal => 9,
        }
    }

    /// The number that stands for this kind on the wire
    pub fn wire_value(self) -> (value: u8)
        ensures
            value == self.wire_value_spec(),
    {
        match self {
            ResponseKind::ChannelMessageWithSource => 4,
            ResponseKind::DeferredChannelMessageWithSource => 5,
            ResponseKind::DeferredUpdateMessage => 6,
            ResponseKind::UpdateMessage => 7,
            ResponseKind::ApplicationCommandAutocompleteResult => 8,
            ResponseKind::Modal => 9,
        }
    }
}

/// A request to make of the platform on behalf of an interaction
#[derive(Clone, Copy, Debug, PartialEq, Eq, Structural)]
pub enum Request {
    /// Send the initial response, of the given kind; `ephemeral` where it
    /// is to be shown to the invoking user only
    CreateResponse { kind: ResponseKind, ephemeral: bool },
    /// Create a followup message
    CreateFollowup,
    /// Update the followup message with the given id
    UpdateFollowup { message_id: u64 },
    /// Update the initial response in place
    UpdateResponse,
}

/// Something the caller wants to send in response to an interaction
#[derive(Clone, Copy, Debug, PartialEq, Eq, Structural)]
pub enum Command {
    /// Acknowledge the interaction and respond later
    Defer { visibility: DeferVisibility, behavior: DeferBehavior },
    /// Send a message; `update_last` to overwrite the last one instead,
    /// `ephemeral` as the message's flags have it
    Reply { update_last: bool, ephemeral: bool },
    /// Send suggestions for a command's option
    Autocomplete,
    /// Open a modal
    Modal,
}

/// What an [`InteractionHandle`] holds
pub struct HandleState {
    /// The interaction's id
    pub id: u64,
    /// The interaction's token
    pub token: Seq<char>,
    /// The interaction's kind
    pub kind: InteractionKind,
    /// The bot's permissions where the interaction came from; `None`
    /// where the platform sent none, in which case nothing is missing
    pub app_permissions: Option<PermissionSet>,
    /// Whether the initial response has been sent
    pub responded: bool,
    /// The last message sent as a followup, if any was
    pub last_message_id: Option<u64>,
}

impl HandleState {
    /// The kind of the initial response that defers this interaction:
    /// only a component interaction can defer an update
    pub open spec fn defer_kind(self, behavior: DeferBehavior) -> ResponseKind {
        if self.kind == InteractionKind::Component && behavior == DeferBehavior::Update {
            ResponseKind::DeferredUpdateMessage
        } else {
            ResponseKind::DeferredChannelMessageWithSource
        }
    }

    /// The kind of the initial response that carries a reply: only a
    /// component interaction can update the message it came from
    pub open spec fn reply_kind(self, update_last: bool) -> ResponseKind {
        if update_last && self.kind == InteractionKind::Component {
            ResponseKind::UpdateMessage
        } else {
            ResponseKind::ChannelMessageWithSource
        }
    }

    /// The request that sends a reply in this state
    pub open spec fn reply_request(self, update_last: bool, ephemeral: bool) -> Request {
        if !self.responded {
            Request::CreateResponse { kind: self.reply_kind(update_last), ephemeral }
        } else if !update_last {
            Request::CreateFollowup
        } else {
            match self.last_message_id {
                Some(message_id) => Request::UpdateFollowup { message_id },
                None => Request::UpdateResponse,
            }
        }
    }

    /// The request that carries out `command` in this state, or the error
    /// that comes without any request being made
    pub open spec fn plan(self, command: Command) -> Result<Request, BotError> {
        match command {
            Command::Reply { update_last, ephemeral } => Ok(
                self.reply_request(update_last, ephemeral),
            ),
            _ => if self.responded {
                Err(BotError::AlreadyResponded)
            } else {
                Ok(
                    match command {
                        Command::Defer { visibility, behavior } => Request::CreateResponse {
                            kind: self.defer_kind(behavior),
                            ephemeral: visibility == DeferVisibility::Ephemeral,
                        },
                        Command::Autocomplete => Request::CreateResponse {
                            kind: ResponseKind::ApplicationCommandAutocompleteResult,
                            ephemeral: false,
                        },
                        _ => Request::CreateResponse { kind: ResponseKind::Modal, ephemeral: false },
                    },
                )
            },
        }
    }

    /// The state after `request` was made and succeeded; `message` is the
    /// id of the message that the platform returned, where it returned one
    pub open spec fn after_success(self, request: Request, message: Option<u64>) -> HandleState {
        match request {
            Request::CreateResponse { .. } => HandleState { responded: true, ..self },
            Request::CreateFollowup | Request::UpdateResponse => match message {
                Some(message_id) => HandleState { last_message_id: Some(message_id), ..self },
                None => self,
            },
            Request::UpdateFollowup { .. } => self,
        }
    }

    /// The state after `request` was made with the given outcome: a
    /// request that failed leaves no trace
    pub open spec fn after(
        self,
        request: Request,
        outcome: Result<Option<u64>, BotError>,
    ) -> HandleState {
        match outcome {
            Ok(message) => self.after_success(request, message),
            Err(_) => self,
        }
    }

    /// The state after the caller asked for `command` and the request
    /// that was planned for it, if one was, had the given outcome
    pub open spec fn step(
        self,
        command: Command,
        outcome: Result<Option<u64>, BotError>,
    ) -> HandleState {
        match self.plan(command) {
            Ok(request) => self.after(request, outcome),
            Err(_) => self,
        }
    }

    /// Whether asking for `command` in this state, with the given outcome
    /// of its request, got something sent
    pub open spec fn succeeds(
        self,
        command: Command,
        outcome: Result<Option<u64>, BotError>,
    ) -> bool {
        self.plan(command) is Ok && outcome is Ok
    }

    /// The state after a sequence of commands, each with the outcome of
    /// its request
    pub open spec fn run(
        self,
        steps: Seq<(Command, Result<Option<u64>, BotError>)>,
    ) -> HandleState
        decreases steps.len(),
    {
        if steps.len() == 0 {
            self
        } else {
            self.run(steps.drop_last()).step(steps.last().0, steps.last().1)
        }
    }

    /// Whether asking for `command` in this state, with the given outcome
    /// of its request, sends the initial response
    pub open spec fn sends_initial_response(
        self,
        command: Command,
        outcome: Result<Option<u64>, BotError>,
    ) -> bool {
        self.plan(command) matches Ok(Request::CreateResponse { .. }) && outcome is Ok
    }

    /// The number of initial responses that a sequence of commands sends
    pub open spec fn initial_responses(
        self,
        steps: Seq<(Command, Result<Option<u64>, BotError>)>,
    ) -> nat
        decreases steps.len(),
    {
        if steps.len() == 0 {
            0
        } else {
            let sent: nat = if self.run(steps.drop_last()).sends_initial_response(
                steps.last().0,
                steps.last().1,
            ) {
                1
            } else {
                0
            };
            self.initial_responses(steps.drop_last()) + sent
        }
    }

    /// A last message is only known once the initial response is out
    pub open spec fn consistent(self) -> bool {
        self.last_message_id is Some ==> self.responded
    }
}

/// The message that the caller gets back from a reply whose request
/// succeeded: the one that a new followup or the updated initial response
/// came back with, none for the other requests
pub open spec fn returned_message(request: Request, message: Option<u64>) -> Option<u64> {
    match request {
        Request::CreateFollowup | Request::UpdateResponse => message,
        _ => None,
    }
}

/// Allows convenient methods on interaction handling
#[derive(Debug)]
pub struct InteractionHandle {
    /// The interaction's ID
    id: u64,
    /// The interaction's token
    token: String,
    /// The interaction's type
    kind: InteractionKind,
    /// The bot's permissions
    app_permissions: Option<PermissionSet>,
    /// Whether the interaction was already responded to
    responded: bool,
    /// ID of the last message sent as response to the interaction
    last_message_id: Option<u64>,
}

impl View for InteractionHandle {
    type V = HandleState;

    closed spec fn view(&self) -> HandleState {
        HandleState {
            id: self.id,
            token: self.token@,
            kind: self.kind,
            app_permissions: self.app_permissions,
            responded: self.responded,
            last_message_id: self.last_message_id,
        }
    }
}

impl InteractionHandle {
    /// Return the handle of an interaction that nothing has been sent to
    /// yet
    ///
    /// `app_permissions` are the bot's permissions as the interaction
    /// gave them; an interaction in a DM channel gives none.
    #[must_use]
    pub fn new(
        id: u64,
        token: String,
        kind: InteractionKind,
        app_permissions: Option<PermissionSet>,
    ) -> (handle: Self)
        ensures
            handle@ == (HandleState {
                id,
                token: token@,
                kind,
                app_permissions,
                responded: false,
                last_message_id: None,
            }),
    {
        InteractionHandle { id, token, kind, app_permissions, responded: false, last_message_id: None }
    }

    /// The interaction's ID
    pub fn id(&self) -> (id: u64)
        ensures
            id == self@.id,
    {
        self.id
    }

    /// The interaction's token
    pub fn token(&self) -> (token: &String)
        ensures
            token@ == self@.token,
    {
        &self.token
    }

    /// The interaction's kind
    pub fn kind(&self) -> (kind: InteractionKind)
        ensures
            kind == self@.kind,
    {
        self.kind
    }

    /// The bot's permissions, where the interaction gave them
    pub fn app_permissions(&self) -> (permissions: Option<PermissionSet>)
        ensures
            permissions == self@.app_permissions,
    {
        self.app_permissions
    }

    /// Whether the initial response has been sent
    pub fn responded(&self) -> (responded: bool)
        ensures
            responded == self@.responded,
    {
        self.responded
    }

    /// The ID of the last message sent as a followup
    pub fn last_message_id(&self) -> (message_id: Option<u64>)
        ensures
            message_id == self@.last_message_id,
    {
        self.last_message_id
    }

    /// Check that the bot has the required permissions
    ///
    /// # Warning
    ///
    /// Always returns `Ok` in DM channels, make sure the command can
    /// actually run in DMs
    ///
    /// # Errors
    ///
    /// Returns [`UserError::MissingPermissions`] if the bot doesn't have
    /// the required permissions, the wrapped permissions are the
    /// permissions the bot is missing
    pub fn check_permissions<C>(&self, required_permissions: PermissionSet) -> (result: Result<
        (),
        UserError<C>,
    >)
        ensures
            result == missing_permissions::<C>(self@.app_permissions, required_permissions),
            match self@.app_permissions {
                None => result is Ok,
                Some(granted) => if required_permissions@.subset_of(granted@) {
                    result is Ok
                } else {
                    &&& result matches Err(UserError::MissingPermissions(Some(missing)))
                    &&& missing@ == required_permissions@.difference(granted@)
                },
            },
    {
        check_granted(self.app_permissions, required_permissions)
    }

    /// Defer the interaction
    ///
    /// The `visibility` parameter only affects the first
    /// [`InteractionHandle::reply`]
    ///
    /// # Warning
    ///
    /// If responding to a component interaction, use
    /// [`InteractionHandle::defer_component`] instead
    ///
    /// # Errors
    ///
    /// Returns [`BotError::AlreadyResponded`] if this is not the first
    /// response to the interaction
    pub fn defer(&self, visibility: DeferVisibility) -> (request: Result<Request, BotError>)
        ensures
            request == self@.plan(
                Command::Defer { visibility, behavior: DeferBehavior::Followup },
            ),
    {
        self.defer_with_behavior(visibility, DeferBehavior::Followup)
    }

    /// Defer a component interaction
    ///
    /// The `visibility` parameter only affects the first
    /// [`InteractionHandle::reply`]
    ///
    /// # Errors
    ///
    /// Returns [`BotError::AlreadyResponded`] if this is not the first
    /// response to the interaction
    pub fn defer_component(&self, visibility: DeferVisibility, behavior: DeferBehavior) -> (request:
        Result<Request, BotError>)
        ensures
            request == self@.plan(Command::Defer { visibility, behavior }),
    {
        self.defer_with_behavior(visibility, behavior)
    }

    /// Reply to this command
    ///
    /// If the interaction was already responded to, the request is a
    /// followup, otherwise it is the initial response with a message
    ///
    /// With [`Reply::update_last`], the request overwrites the last
    /// followup; if there is none, it overwrites the initial response, and
    /// on a component interaction that was not responded to, the message
    /// that the component is attached to
    pub fn reply(&self, reply: &Reply) -> (request: Request)
        ensures
            request == self@.reply_request(reply.update_last, reply.is_ephemeral()),
            Ok::<Request, BotError>(request) == self@.plan(
                Command::Reply { update_last: reply.update_last, ephemeral: reply.is_ephemeral() },
            ),
    {
        let update_last = reply.update_last;
        if self.responded {
            if update_last {
                match self.last_message_id {
                    Some(message_id) => Request::UpdateFollowup { message_id },
                    None => Request::UpdateResponse,
                }
            } else {
                Request::CreateFollowup
            }
        } else {
            let kind = if update_last && matches!(self.kind, InteractionKind::Component) {
                ResponseKind::UpdateMessage
            } else {
                ResponseKind::ChannelMessageWithSource
            };
            Request::CreateResponse { kind, ephemeral: reply.is_ephemeral() }
        }
    }

    /// Respond to this command with autocomplete suggestions
    ///
    /// # Errors
    ///
    /// Returns [`BotError::AlreadyResponded`] if this is not the first
    /// response to the interaction
    pub fn autocomplete(&self) -> (request: Result<Request, BotError>)
        ensures
            request == self@.plan(Command::Autocomplete),
    {
        if self.responded {
            return Err(BotError::AlreadyResponded);
        }
        Ok(
            Request::CreateResponse {
                kind: ResponseKind::ApplicationCommandAutocompleteResult,
                ephemeral: false,
            },
        )
    }

    /// Respond to this command with a modal
    ///
    /// # Errors
    ///
    /// Returns [`BotError::AlreadyResponded`] if this is not the first
    /// response to the interaction
    pub fn modal(&self) -> (request: Result<Request, BotError>)
        ensures
            request == self@.plan(Command::Modal),
    {
        if self.responded {
            return Err(BotError::AlreadyResponded);
        }
        Ok(Request::CreateResponse { kind: ResponseKind::Modal, ephemeral: false })
    }

    /// Report an error returned in an interaction context to the user
    ///
    /// The passed reply should be the reply that should be shown to the
    /// user based on the error
    ///
    /// Returns the request that replies to the interaction with the given
    /// reply, as [`InteractionHandle::reply`] does, unless
    /// the error is to be ignored: then nothing is to be sent. What the
    /// request came to goes through [`InteractionHandle::record`] and then
    /// through [`InteractionHandle::reported`].
    pub fn report_error<C>(&self, reply: &Reply, error: &UserError<C>) -> (request: Option<Request>)
        ensures
            request == if *error is Ignore {
                None
            } else {
                Some(self@.reply_request(reply.update_last, reply.is_ephemeral()))
            },
    {
        if error.is_ignore() {
            return None;
        }
        Some(self.reply(reply))
    }

    /// What [`InteractionHandle::report_error`] comes to, given what
    /// recording its reply returned
    ///
    /// # Errors
    ///
    /// If the reply failed and the error is internal, returns the error
    pub fn reported(replied: Result<Option<u64>, BotError>) -> (result: Result<
        Option<u64>,
        BotError,
    >)
        ensures
            result == match report_outcome(replied) {
                Ok(Some(message)) => Ok::<Option<u64>, BotError>(message),
                Ok(None) => Ok(None),
                Err(err) => Err(err),
            },
    {
        match settle_report(replied) {
            Ok(Some(message)) => Ok(message),
            Ok(None) => Ok(None),
            Err(err) => Err(err),
        }
    }

    /// Take in how a request went that this handle asked for
    ///
    /// `outcome` is what the platform answered: the id of the message it
    /// returned, where the request returns one, or the error. A request
    /// that failed changes nothing and its error is handed back as it is.
    /// After a success, an initial response marks the interaction as
    /// responded to and returns no message; a new followup, and an update
    /// of the initial response, make their message the last one and
    /// return it; an update of a followup returns none.
    pub fn record(&mut self, request: Request, outcome: Result<Option<u64>, BotError>) -> (result:
        Result<Option<u64>, BotError>)
        ensures
            final(self)@ == old(self)@.after(request, outcome),
            match outcome {
                Ok(message) => result == Ok::<Option<u64>, BotError>(
                    returned_message(request, message),
                ),
                Err(err) => result == Err::<Option<u64>, BotError>(err),
            },
    {
        let message = match outcome {
            Ok(message) => message,
            Err(err) => {
                return Err(err);
            },
        };
        match request {
            Request::CreateResponse { .. } => {
                self.responded = true;
                Ok(None)
            },
            Request::CreateFollowup | Request::UpdateResponse => {
                if let Some(message_id) = message {
                    self.last_message_id = Some(message_id);
                }
                Ok(message)
            },
            Request::UpdateFollowup { .. } => Ok(None),
        }
    }

    fn defer_with_behavior(&self, visibility: DeferVisibility, behavior: DeferBehavior) -> (request:
        Result<Request, BotError>)
        ensures
            request == self@.plan(Command::Defer { visibility, behavior }),
    {
        if self.responded {
            return Err(BotError::AlreadyResponded);
        }
        let kind = if matches!(self.kind, InteractionKind::Component) {
            match behavior {
                DeferBehavior::Followup => ResponseKind::DeferredChannelMessageWithSource,
                DeferBehavior::Update => ResponseKind::DeferredUpdateMessage,
            }
        } else {
            ResponseKind::DeferredChannelMessageWithSource
        };
        Ok(
            Request::CreateResponse {
                kind,
                ephemeral: matches!(visibility, DeferVisibility::Ephemeral),
            },
        )
    }
}

/// The component that holds one text input in a row of its own
pub uninterp spec fn action_row_of(text_input: TextInput) -> Component;

/// Builds the model crate's action row around one text input. The
/// contract gives the row its name.
#[verifier::external_body]
fn action_row(text_input: TextInput) -> (row: Component)
    ensures
        row == action_row_of(text_input),
{
    Component::ActionRow(ActionRow { components: vec![Component::TextInput(text_input)] })
}

/// The components of a modal: its text inputs in their order, each in a
/// row of its own
pub fn modal_components(text_inputs: Vec<TextInput>) -> (components: Vec<Component>)
    ensures
        components@.len() == text_inputs@.len(),
        forall|index: int|
            0 <= index < text_inputs@.len() ==> components@[index] == action_row_of(
                text_inputs@[index],
            ),
{
    let ghost inputs = text_inputs@;
    let mut components: Vec<Component> = Vec::new();
    for text_input in iter: text_inputs
        invariant
            iter.seq() == inputs,
            components@.len() == iter.index(),
            forall|index: int|
                0 <= index < components@.len() ==> components@[index] == action_row_of(
                    inputs[index],
                ),
    {
        components.push(action_row(text_input));
    }
    components
}

/// What a permission check answers: nothing is missing where the granted
/// permissions are unknown; otherwise the required flags that are not
/// granted are missing, and the check fails with exactly those if there
/// are any
pub open spec fn missing_permissions<C>(
    granted: Option<PermissionSet>,
    required: PermissionSet,
) -> Result<(), UserError<C>> {
    match granted {
        None => Ok(()),
        Some(granted) => {
            let missing = PermissionSet { bits: required.bits & !granted.bits };
            if missing.bits == 0 {
                Ok(())
            } else {
                Err(UserError::MissingPermissions(Some(missing)))
            }
        },
    }
}

/// Check that the required permissions are among the granted ones,
/// where `granted` is `None` if the granted ones are unknown
///
/// # Errors
///
/// Returns [`UserError::MissingPermissions`] with the required
/// permissions that are not granted, if there are any
pub fn check_granted<C>(granted: Option<PermissionSet>, required: PermissionSet) -> (result: Result<
    (),
    UserError<C>,
>)
    ensures
        result == missing_permissions::<C>(granted, required),
        match granted {
            None => result is Ok,
            Some(granted) => if required@.subset_of(granted@) {
                result is Ok
            } else {
                &&& result matches Err(UserError::MissingPermissions(Some(missing)))
                &&& missing@ == required@.difference(granted@)
            },
        },
{
    match granted {
        None => Ok(()),
        Some(granted) => {
            proof {
                lemma_missing_is_difference(required, granted);
            }
            let missing = required.difference(granted);
            if missing.is_empty() {
                Ok(())
            } else {
                Err(UserError::MissingPermissions(Some(missing)))
            }
        },
    }
}

/// The mask of the missing permissions holds exactly the required flags
/// that are not granted, and is zero exactly when every required flag is
/// granted.
pub proof fn lemma_missing_is_difference(required: PermissionSet, granted: PermissionSet)
    ensures
        (PermissionSet { bits: required.bits & !granted.bits })@ == required@.difference(granted@),
        (required.bits & !granted.bits == 0) <==> required@.subset_of(granted@),
{
    let missing = PermissionSet { bits: required.bits & !granted.bits };
    let (x, y) = (required.bits, granted.bits);
    assert(forall|flag: u64|
        flag < 64 ==> (#[trigger] (((x & !y) >> flag) & 1) == 1 <==> ((x >> flag) & 1 == 1 && (y
            >> flag) & 1 != 1))) by (bit_vector);
    assert(missing@ =~= required@.difference(granted@));
    if missing.bits == 0 {
        crate::permissions::lemma_view_injective(missing, PermissionSet { bits: 0 });
        assert(forall|flag: u64| !(flag < 64 && (0u64 >> flag) & 1 == 1)) by (bit_vector);
        assert((PermissionSet { bits: 0 })@ =~= Set::<nat>::empty());
        assert forall|flag: nat| required@.contains(flag) implies granted@.contains(flag) by {
            assert(!missing@.contains(flag));
        }
    } else {
        crate::permissions::lemma_nonzero_has_bit(missing.bits);
        let flag = choose|flag: u64| crate::permissions::bit_set(missing.bits, flag);
        assert(missing@.contains(flag as nat));
    }
}

/// A permission check fails with exactly the required permissions that
/// are not granted, succeeds when there are none, and always succeeds
/// where the granted permissions are unknown.
pub proof fn lemma_check_permissions<C>(granted: Option<PermissionSet>, required: PermissionSet)
    ensures
        granted is None ==> missing_permissions::<C>(granted, required) == Ok::<(), UserError<C>>(
            (),
        ),
        granted is Some && required@.difference(granted->0@) == Set::<nat>::empty()
            ==> missing_permissions::<C>(granted, required) == Ok::<(), UserError<C>>(()),
        granted is Some && required@.difference(granted->0@) != Set::<nat>::empty() ==> ({
            &&& missing_permissions::<C>(granted, required) matches Err(
                UserError::MissingPermissions(Some(missing)),
            )
            &&& missing@ == required@.difference(granted->0@)
        }),
{
    if let Some(held) = granted {
        lemma_missing_is_difference(required, held);
        if required@.subset_of(held@) {
            assert(required@.difference(held@) =~= Set::<nat>::empty());
        } else {
            let flag = choose|flag: nat| required@.contains(flag) && !held@.contains(flag);
            assert(required@.difference(held@).contains(flag));
        }
    }
}

/// A command that gets something sent leaves the interaction responded
/// to.
pub proof fn lemma_success_responds(
    state: HandleState,
    command: Command,
    outcome: Result<Option<u64>, BotError>,
)
    requires
        state.succeeds(command, outcome),
    ensures
        state.step(command, outcome).responded,
{
}

/// Nothing makes an interaction that was responded to one that was not.
pub proof fn lemma_step_keeps_responded(
    state: HandleState,
    command: Command,
    outcome: Result<Option<u64>, BotError>,
)
    requires
        state.responded,
    ensures
        state.step(command, outcome).responded,
{
}

/// Once an interaction was responded to, whatever is asked of it next is
/// refused, but for a reply, which is then a followup or an update and
/// never an initial response.
pub proof fn lemma_responded_routes(state: HandleState, command: Command)
    requires
        state.responded,
    ensures
        !(command is Reply) ==> state.plan(command) == Err::<Request, BotError>(
            BotError::AlreadyResponded,
        ),
        command is Reply ==> state.plan(command) is Ok && !(state.plan(command)->Ok_0
            is CreateResponse),
{
}

/// The steps up to `upto` run as the steps up to `upto - 1` and then that
/// one step.
proof fn lemma_run_unfold(
    state: HandleState,
    steps: Seq<(Command, Result<Option<u64>, BotError>)>,
    upto: int,
)
    requires
        0 < upto <= steps.len(),
    ensures
        state.run(steps.take(upto)) == state.run(steps.take(upto - 1)).step(
            steps[upto - 1].0,
            steps[upto - 1].1,
        ),
{
    assert(steps.take(upto).drop_last() =~= steps.take(upto - 1));
}

/// State monotonicity: in any sequence of commands on one handle, once
/// the command at `first` has got something sent, the interaction is
/// responded to before every later command `later`; so that command is
/// refused unless it is a reply, and a reply is no initial response.
pub proof fn lemma_state_monotonic(
    state: HandleState,
    steps: Seq<(Command, Result<Option<u64>, BotError>)>,
    first: int,
    later: int,
)
    requires
        0 <= first < later < steps.len(),
        state.run(steps.take(first)).succeeds(steps[first].0, steps[first].1),
    ensures
        state.run(steps.take(later)).responded,
        !(steps[later].0 is Reply) ==> state.run(steps.take(later)).plan(steps[later].0) == Err::<
            Request,
            BotError,
        >(BotError::AlreadyResponded),
        steps[later].0 is Reply ==> !(state.run(steps.take(later)).plan(steps[later].0)->Ok_0
            is CreateResponse),
    decreases later - first,
{
    lemma_run_unfold(state, steps, later);
    let before = state.run(steps.take(later - 1));
    if later - 1 == first {
        lemma_success_responds(before, steps[first].0, steps[first].1);
    } else {
        lemma_state_monotonic(state, steps, first, later - 1);
        lemma_step_keeps_responded(before, steps[later - 1].0, steps[later - 1].1);
    }
    lemma_responded_routes(state.run(steps.take(later)), steps[later].0);
}

/// An interaction that was responded to stays so through any sequence of
/// commands.
pub proof fn lemma_run_keeps_responded(
    state: HandleState,
    steps: Seq<(Command, Result<Option<u64>, BotError>)>,
)
    requires
        state.responded,
    ensures
        state.run(steps).responded,
    decreases steps.len(),
{
    if steps.len() > 0 {
        lemma_run_keeps_responded(state, steps.drop_last());
    }
}

/// At most one initial response is ever sent: a sequence of commands sends
/// exactly one if it takes the interaction from not responded to to
/// responded to, and none otherwise.
pub proof fn lemma_one_initial_response(
    state: HandleState,
    steps: Seq<(Command, Result<Option<u64>, BotError>)>,
)
    ensures
        state.initial_responses(steps) == if !state.responded && state.run(steps).responded {
            1nat
        } else {
            0nat
        },
    decreases steps.len(),
{
    if steps.len() > 0 {
        lemma_one_initial_response(state, steps.drop_last());
        if state.responded {
            lemma_run_keeps_responded(state, steps.drop_last());
        }
    }
}

/// A handle that starts out consistent stays so, whatever is asked of it
/// and however the requests planned for it go.
pub proof fn lemma_run_keeps_consistent(
    state: HandleState,
    steps: Seq<(Command, Result<Option<u64>, BotError>)>,
)
    requires
        state.consistent(),
    ensures
        state.run(steps).consistent(),
    decreases steps.len(),
{
    if steps.len() > 0 {
        lemma_run_keeps_consistent(state, steps.drop_last());
    }
}

} // verus!
