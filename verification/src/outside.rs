//! The types of other crates that values of this library carry

use vstd::prelude::*;

verus! {

/// The HTTP client's error, carried as it came
#[verifier::external_type_specification]
#[verifier::external_body]
pub struct ExHttpError(twilight_http::Error);

/// The HTTP client's error for a body that could not be deserialized
#[verifier::external_type_specification]
#[verifier::external_body]
pub struct ExDeserializeBodyError(twilight_http::response::DeserializeBodyError);

/// The validator's error for a message that the platform would refuse
#[verifier::external_type_specification]
#[verifier::external_body]
pub struct ExMessageValidationError(twilight_validate::message::MessageValidationError);

/// The validator's error for a request that the platform would refuse
#[verifier::external_type_specification]
#[verifier::external_body]
pub struct ExRequestValidationError(twilight_validate::request::ValidationError);

/// The gateway's error for shards that could not be started
#[verifier::external_type_specification]
#[verifier::external_body]
pub struct ExStartRecommendedError(twilight_gateway::stream::StartRecommendedError);

/// A dynamically typed error, carried as it came
#[verifier::external_type_specification]
#[verifier::external_body]
pub struct ExAnyhowError(anyhow::Error);

/// The allowed mentions of a message, carried as they came
#[verifier::external_type_specification]
#[verifier::external_body]
pub struct ExAllowedMentions(twilight_model::channel::message::AllowedMentions);

/// An attachment of a message, carried as it came
#[verifier::external_type_specification]
#[verifier::external_body]
pub struct ExAttachment(twilight_model::http::attachment::Attachment);

/// A component of a message, carried as it came
#[verifier::external_type_specification]
#[verifier::external_body]
pub struct ExComponent(twilight_model::channel::message::Component);

/// An embed of a message, carried as it came
#[verifier::external_type_specification]
#[verifier::external_body]
pub struct ExEmbed(twilight_model::channel::message::Embed);

/// A text input of a modal, carried as it came
#[verifier::external_type_specification]
#[verifier::external_body]
pub struct ExTextInput(twilight_model::channel::message::component::TextInput);

/// The platform's permission flags, as the model crate holds them
#[verifier::external_type_specification]
#[verifier::external_body]
pub struct ExPermissions(twilight_model::guild::Permissions);

} // verus!
