//! The platform's numeric error codes that have a meaning here

use vstd::prelude::*;

verus! {

/// A condition that the platform reports under a numeric code of its own
#[derive(Clone, Copy, Debug, PartialEq, Eq, Structural)]
pub enum KnownCondition {
    /// The user cannot be sent direct messages
    FailedDm,
    /// The bot cannot reach the resource at all
    MissingAccess,
    /// The bot lacks a permission that the action needs
    MissingPermissions,
    /// The author of the message has blocked the bot
    ReactionBlocked,
    /// The message no longer exists
    UnknownMessage,
}

/// Code of `Unknown message`
pub const UNKNOWN_MESSAGE: u64 = 10008;

/// Code of `Missing access`
pub const MISSING_ACCESS: u64 = 50001;

/// Code of `Cannot send messages to this user`
pub const FAILED_DM: u64 = 50007;

/// Code of `Missing permissions`
pub const MISSING_PERMISSIONS: u64 = 50013;

/// Code of `Reaction blocked`
pub const REACTION_BLOCKED: u64 = 90001;

/// The condition that a code stands for, if it has one here
pub open spec fn condition_of(code: u64) -> Option<KnownCondition> {
    if code == 10008 {
        Some(KnownCondition::UnknownMessage)
    } else if code == 50001 {
        Some(KnownCondition::MissingAccess)
    } else if code == 50007 {
        Some(KnownCondition::FailedDm)
    } else if code == 50013 {
        Some(KnownCondition::MissingPermissions)
    } else if code == 90001 {
        Some(KnownCondition::ReactionBlocked)
    } else {
        None
    }
}

/// Look a numeric code up in the table of known conditions
pub fn code_table(code: u64) -> (condition: Option<KnownCondition>)
    ensures
        condition == condition_of(code),
{
    match code {
        UNKNOWN_MESSAGE => Some(KnownCondition::UnknownMessage),
        MISSING_ACCESS => Some(KnownCondition::MissingAccess),
        FAILED_DM => Some(KnownCondition::FailedDm),
        MISSING_PERMISSIONS => Some(KnownCondition::MissingPermissions),
        REACTION_BLOCKED => Some(KnownCondition::ReactionBlocked),
        _ => None,
    }
}

impl KnownCondition {
    /// The code under which the platform reports this condition
    pub open spec fn code_spec(self) -> u64 {
        match self {
            KnownCondition::FailedDm => 50007,
            KnownCondition::MissingAccess => 50001,
            KnownCondition::MissingPermissions => 50013,
            KnownCondition::ReactionBlocked => 90001,
            KnownCondition::UnknownMessage => 10008,
        }
    }

    /// The code under which the platform reports this condition
    pub fn code(self) -> (code: u64)
        ensures
            code == self.code_spec(),
            condition_of(code) == Some(self),
    {
        match self {
            KnownCondition::FailedDm => FAILED_DM,
            KnownCondition::MissingAccess => MISSING_ACCESS,
            KnownCondition::MissingPermissions => MISSING_PERMISSIONS,
            KnownCondition::ReactionBlocked => REACTION_BLOCKED,
            KnownCondition::UnknownMessage => UNKNOWN_MESSAGE,
        }
    }
}

/// The table holds each condition under one code only: a code that stands
/// for a condition is that condition's own code.
pub proof fn lemma_code_table_is_inverse_of_code(code: u64, condition: KnownCondition)
    ensures
        condition_of(code) == Some(condition) <==> code == condition.code_spec(),
{
}

} // verus!
