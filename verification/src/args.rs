//! Identifiers read from the arguments of a command.

use crate::decimal::{decimal_chars, parse_u64_spec, parse_u64_str, u64_to_string, IntErrorKind};
use crate::model::{
    ApplicationId, AttachmentId, AuditLogEntryId, ChannelId, CommandId, EmojiId, GenericId,
    GuildId, IntegrationId, InteractionId, MessageId, RoleId, Snowflake, StageId, UserId,
    WebhookId,
};
use vstd::prelude::*;

verus! {

/// The identifier types that a command argument can hold.
pub trait Sealed: Snowflake {

}

impl Sealed for ApplicationId {

}

impl Sealed for AttachmentId {

}

impl Sealed for AuditLogEntryId {

}

impl Sealed for ChannelId {

}

impl Sealed for CommandId {

}

impl Sealed for EmojiId {

}

impl Sealed for GenericId {

}

impl Sealed for GuildId {

}

impl Sealed for IntegrationId {

}

impl Sealed for InteractionId {

}

impl Sealed for MessageId {

}

impl Sealed for RoleId {

}

impl Sealed for StageId {

}

impl Sealed for UserId {

}

impl Sealed for WebhookId {

}

/// A command argument that holds an identifier of type `T`.
#[derive(Debug, Default, Clone, Copy, PartialEq, Eq, PartialOrd, Ord, Hash)]
pub struct Id<T: Sealed>(T);

impl<T: Sealed> Id<T> {
    /// The identifier held.
    pub closed spec fn view(&self) -> T {
        self.0
    }

    /// The decimal notation of the identifier.
    pub fn to_string(&self) -> (r: String)
        ensures
            r@ == decimal_chars(self@.snowflake() as nat),
    {
        u64_to_string(self.0.get_snowflake())
    }

    /// Reads the argument from the decimal notation of its identifier.
    pub fn from_decimal(s: &str) -> (r: Result<Self, IntErrorKind>)
        ensures
            match parse_u64_spec(s@) {
                Ok(n) => r matches Ok(id) && id@ == T::spec_from_snowflake(n),
                Err(e) => r == Err::<Self, IntErrorKind>(e),
            },
    {
        match parse_u64_str(s) {
            Ok(n) => Ok(Id(T::from_snowflake(n))),
            Err(e) => Err(e),
        }
    }
}

impl<T: Sealed> core::ops::Deref for Id<T> {
    type Target = T;

    fn deref(&self) -> (r: &T)
        ensures
            *r == self@,
    {
        &self.0
    }
}

impl<T: Sealed> From<u64> for Id<T> {
    fn from(value: u64) -> (r: Self) {
        Id(T::from_snowflake(value))
    }
}

impl<T: Sealed> vstd::std_specs::convert::FromSpecImpl<u64> for Id<T> {
    open spec fn obeys_from_spec() -> bool {
        true
    }

    closed spec fn from_spec(value: u64) -> Self {
        Id(T::spec_from_snowflake(value))
    }
}

/// The argument made from a snowflake holds the identifier of that snowflake.
pub proof fn lemma_from_u64<T: Sealed>(value: u64)
    ensures
        <Id<T> as vstd::std_specs::convert::FromSpec<u64>>::from_spec(value)@
            == T::spec_from_snowflake(value),
        <Id<T> as vstd::std_specs::convert::FromSpec<u64>>::from_spec(value)@.snowflake() == value,
{
    T::lemma_from_snowflake(value);
}

impl<T: Sealed> core::str::FromStr for Id<T> {
    type Err = IntErrorKind;

    fn from_str(s: &str) -> (r: Result<Self, Self::Err>)
        ensures
            match parse_u64_spec(s@) {
                Ok(n) => r matches Ok(id) && id@ == T::spec_from_snowflake(n),
                Err(e) => r == Err::<Self, IntErrorKind>(e),
            },
    {
        Id::from_decimal(s)
    }
}

} // verus!
