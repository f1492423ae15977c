//! An identifier that holds any snowflake, and the key that the cache stores
//! identifiers under.

use crate::constella::{Data, DataTransformer, Transformer};
use crate::decimal::{decimal_chars, parse_u64_spec, parse_u64_str, u64_to_string, IntErrorKind};
use crate::model::{
    ApplicationId, AttachmentId, AuditLogEntryId, ChannelId, CommandId, EmojiId, GenericId,
    GuildId, IntegrationId, InteractionId, MessageId, RoleId, Snowflake, StageId, UserId,
    WebhookId,
};
use vstd::prelude::*;

verus! {

/// The identifier types that an [`Id`] converts from and into.
pub trait Sealed: Snowflake {

}

impl Sealed for ApplicationId {

}

impl Sealed for AttachmentId {

}

impl Sealed for AuditLogEntryId {

}

impl Sealed for ChannelId {

}

impl Sealed for CommandId {

}

impl Sealed for EmojiId {

}

impl Sealed for GenericId {

}

impl Sealed for GuildId {

}

impl Sealed for IntegrationId {

}

impl Sealed for InteractionId {

}

impl Sealed for MessageId {

}

impl Sealed for RoleId {

}

impl Sealed for StageId {

}

impl Sealed for UserId {

}

impl Sealed for WebhookId {

}

/// The key that the cache stores an identifier under.
pub type IdKey = DataTransformer<Id>;

/// An identifier of any kind of Discord resource.
#[derive(Debug, Default, Clone, Copy, PartialEq, Eq, Structural, PartialOrd, Ord, Hash)]
pub struct Id(pub u64);

impl Id {
    /// The identifier that holds `value`.
    #[must_use]
    pub fn new(value: u64) -> (r: Self)
        ensures
            r.0 == value,
    {
        Id(value)
    }

    /// The snowflake that the identifier holds.
    #[must_use]
    pub fn as_u64(self) -> (r: u64)
        ensures
            r == self.0,
    {
        self.0
    }

    /// The identifier of type `T` that holds the same snowflake.
    #[must_use]
    pub fn as_id<T: Sealed>(self) -> (r: T)
        ensures
            r.snowflake() == self.0,
    {
        T::from_snowflake(self.0)
    }

    /// The key that the cache stores the identifier `id` under.
    #[must_use]
    pub fn as_id_key<T: Sealed>(id: T) -> (r: IdKey)
        ensures
            r@ == id.snowflake(),
    {
        let key = Id(id.get_snowflake());
        Data::new(&key)
    }

    /// The decimal notation of the snowflake.
    pub fn to_string(&self) -> (r: String)
        ensures
            r@ == decimal_chars(self.0 as nat),
    {
        u64_to_string(self.0)
    }

    /// Reads an identifier from its decimal notation, as `u64` is read from a
    /// string.
    pub fn from_decimal(s: &str) -> (r: Result<Self, IntErrorKind>)
        ensures
            match parse_u64_spec(s@) {
                Ok(n) => r == Ok::<Self, IntErrorKind>(Id(n)),
                Err(e) => r == Err::<Self, IntErrorKind>(e),
            },
    {
        match parse_u64_str(s) {
            Ok(n) => Ok(Id(n)),
            Err(e) => Err(e),
        }
    }
}

impl core::ops::Deref for Id {
    type Target = u64;

    fn deref(&self) -> (r: &u64)
        ensures
            *r == self.0,
    {
        &self.0
    }
}

impl From<u64> for Id {
    fn from(value: u64) -> (r: Self) {
        Id(value)
    }
}

impl vstd::std_specs::convert::FromSpecImpl<u64> for Id {
    open spec fn obeys_from_spec() -> bool {
        true
    }

    open spec fn from_spec(value: u64) -> Self {
        Id(value)
    }
}

impl From<Id> for u64 {
    fn from(value: Id) -> (r: Self) {
        value.0
    }
}

impl vstd::std_specs::convert::FromSpecImpl<Id> for u64 {
    open spec fn obeys_from_spec() -> bool {
        true
    }

    open spec fn from_spec(value: Id) -> Self {
        value.0
    }
}

impl core::str::FromStr for Id {
    type Err = IntErrorKind;

    fn from_str(s: &str) -> (r: Result<Self, Self::Err>)
        ensures
            match parse_u64_spec(s@) {
                Ok(n) => r == Ok::<Self, IntErrorKind>(Id(n)),
                Err(e) => r == Err::<Self, IntErrorKind>(e),
            },
    {
        Id::from_decimal(s)
    }
}

impl Transformer for Id {
    type DataType = u64;

    open spec fn spec_transform(&self) -> u64 {
        self.0
    }

    open spec fn spec_revert(value: u64) -> Id {
        Id(value)
    }

    fn transform(&self) -> (r: u64) {
        self.0
    }

    fn revert(value: &u64) -> (r: Id) {
        Id(*value)
    }
}

/// The key of an identifier holds its snowflake, and gives the identifier back.
pub proof fn law_id_key_roundtrip(id: Id)
    ensures
        Id::spec_revert(id.spec_transform()) == id,
{
}

/// Printing an identifier in decimal and reading it back gives the same identifier.
pub proof fn law_id_decimal_roundtrip(id: Id)
    ensures
        parse_u64_spec(decimal_chars(id.0 as nat)) == Ok::<u64, IntErrorKind>(id.0),
{
    crate::decimal::law_decimal_roundtrip(id.0);
}

} // verus!
