//! An identifier that holds a nonzero snowflake.

use crate::decimal::{decimal_chars, parse_u64_spec, parse_u64_str, u64_to_string, IntErrorKind};
use crate::model::{
    ApplicationId, AttachmentId, AuditLogEntryId, ChannelId, CommandId, EmojiId, GenericId,
    GuildId, IntegrationId, InteractionId, MessageId, RoleId, Snowflake, StageId, UserId,
    WebhookId,
};
use vstd::prelude::*;
use vstd::string::StringExecFns;

verus! {

/// The error of converting zero into an [`Id`].
#[derive(Debug, Default, Clone, Copy, PartialEq, Eq, Structural)]
pub struct ConvertError;

/// The message that describes a [`ConvertError`].
pub open spec fn convert_error_message() -> Seq<char> {
    "could not convert the u64 to an Id"@
}

impl ConvertError {
    /// The message that describes the error.
    pub fn to_string(&self) -> (r: String)
        ensures
            r@ == convert_error_message(),
    {
        let mut s = String::new();
        s.append("could not convert the u64 to an Id");
        assert(s@ =~= convert_error_message());
        s
    }
}

/// Why a string is not the decimal notation of an [`Id`], as std reports it
/// for `NonZeroU64`.
#[derive(Debug, Clone, Copy, PartialEq, Eq, Structural)]
pub enum ParseIdError {
    /// The string is not the decimal notation of a `u64`.
    Int(IntErrorKind),
    /// The number is zero.
    Zero,
}

/// What std's `NonZeroU64::from_str` returns for `s`: what `u64::from_str`
/// returns, except that zero is refused.
pub open spec fn parse_nonzero_spec(s: Seq<char>) -> Result<u64, ParseIdError> {
    match parse_u64_spec(s) {
        Ok(n) => if n == 0 {
            Err(ParseIdError::Zero)
        } else {
            Ok(n)
        },
        Err(e) => Err(ParseIdError::Int(e)),
    }
}

/// The identifier types that an [`Id`] converts into.
pub trait Sealed: Snowflake {

}

impl Sealed for ApplicationId {

}

impl Sealed for AttachmentId {

}

impl Sealed for AuditLogEntryId {

}

impl Sealed for ChannelId {

}

impl Sealed for CommandId {

}

impl Sealed for EmojiId {

}

impl Sealed for GenericId {

}

impl Sealed for GuildId {

}

impl Sealed for IntegrationId {

}

impl Sealed for InteractionId {

}

impl Sealed for MessageId {

}

impl Sealed for RoleId {

}

impl Sealed for StageId {

}

impl Sealed for UserId {

}

impl Sealed for WebhookId {

}

/// An identifier of any kind of Discord resource: a snowflake that is not zero.
#[derive(Debug, Clone, Copy, PartialEq, Eq, Structural, PartialOrd, Ord, Hash)]
pub struct Id(u64);

impl Id {
    /// An identifier never holds zero.
    #[verifier::type_invariant]
    spec fn nonzero(self) -> bool {
        self.0 != 0
    }

    /// The snowflake that the identifier holds.
    pub closed spec fn view(&self) -> u64 {
        self.0
    }

    /// The identifier that holds `n`, or `None` when `n` is zero.
    #[must_use]
    pub fn new(n: u64) -> (r: Option<Self>)
        ensures
            (r is Some) == (n != 0),
            r matches Some(id) ==> id@ == n,
    {
        if n != 0 {
            Some(Id(n))
        } else {
            None
        }
    }

    /// The identifier that holds `n`, which must not be zero.
    #[must_use]
    pub fn new_unchecked(n: u64) -> (r: Self)
        requires
            n != 0,
        ensures
            r@ == n,
    {
        Id(n)
    }

    /// The snowflake that the identifier holds.
    #[must_use]
    pub fn get(self) -> (r: u64)
        ensures
            r == self@,
            r != 0,
    {
        proof {
            use_type_invariant(&self);
        }
        self.0
    }

    /// The identifier of type `T` that holds the same snowflake.
    #[must_use]
    pub fn as_id<T: Sealed>(self) -> (r: T)
        ensures
            r == T::spec_from_snowflake(self@),
            r.snowflake() == self@,
    {
        T::from_snowflake(self.0)
    }

    /// The identifier that holds the snowflake of `id`, or `None` when that
    /// snowflake is zero.
    pub closed spec fn spec_from_id<T: Sealed>(id: T) -> Option<Id> {
        if id.snowflake() == 0 {
            None
        } else {
            Some(Id(id.snowflake()))
        }
    }

    /// The identifier that holds the same snowflake as the identifier `id` of
    /// type `T`, or `None` when that snowflake is zero.
    #[must_use]
    pub fn from_id<T: Sealed>(id: T) -> (r: Option<Self>)
        ensures
            r == Id::spec_from_id(id),
            (r is Some) == (id.snowflake() != 0),
            r matches Some(x) ==> x@ == id.snowflake(),
    {
        let n = id.get_snowflake();
        if n != 0 {
            Some(Id(n))
        } else {
            None
        }
    }

    /// The decimal notation of the snowflake.
    pub fn to_string(&self) -> (r: String)
        ensures
            r@ == decimal_chars(self@ as nat),
    {
        u64_to_string(self.0)
    }

    /// Reads an identifier from its decimal notation, as `NonZeroU64` is read
    /// from a string.
    pub fn from_decimal(s: &str) -> (r: Result<Self, ParseIdError>)
        ensures
            match parse_nonzero_spec(s@) {
                Ok(n) => r matches Ok(id) && id@ == n,
                Err(e) => r == Err::<Self, ParseIdError>(e),
            },
    {
        match parse_u64_str(s) {
            Ok(n) => if n == 0 {
                Err(ParseIdError::Zero)
            } else {
                Ok(Id(n))
            },
            Err(e) => Err(ParseIdError::Int(e)),
        }
    }
}

impl TryFrom<u64> for Id {
    type Error = ConvertError;

    fn try_from(value: u64) -> (r: Result<Self, Self::Error>) {
        match Id::new(value) {
            Some(id) => Ok(id),
            None => Err(ConvertError),
        }
    }
}

impl vstd::std_specs::convert::TryFromSpecImpl<u64> for Id {
    open spec fn obeys_try_from_spec() -> bool {
        true
    }

    closed spec fn try_from_spec(value: u64) -> Result<Self, Self::Error> {
        if value == 0 {
            Err(ConvertError)
        } else {
            Ok(Id(value))
        }
    }
}

/// Converting a `u64` into an [`Id`] fails exactly on zero, and otherwise gives
/// the identifier that holds it.
pub proof fn lemma_try_from(value: u64)
    ensures
        <Id as vstd::std_specs::convert::TryFromSpec<u64>>::try_from_spec(value) matches Ok(id)
            ==> id@ == value,
        (<Id as vstd::std_specs::convert::TryFromSpec<u64>>::try_from_spec(value) is Err) == (value
            == 0),
{
}

impl core::str::FromStr for Id {
    type Err = ParseIdError;

    fn from_str(s: &str) -> (r: Result<Self, Self::Err>)
        ensures
            match parse_nonzero_spec(s@) {
                Ok(n) => r matches Ok(id) && id@ == n,
                Err(e) => r == Err::<Self, ParseIdError>(e),
            },
    {
        Id::from_decimal(s)
    }
}

/// Turning an identifier into one of type `T` keeps its snowflake, and turning
/// that identifier back gives the identifier that was started from.
pub proof fn law_as_id_roundtrip<T: Sealed>(id: Id)
    requires
        id@ != 0,
    ensures
        T::spec_from_snowflake(id@).snowflake() == id@,
        Id::spec_from_id(T::spec_from_snowflake(id@)) == Some(id),
{
    T::lemma_from_snowflake(id@);
}

/// The decimal notation of a nonzero snowflake reads back as that snowflake:
/// printing an [`Id`] and reading it back gives the same identifier.
pub proof fn law_id_decimal_roundtrip(n: u64)
    requires
        n != 0,
    ensures
        parse_nonzero_spec(decimal_chars(n as nat)) == Ok::<u64, ParseIdError>(n),
{
    crate::decimal::law_decimal_roundtrip(n);
}

} // verus!
