//! The entity of the user that the bot is logged in as.

use super::Entity;
use crate::cache::source::CurrentUser;
use crate::model::UserId;
use twilight_model::user::PremiumType;
use vstd::prelude::*;

verus! {

/// The user that the bot is logged in as.
#[derive(Debug, Clone, PartialEq, Eq)]
pub struct CurrentUserEntity {
    pub avatar: Option<String>,
    pub bot: bool,
    pub discriminator: String,
    pub email: Option<String>,
    pub flags: Option<u64>,
    pub id: UserId,
    pub mfa_enabled: bool,
    pub name: String,
    pub premium_type: Option<PremiumType>,
    pub public_flags: Option<u64>,
    pub verified: Option<bool>,
}

/// The entity of the current user.
impl From<CurrentUser> for CurrentUserEntity {
    fn from(user: CurrentUser) -> (r: Self) {
        CurrentUserEntity {
            avatar: user.avatar,
            bot: user.bot,
            discriminator: user.discriminator,
            email: user.email,
            flags: user.flags,
            id: user.id,
            mfa_enabled: user.mfa_enabled,
            name: user.name,
            premium_type: user.premium_type,
            public_flags: user.public_flags,
            verified: user.verified,
        }
    }
}

impl vstd::std_specs::convert::FromSpecImpl<CurrentUser> for CurrentUserEntity {
    open spec fn obeys_from_spec() -> bool {
        true
    }

    open spec fn from_spec(user: CurrentUser) -> Self {
        CurrentUserEntity {
            avatar: user.avatar,
            bot: user.bot,
            discriminator: user.discriminator,
            email: user.email,
            flags: user.flags,
            id: user.id,
            mfa_enabled: user.mfa_enabled,
            name: user.name,
            premium_type: user.premium_type,
            public_flags: user.public_flags,
            verified: user.verified,
        }
    }
}

impl Entity for CurrentUserEntity {
    type Id = UserId;

    open spec fn spec_id(&self) -> UserId {
        self.id
    }

    fn id(&self) -> (r: UserId) {
        self.id
    }
}

} // verus!
