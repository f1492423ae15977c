//! Calculation of a guild member's permissions, in the guild and in a channel.
//!
//! A member's guild-level ("root") permissions are those of the `@everyone`
//! role joined with those of each of the member's roles; the guild owner and any
//! administrator hold every permission. In a channel, the channel's permission
//! overwrites then take permissions away and grant them, in this order: the
//! `@everyone` overwrite, the overwrites of the member's roles, and the member's
//! own overwrite.

pub mod bitops;
pub mod laws;
pub mod preset;

use self::preset::{
    PERMISSIONS_MESSAGING, PERMISSIONS_ROOT_ONLY, PERMISSIONS_STAGE_ONLY, PERMISSIONS_TEXT_ONLY,
    PERMISSIONS_VOICE_ONLY,
};
use crate::model::{ChannelType, GuildId, PermissionOverwrite, PermissionOverwriteType, RoleId, UserId};
use crate::permissions::{Permissions, ADMINISTRATOR, ALL_BITS, SEND_MESSAGES, VIEW_CHANNEL};
use vstd::prelude::*;

verus! {

/// Whether `bits` holds every bit of `flag`.
pub open spec fn has_bits(bits: u64, flag: u64) -> bool {
    bits & flag == flag
}

/// Whether a permission set grants administrator rights.
pub open spec fn is_admin(bits: u64) -> bool {
    has_bits(bits, ADMINISTRATOR)
}

/// The union of the permissions of the given roles.
pub open spec fn role_union(roles: Seq<(RoleId, Permissions)>) -> u64
    decreases roles.len(),
{
    if roles.len() == 0 {
        0
    } else {
        role_union(roles.drop_last()) | roles.last().1@
    }
}

/// Whether one of the given roles grants administrator rights.
pub open spec fn some_role_is_admin(roles: Seq<(RoleId, Permissions)>) -> bool {
    exists|i: int| 0 <= i < roles.len() && is_admin(#[trigger] roles[i].1@)
}

/// Whether the member holds the role `role`.
pub open spec fn has_role(roles: Seq<(RoleId, Permissions)>, role: RoleId) -> bool {
    exists|i: int| 0 <= i < roles.len() && (#[trigger] roles[i]).0 == role
}

/// A member's permissions in the guild as a whole.
pub open spec fn root_permissions(
    owner: UserId,
    user: UserId,
    everyone: u64,
    roles: Seq<(RoleId, Permissions)>,
) -> u64 {
    if owner == user || is_admin(everyone) || some_role_is_admin(roles) {
        ALL_BITS
    } else {
        everyone | role_union(roles)
    }
}

/// Whether an overwrite is the one of the `@everyone` role, whose id is the guild's.
pub open spec fn is_everyone_overwrite(ov: PermissionOverwrite, guild: GuildId) -> bool {
    ov.kind matches PermissionOverwriteType::Role(role) && role.0 == guild.0
}

/// Whether an overwrite is the one of a role, other than `@everyone`, that the member holds.
pub open spec fn is_member_role_overwrite(
    ov: PermissionOverwrite,
    guild: GuildId,
    roles: Seq<(RoleId, Permissions)>,
) -> bool {
    ov.kind matches PermissionOverwriteType::Role(role) && role.0 != guild.0 && has_role(
        roles,
        role,
    )
}

/// Whether an overwrite is the member's own.
pub open spec fn is_member_overwrite(ov: PermissionOverwrite, user: UserId) -> bool {
    ov.kind matches PermissionOverwriteType::Member(id) && id.0 == user.0
}

/// `base` after the `@everyone` overwrites among `ovs` are applied in order.
pub open spec fn apply_everyone(base: u64, ovs: Seq<PermissionOverwrite>, guild: GuildId) -> u64
    decreases ovs.len(),
{
    if ovs.len() == 0 {
        base
    } else {
        let p = apply_everyone(base, ovs.drop_last(), guild);
        let ov = ovs.last();
        if is_everyone_overwrite(ov, guild) {
            (p & !ov.deny@) | ov.allow@
        } else {
            p
        }
    }
}

/// The union of what the overwrites of the member's roles allow (`allow`) or deny.
pub open spec fn role_overwrites(
    ovs: Seq<PermissionOverwrite>,
    guild: GuildId,
    roles: Seq<(RoleId, Permissions)>,
    allow: bool,
) -> u64
    decreases ovs.len(),
{
    if ovs.len() == 0 {
        0
    } else {
        let acc = role_overwrites(ovs.drop_last(), guild, roles, allow);
        let ov = ovs.last();
        if is_member_role_overwrite(ov, guild, roles) {
            acc | (if allow {
                ov.allow@
            } else {
                ov.deny@
            })
        } else {
            acc
        }
    }
}

/// The union of what the member's own overwrites allow (`allow`) or deny.
pub open spec fn member_overwrites(ovs: Seq<PermissionOverwrite>, user: UserId, allow: bool) -> u64
    decreases ovs.len(),
{
    if ovs.len() == 0 {
        0
    } else {
        let acc = member_overwrites(ovs.drop_last(), user, allow);
        let ov = ovs.last();
        if is_member_overwrite(ov, user) {
            acc | (if allow {
                ov.allow@
            } else {
                ov.deny@
            })
        } else {
            acc
        }
    }
}

/// `p` without the permissions that belong to other kinds of channel than `kind`.
pub open spec fn restrict_to_kind(p: u64, kind: ChannelType) -> u64 {
    let p = if kind != ChannelType::GuildStageVoice {
        p & !PERMISSIONS_STAGE_ONLY
    } else {
        p
    };
    let p = if kind != ChannelType::GuildText {
        p & !PERMISSIONS_TEXT_ONLY
    } else {
        p
    };
    if kind != ChannelType::GuildVoice {
        p & !PERMISSIONS_VOICE_ONLY
    } else {
        p
    }
}

/// Whether the overwrites take away viewing the channel: a denial of
/// `VIEW_CHANNEL` by the roles' or the member's overwrites that the same
/// overwrites do not also allow.
pub open spec fn view_denied(role_allow: u64, role_deny: u64, member_allow: u64, member_deny: u64) -> bool {
    (has_bits(role_deny, VIEW_CHANNEL) && !has_bits(role_allow, VIEW_CHANNEL)) || (has_bits(
        member_deny,
        VIEW_CHANNEL,
    ) && !has_bits(member_allow, VIEW_CHANNEL))
}

/// Whether the overwrites take away sending messages. For the member's own
/// overwrite the denial looked at is that of `VIEW_CHANNEL`.
pub open spec fn send_denied(role_allow: u64, role_deny: u64, member_allow: u64, member_deny: u64) -> bool {
    (has_bits(role_deny, SEND_MESSAGES) && !has_bits(role_allow, SEND_MESSAGES)) || (has_bits(
        member_deny,
        VIEW_CHANNEL,
    ) && !has_bits(member_allow, SEND_MESSAGES))
}

/// A member's permissions in a channel of kind `kind` with overwrites `ovs`,
/// given the member's root permissions `root`.
pub open spec fn channel_permissions(
    root: u64,
    guild: GuildId,
    user: UserId,
    roles: Seq<(RoleId, Permissions)>,
    kind: ChannelType,
    ovs: Seq<PermissionOverwrite>,
) -> u64 {
    if is_admin(root) {
        ALL_BITS
    } else {
        let p = apply_everyone(root, ovs, guild);
        let ra = role_overwrites(ovs, guild, roles, true);
        let rd = role_overwrites(ovs, guild, roles, false);
        let ma = member_overwrites(ovs, user, true);
        let md = member_overwrites(ovs, user, false);
        if view_denied(ra, rd, ma, md) {
            0
        } else {
            let silenced = send_denied(ra, rd, ma, md);
            let p = if silenced {
                p & !PERMISSIONS_MESSAGING
            } else {
                p
            };
            let ra = if silenced {
                ra & !PERMISSIONS_MESSAGING
            } else {
                ra
            };
            let ma = if silenced {
                ma & !PERMISSIONS_MESSAGING
            } else {
                ma
            };
            restrict_to_kind(((((p & !rd) | ra) & !md) | ma) & !PERMISSIONS_ROOT_ONLY, kind)
        }
    }
}

/// Calculates the permissions of one member of a guild.
#[derive(Debug, Clone, PartialEq, Eq)]
pub struct PermissionCalculator<'a> {
    everyone_role: Permissions,
    guild_id: GuildId,
    member_roles: &'a [(RoleId, Permissions)],
    owner_id: UserId,
    user_id: UserId,
}

impl<'a> PermissionCalculator<'a> {
    /// The permissions of the `@everyone` role.
    pub closed spec fn everyone(self) -> u64 {
        self.everyone_role@
    }

    /// The guild.
    pub closed spec fn guild(self) -> GuildId {
        self.guild_id
    }

    /// The member's roles with their permissions.
    pub closed spec fn roles(self) -> Seq<(RoleId, Permissions)> {
        self.member_roles@
    }

    /// The guild's owner.
    pub closed spec fn owner(self) -> UserId {
        self.owner_id
    }

    /// The member.
    pub closed spec fn user(self) -> UserId {
        self.user_id
    }

    /// The member's permissions in the guild as a whole.
    pub open spec fn spec_root(self) -> u64 {
        root_permissions(self.owner(), self.user(), self.everyone(), self.roles())
    }

    /// A calculator for the member `user_id` of the guild `guild_id`, with the
    /// permissions of the `@everyone` role and of each of the member's roles.
    /// The owner is taken to be the user with id 0 until `owner_id` sets it.
    pub fn new(
        guild_id: GuildId,
        user_id: UserId,
        everyone_role: Permissions,
        member_roles: &'a [(RoleId, Permissions)],
    ) -> (r: Self)
        ensures
            r.everyone() == everyone_role@,
            r.guild() == guild_id,
            r.roles() == member_roles@,
            r.owner() == UserId(0),
            r.user() == user_id,
    {
        Self { everyone_role, guild_id, owner_id: UserId(0), member_roles, user_id }
    }

    /// The calculator with the guild's owner set to `owner_id`.
    pub fn owner_id(self, owner_id: UserId) -> (r: Self)
        ensures
            r.everyone() == self.everyone(),
            r.guild() == self.guild(),
            r.roles() == self.roles(),
            r.owner() == owner_id,
            r.user() == self.user(),
    {
        let mut s = self;
        s.owner_id = owner_id;
        s
    }

    /// The member's permissions in the guild as a whole.
    pub fn root(&self) -> (r: Permissions)
        ensures
            r@ == self.spec_root(),
    {
        if self.owner_id.0 == self.user_id.0 {
            return Permissions::all();
        }
        let admin = Permissions::from_bits_truncate(ADMINISTRATOR);
        assert(ADMINISTRATOR & ALL_BITS == ADMINISTRATOR) by (bit_vector);
        if self.everyone_role.contains(admin) {
            return Permissions::all();
        }
        let mut permissions = self.everyone_role;
        let member_role_count = self.member_roles.len();
        let mut idx: usize = 0;
        let ghost roles = self.member_roles@;
        proof {
            let e = self.everyone_role@;
            assert(roles.take(0).len() == 0);
            assert(e | 0 == e) by (bit_vector);
        }
        while idx < member_role_count
            invariant
                roles == self.member_roles@,
                member_role_count == roles.len(),
                idx <= member_role_count,
                admin@ == ADMINISTRATOR,
                self.owner_id != self.user_id,
                !is_admin(self.everyone_role@),
                forall|j: int| 0 <= j < idx ==> !is_admin(#[trigger] roles[j].1@),
                permissions@ == self.everyone_role@ | role_union(roles.take(idx as int)),
            decreases member_role_count - idx,
        {
            let (_, role_permissions) = self.member_roles[idx];
            if role_permissions.contains(admin) {
                assert(is_admin(roles[idx as int].1@));
                return Permissions::all();
            }
            let ghost before = permissions@;
            permissions = bitops::insert(permissions, role_permissions);
            proof {
                let t = roles.take(idx + 1);
                assert(t.drop_last() =~= roles.take(idx as int));
                assert(t.last() == roles[idx as int]);
                let e = self.everyone_role@;
                let u = role_union(roles.take(idx as int));
                let r = role_permissions@;
                assert((e | u) | r == e | (u | r)) by (bit_vector);
            }
            idx += 1;
        }
        assert(roles.take(member_role_count as int) =~= roles);
        permissions
    }

    /// The member's permissions in a channel of kind `channel_type` whose
    /// permission overwrites are `channel_overwrites`.
    pub fn in_channel(
        self,
        channel_type: ChannelType,
        channel_overwrites: &[PermissionOverwrite],
    ) -> (r: Permissions)
        ensures
            r@ == channel_permissions(
                self.spec_root(),
                self.guild(),
                self.user(),
                self.roles(),
                channel_type,
                channel_overwrites@,
            ),
    {
        let mut permissions = self.root();
        let admin = Permissions::from_bits_truncate(ADMINISTRATOR);
        let view_channel = Permissions::from_bits_truncate(VIEW_CHANNEL);
        let send_messages = Permissions::from_bits_truncate(SEND_MESSAGES);
        let messaging = Permissions::from_bits_truncate(PERMISSIONS_MESSAGING);
        let root_only = Permissions::from_bits_truncate(PERMISSIONS_ROOT_ONLY);
        let stage_only = Permissions::from_bits_truncate(PERMISSIONS_STAGE_ONLY);
        let text_only = Permissions::from_bits_truncate(PERMISSIONS_TEXT_ONLY);
        let voice_only = Permissions::from_bits_truncate(PERMISSIONS_VOICE_ONLY);
        assert(ADMINISTRATOR & ALL_BITS == ADMINISTRATOR) by (bit_vector);
        assert(VIEW_CHANNEL & ALL_BITS == VIEW_CHANNEL) by (bit_vector);
        assert(SEND_MESSAGES & ALL_BITS == SEND_MESSAGES) by (bit_vector);
        assert(PERMISSIONS_MESSAGING & ALL_BITS == PERMISSIONS_MESSAGING) by (bit_vector);
        assert(PERMISSIONS_ROOT_ONLY & ALL_BITS == PERMISSIONS_ROOT_ONLY) by (bit_vector);
        assert(PERMISSIONS_STAGE_ONLY & ALL_BITS == PERMISSIONS_STAGE_ONLY) by (bit_vector);
        assert(PERMISSIONS_TEXT_ONLY & ALL_BITS == PERMISSIONS_TEXT_ONLY) by (bit_vector);
        assert(PERMISSIONS_VOICE_ONLY & ALL_BITS == PERMISSIONS_VOICE_ONLY) by (bit_vector);

        if permissions.contains(admin) {
            return Permissions::all();
        }

        let mut member_allow = Permissions::empty();
        let mut member_deny = Permissions::empty();
        let mut roles_allow = Permissions::empty();
        let mut roles_deny = Permissions::empty();

        let channel_overwrite_len = channel_overwrites.len();
        let mut idx: usize = 0;
        let ghost ovs = channel_overwrites@;
        let ghost root = self.spec_root();
        let ghost guild = self.guild_id;
        let ghost user = self.user_id;
        let ghost roles = self.member_roles@;

        while idx < channel_overwrite_len
            invariant
                ovs == channel_overwrites@,
                channel_overwrite_len == ovs.len(),
                idx <= channel_overwrite_len,
                guild == self.guild_id,
                user == self.user_id,
                roles == self.member_roles@,
                permissions@ == apply_everyone(root, ovs.take(idx as int), guild),
                roles_allow@ == role_overwrites(ovs.take(idx as int), guild, roles, true),
                roles_deny@ == role_overwrites(ovs.take(idx as int), guild, roles, false),
                member_allow@ == member_overwrites(ovs.take(idx as int), user, true),
                member_deny@ == member_overwrites(ovs.take(idx as int), user, false),
            decreases channel_overwrite_len - idx,
        {
            let overwrite = channel_overwrites[idx];
            proof {
                let t = ovs.take(idx + 1);
                assert(t.drop_last() =~= ovs.take(idx as int));
                assert(t.last() == ovs[idx as int]);
            }
            match overwrite.kind {
                PermissionOverwriteType::Role(role) => {
                    if role.0 == self.guild_id.0 {
                        permissions = bitops::remove(permissions, overwrite.deny);
                        permissions = bitops::insert(permissions, overwrite.allow);
                    } else if member_has_role(self.member_roles, role) {
                        roles_allow = bitops::insert(roles_allow, overwrite.allow);
                        roles_deny = bitops::insert(roles_deny, overwrite.deny);
                    }
                },
                PermissionOverwriteType::Member(user_id) => {
                    if user_id.0 == self.user_id.0 {
                        member_allow = bitops::insert(member_allow, overwrite.allow);
                        member_deny = bitops::insert(member_deny, overwrite.deny);
                    }
                },
            }
            idx += 1;
        }
        assert(ovs.take(channel_overwrite_len as int) =~= ovs);

        let role_view_channel_denied = roles_deny.contains(view_channel) && !roles_allow.contains(
            view_channel,
        );
        let member_view_channel_denied = member_deny.contains(view_channel)
            && !member_allow.contains(view_channel);
        if member_view_channel_denied || role_view_channel_denied {
            return Permissions::empty();
        }

        let role_send_messages_denied = roles_deny.contains(send_messages)
            && !roles_allow.contains(send_messages);
        let member_send_messages_denied = member_deny.contains(view_channel)
            && !member_allow.contains(send_messages);
        if member_send_messages_denied || role_send_messages_denied {
            member_allow = bitops::remove(member_allow, messaging);
            roles_allow = bitops::remove(roles_allow, messaging);
            permissions = bitops::remove(permissions, messaging);
        }

        permissions = bitops::remove(permissions, roles_deny);
        permissions = bitops::insert(permissions, roles_allow);
        permissions = bitops::remove(permissions, member_deny);
        permissions = bitops::insert(permissions, member_allow);
        permissions = bitops::remove(permissions, root_only);

        if !matches!(channel_type, ChannelType::GuildStageVoice) {
            permissions = bitops::remove(permissions, stage_only);
        }
        if !matches!(channel_type, ChannelType::GuildText) {
            permissions = bitops::remove(permissions, text_only);
        }
        if !matches!(channel_type, ChannelType::GuildVoice) {
            permissions = bitops::remove(permissions, voice_only);
        }
        permissions
    }
}


/// Whether the member holds the role `role_id`.
pub fn member_has_role(member_roles: &[(RoleId, Permissions)], role_id: RoleId) -> (r: bool)
    ensures
        r == has_role(member_roles@, role_id),
{
    let len = member_roles.len();
    let mut idx: usize = 0;
    while idx < len
        invariant
            len == member_roles@.len(),
            idx <= len,
            forall|j: int| 0 <= j < idx ==> (#[trigger] member_roles@[j]).0 != role_id,
        decreases len - idx,
    {
        let (iter_role_id, _) = member_roles[idx];
        if iter_role_id.0 == role_id.0 {
            assert(member_roles@[idx as int].0 == role_id);
            return true;
        }
        idx += 1;
    }
    false
}

} // verus!
