//! Properties of permission calculation that hold for every member, guild and channel.

use super::preset::{
    PERMISSIONS_MESSAGING, PERMISSIONS_ROOT_ONLY, PERMISSIONS_STAGE_ONLY, PERMISSIONS_TEXT_ONLY,
    PERMISSIONS_VOICE_ONLY,
};
use super::{
    channel_permissions, is_admin, restrict_to_kind, role_union, root_permissions, send_denied,
    view_denied, apply_everyone, member_overwrites, role_overwrites, is_everyone_overwrite,
    is_member_overwrite, is_member_role_overwrite,
};
use crate::model::{ChannelType, GuildId, PermissionOverwrite, RoleId, UserId};
use crate::permissions::{Permissions, ADMINISTRATOR, ALL_BITS};
use vstd::prelude::*;

verus! {

/// The guild's owner holds every permission in the guild.
pub proof fn law_owner_holds_everything(
    owner: UserId,
    everyone: u64,
    roles: Seq<(RoleId, Permissions)>,
)
    ensures
        root_permissions(owner, owner, everyone, roles) == ALL_BITS,
{
}

/// A member with an administrator role, or in a guild whose `@everyone` role
/// grants administrator rights, holds every permission in the guild and in
/// every channel of it, whatever the channel's overwrites.
pub proof fn law_administrator_holds_everything(
    owner: UserId,
    user: UserId,
    everyone: u64,
    roles: Seq<(RoleId, Permissions)>,
    guild: GuildId,
    kind: ChannelType,
    ovs: Seq<PermissionOverwrite>,
)
    requires
        is_admin(everyone) || exists|i: int| 0 <= i < roles.len() && is_admin(#[trigger] roles[i].1@),
    ensures
        root_permissions(owner, user, everyone, roles) == ALL_BITS,
        channel_permissions(root_permissions(owner, user, everyone, roles), guild, user, roles, kind, ovs)
            == ALL_BITS,
{
    assert(ALL_BITS & ADMINISTRATOR == ADMINISTRATOR) by (bit_vector);
}

/// Outside the owner's and the administrators' case, a member's guild
/// permissions are exactly those of `@everyone` joined with those of each of
/// the member's roles: each of them is included.
pub proof fn law_root_is_union_of_roles(
    owner: UserId,
    user: UserId,
    everyone: u64,
    roles: Seq<(RoleId, Permissions)>,
    i: int,
)
    requires
        everyone & ALL_BITS == everyone,
        0 <= i < roles.len(),
    ensures
        root_permissions(owner, user, everyone, roles) & everyone == everyone,
        root_permissions(owner, user, everyone, roles) & roles[i].1@ == roles[i].1@,
{
    let r = root_permissions(owner, user, everyone, roles);
    let p = roles[i].1@;
    roles[i].1.lemma_defined_bits();
    if r == ALL_BITS {
        lemma_all_holds(everyone);
        lemma_all_holds(p);
    } else {
        lemma_union_holds_each(roles, i);
        let u = role_union(roles);
        assert((everyone | u) & everyone == everyone) by (bit_vector);
        assert(u & p == p ==> (everyone | u) & p == p) by (bit_vector);
    }
}

proof fn lemma_all_holds(p: u64)
    requires
        p & ALL_BITS == p,
    ensures
        ALL_BITS & p == p,
{
    assert(p & ALL_BITS == p ==> ALL_BITS & p == p) by (bit_vector);
}

/// The union of the roles' permissions holds each role's permissions.
proof fn lemma_union_holds_each(roles: Seq<(RoleId, Permissions)>, i: int)
    requires
        0 <= i < roles.len(),
    ensures
        role_union(roles) & roles[i].1@ == roles[i].1@,
    decreases roles.len(),
{
    let p = roles[i].1@;
    let rest = roles.drop_last();
    let last = roles.last().1@;
    if i == roles.len() - 1 {
        let u = role_union(rest);
        assert((u | last) & last == last) by (bit_vector);
    } else {
        lemma_union_holds_each(rest, i);
        assert(rest[i] == roles[i]);
        let u = role_union(rest);
        assert(u & p == p ==> (u | last) & p == p) by (bit_vector);
    }
}

/// Narrowing to a kind of channel only takes permissions away.
pub proof fn lemma_restrict_only_removes(p: u64, kind: ChannelType)
    ensures
        restrict_to_kind(p, kind) & !p == 0,
{
    let a = PERMISSIONS_STAGE_ONLY;
    let b = PERMISSIONS_TEXT_ONLY;
    let c = PERMISSIONS_VOICE_ONLY;
    assert({
        &&& ((p & !a) & !b) & !c & !p == 0
        &&& (p & !b) & !c & !p == 0
        &&& (p & !a) & !c & !p == 0
        &&& (p & !a) & !b & !p == 0
        &&& p & !a & !p == 0
        &&& p & !b & !p == 0
        &&& p & !c & !p == 0
        &&& p & !p == 0
    }) by (bit_vector);
}

/// Unless the member is an administrator, no channel grants a permission that
/// belongs to the guild as a whole (such as banning or managing the guild).
pub proof fn law_no_guild_permission_in_channels(
    root: u64,
    guild: GuildId,
    user: UserId,
    roles: Seq<(RoleId, Permissions)>,
    kind: ChannelType,
    ovs: Seq<PermissionOverwrite>,
)
    requires
        !is_admin(root),
    ensures
        channel_permissions(root, guild, user, roles, kind, ovs) & PERMISSIONS_ROOT_ONLY == 0,
{
    let r = channel_permissions(root, guild, user, roles, kind, ovs);
    if r != 0 {
        let p = apply_everyone(root, ovs, guild);
        let ra = role_overwrites(ovs, guild, roles, true);
        let rd = role_overwrites(ovs, guild, roles, false);
        let ma = member_overwrites(ovs, user, true);
        let md = member_overwrites(ovs, user, false);
        let silenced = send_denied(ra, rd, ma, md);
        let p2 = if silenced { p & !PERMISSIONS_MESSAGING } else { p };
        let ra2 = if silenced { ra & !PERMISSIONS_MESSAGING } else { ra };
        let ma2 = if silenced { ma & !PERMISSIONS_MESSAGING } else { ma };
        let q = ((((p2 & !rd) | ra2) & !md) | ma2) & !PERMISSIONS_ROOT_ONLY;
        assert(r == restrict_to_kind(q, kind));
        lemma_restrict_only_removes(q, kind);
        let x = restrict_to_kind(q, kind);
        let y = ((((p2 & !rd) | ra2) & !md) | ma2);
        assert(x & !(y & !PERMISSIONS_ROOT_ONLY) == 0 ==> x & PERMISSIONS_ROOT_ONLY == 0)
            by (bit_vector);
    } else {
        assert(0u64 & PERMISSIONS_ROOT_ONLY == 0) by (bit_vector);
    }
}

/// Unless the member is an administrator, a channel only grants the
/// permissions that belong to its own kind: stage-only permissions only in
/// stage channels, text-only ones only in text channels, voice-only ones only
/// in voice channels.
pub proof fn law_kind_specific_permissions(
    root: u64,
    guild: GuildId,
    user: UserId,
    roles: Seq<(RoleId, Permissions)>,
    kind: ChannelType,
    ovs: Seq<PermissionOverwrite>,
)
    requires
        !is_admin(root),
    ensures
        kind != ChannelType::GuildStageVoice ==> channel_permissions(root, guild, user, roles, kind, ovs)
            & PERMISSIONS_STAGE_ONLY == 0,
        kind != ChannelType::GuildText ==> channel_permissions(root, guild, user, roles, kind, ovs)
            & PERMISSIONS_TEXT_ONLY == 0,
        kind != ChannelType::GuildVoice ==> channel_permissions(root, guild, user, roles, kind, ovs)
            & PERMISSIONS_VOICE_ONLY == 0,
{
    let r = channel_permissions(root, guild, user, roles, kind, ovs);
    let a = PERMISSIONS_STAGE_ONLY;
    let b = PERMISSIONS_TEXT_ONLY;
    let c = PERMISSIONS_VOICE_ONLY;
    assert(0u64 & a == 0 && 0u64 & b == 0 && 0u64 & c == 0) by (bit_vector);
    assert forall|q: u64| #![auto] true implies {
        &&& ((q & !a) & !b) & !c & a == 0
        &&& ((q & !a) & !b) & !c & b == 0
        &&& ((q & !a) & !b) & !c & c == 0
        &&& (q & !b) & !c & b == 0
        &&& (q & !b) & !c & c == 0
        &&& (q & !a) & !c & a == 0
        &&& (q & !a) & !c & c == 0
        &&& (q & !a) & !b & a == 0
        &&& (q & !a) & !b & b == 0
    } by {
        assert({
            &&& ((q & !a) & !b) & !c & a == 0
            &&& ((q & !a) & !b) & !c & b == 0
            &&& ((q & !a) & !b) & !c & c == 0
            &&& (q & !b) & !c & b == 0
            &&& (q & !b) & !c & c == 0
            &&& (q & !a) & !c & a == 0
            &&& (q & !a) & !c & c == 0
            &&& (q & !a) & !b & a == 0
            &&& (q & !a) & !b & b == 0
        }) by (bit_vector);
    }
}

/// When the overwrites take away viewing the channel, the member holds no
/// permission in it at all.
pub proof fn law_hidden_channel_grants_nothing(
    root: u64,
    guild: GuildId,
    user: UserId,
    roles: Seq<(RoleId, Permissions)>,
    kind: ChannelType,
    ovs: Seq<PermissionOverwrite>,
)
    requires
        !is_admin(root),
        view_denied(
            role_overwrites(ovs, guild, roles, true),
            role_overwrites(ovs, guild, roles, false),
            member_overwrites(ovs, user, true),
            member_overwrites(ovs, user, false),
        ),
    ensures
        channel_permissions(root, guild, user, roles, kind, ovs) == 0,
{
}

/// Overwrites none of which is one of the member's roles' or the member's own
/// add and take away nothing through the roles and the member.
proof fn lemma_no_member_overwrites(
    ovs: Seq<PermissionOverwrite>,
    guild: GuildId,
    user: UserId,
    roles: Seq<(RoleId, Permissions)>,
)
    requires
        forall|i: int|
            0 <= i < ovs.len() ==> !is_member_role_overwrite(#[trigger] ovs[i], guild, roles)
                && !is_member_overwrite(ovs[i], user),
    ensures
        role_overwrites(ovs, guild, roles, true) == 0,
        role_overwrites(ovs, guild, roles, false) == 0,
        member_overwrites(ovs, user, true) == 0,
        member_overwrites(ovs, user, false) == 0,
    decreases ovs.len(),
{
    if ovs.len() > 0 {
        let d = ovs.drop_last();
        assert forall|i: int| 0 <= i < d.len() implies !is_member_role_overwrite(
            #[trigger] d[i],
            guild,
            roles,
        ) && !is_member_overwrite(d[i], user) by {
            assert(d[i] == ovs[i]);
        }
        lemma_no_member_overwrites(d, guild, user, roles);
        assert(ovs.last() == ovs[ovs.len() - 1]);
    }
}

/// Narrowing to a kind of channel keeps every permission that belongs to all
/// kinds of channel.
proof fn lemma_restrict_keeps_common(p: u64, kind: ChannelType)
    ensures
        restrict_to_kind(p, kind) & !(PERMISSIONS_STAGE_ONLY | PERMISSIONS_TEXT_ONLY
            | PERMISSIONS_VOICE_ONLY) == p & !(PERMISSIONS_STAGE_ONLY | PERMISSIONS_TEXT_ONLY
            | PERMISSIONS_VOICE_ONLY),
{
    let a = PERMISSIONS_STAGE_ONLY;
    let b = PERMISSIONS_TEXT_ONLY;
    let c = PERMISSIONS_VOICE_ONLY;
    assert({
        &&& ((p & !a) & !b) & !c & !(a | b | c) == p & !(a | b | c)
        &&& (p & !b) & !c & !(a | b | c) == p & !(a | b | c)
        &&& (p & !a) & !c & !(a | b | c) == p & !(a | b | c)
        &&& (p & !a) & !b & !(a | b | c) == p & !(a | b | c)
    }) by (bit_vector);
}

/// Clearing or joining no bits changes nothing.
proof fn lemma_zero_ops(x: u64)
    ensures
        x & !0u64 == x,
        x | 0u64 == x,
        0u64 | x == x,
{
    assert(x & !0u64 == x && x | 0u64 == x && 0u64 | x == x) by (bit_vector);
}

/// What a deny without `VIEW_CHANNEL` (and without `SEND_MESSAGES`) lacks.
proof fn lemma_flag_bits(d: u64)
    ensures
        0u64 & crate::permissions::VIEW_CHANNEL != crate::permissions::VIEW_CHANNEL,
        0u64 & crate::permissions::SEND_MESSAGES != crate::permissions::SEND_MESSAGES,
        d & crate::permissions::VIEW_CHANNEL == 0 ==> d & crate::permissions::VIEW_CHANNEL
            != crate::permissions::VIEW_CHANNEL,
        d & (crate::permissions::VIEW_CHANNEL | crate::permissions::SEND_MESSAGES) == 0 ==> d
            & crate::permissions::SEND_MESSAGES != crate::permissions::SEND_MESSAGES && d
            & crate::permissions::VIEW_CHANNEL != crate::permissions::VIEW_CHANNEL,
{
    let vc = crate::permissions::VIEW_CHANNEL;
    let sm = crate::permissions::SEND_MESSAGES;
    assert(vc == 0x400u64 && sm == 0x800u64);
    assert(vc == 0x400u64 && sm == 0x800u64 ==> 0u64 & vc != vc && 0u64 & sm != sm && (d & vc
        == 0 ==> d & vc != vc) && (d & (vc | sm) == 0 ==> d & sm != sm && d & vc != vc))
        by (bit_vector);
}

/// A result `r` that holds no bit outside `q` and every bit of `q` common to
/// all kinds of channel, where `q` is `y` with `d` cleared and `a` joined and
/// the guild-wide bits cleared, holds no bit of `d` outside `a` and every bit
/// of `a` that is neither guild-wide nor kind-specific.
proof fn lemma_overwrite_result(r: u64, q: u64, y: u64, d: u64, a: u64)
    requires
        r & !q == 0,
        r & !(PERMISSIONS_STAGE_ONLY | PERMISSIONS_TEXT_ONLY | PERMISSIONS_VOICE_ONLY) == q & !(
        PERMISSIONS_STAGE_ONLY | PERMISSIONS_TEXT_ONLY | PERMISSIONS_VOICE_ONLY),
        q == ((y & !d) | a) & !PERMISSIONS_ROOT_ONLY,
    ensures
        r & (d & !a) == 0,
        r & (a & !(PERMISSIONS_ROOT_ONLY | PERMISSIONS_STAGE_ONLY | PERMISSIONS_TEXT_ONLY
            | PERMISSIONS_VOICE_ONLY)) == a & !(PERMISSIONS_ROOT_ONLY | PERMISSIONS_STAGE_ONLY
            | PERMISSIONS_TEXT_ONLY | PERMISSIONS_VOICE_ONLY),
{
    let ro = PERMISSIONS_ROOT_ONLY;
    let sa = PERMISSIONS_STAGE_ONLY;
    let ta = PERMISSIONS_TEXT_ONLY;
    let va = PERMISSIONS_VOICE_ONLY;
    assert(r & !q == 0 && r & !(sa | ta | va) == q & !(sa | ta | va) && q == ((y & !d) | a) & !ro
        ==> r & (d & !a) == 0 && r & (a & !(ro | sa | ta | va)) == a & !(ro | sa | ta | va))
        by (bit_vector);
}

/// In a channel whose only overwrites that concern a non-administrator member
/// are those of `@everyone`, ending with `ov`, the member holds none of the
/// permissions that `ov` denies without allowing them, and holds every
/// permission that `ov` allows, save those that belong to the guild as a whole
/// or to one kind of channel only.
pub proof fn law_everyone_overwrite_applies(
    root: u64,
    guild: GuildId,
    user: UserId,
    roles: Seq<(RoleId, Permissions)>,
    kind: ChannelType,
    earlier: Seq<PermissionOverwrite>,
    ov: PermissionOverwrite,
)
    requires
        !is_admin(root),
        is_everyone_overwrite(ov, guild),
        forall|i: int|
            0 <= i < earlier.len() ==> !is_member_role_overwrite(#[trigger] earlier[i], guild, roles)
                && !is_member_overwrite(earlier[i], user),
    ensures
        channel_permissions(root, guild, user, roles, kind, earlier.push(ov)) & (ov.deny@
            & !ov.allow@) == 0,
        channel_permissions(root, guild, user, roles, kind, earlier.push(ov)) & (ov.allow@
            & !(PERMISSIONS_ROOT_ONLY | PERMISSIONS_STAGE_ONLY | PERMISSIONS_TEXT_ONLY
            | PERMISSIONS_VOICE_ONLY)) == ov.allow@ & !(PERMISSIONS_ROOT_ONLY
            | PERMISSIONS_STAGE_ONLY | PERMISSIONS_TEXT_ONLY | PERMISSIONS_VOICE_ONLY),
{
    let ovs = earlier.push(ov);
    assert(ovs.drop_last() =~= earlier);
    assert forall|i: int| 0 <= i < ovs.len() implies !is_member_role_overwrite(
        #[trigger] ovs[i],
        guild,
        roles,
    ) && !is_member_overwrite(ovs[i], user) by {
        if i < earlier.len() {
            assert(ovs[i] == earlier[i]);
        }
    }
    lemma_no_member_overwrites(ovs, guild, user, roles);
    lemma_flag_bits(0);
    let base = apply_everyone(root, earlier, guild);
    let d = ov.deny@;
    let a = ov.allow@;
    let p = apply_everyone(root, ovs, guild);
    assert(p == (base & !d) | a);
    assert(!view_denied(0, 0, 0, 0));
    assert(!send_denied(0, 0, 0, 0));
    lemma_zero_ops(p);
    lemma_zero_ops(base);
    let q = ((((p & !0u64) | 0u64) & !0u64) | 0u64) & !PERMISSIONS_ROOT_ONLY;
    let r = channel_permissions(root, guild, user, roles, kind, ovs);
    assert(r == restrict_to_kind(q, kind));
    lemma_restrict_only_removes(q, kind);
    lemma_restrict_keeps_common(q, kind);
    lemma_overwrite_result(r, q, base, d, a);
}

/// In a channel whose one overwrite is the member's own, and does not take
/// away viewing the channel, a non-administrator member holds none of the
/// permissions that the overwrite denies without allowing them, and every
/// permission that it allows, save those that belong to the guild as a whole
/// or to one kind of channel only.
pub proof fn law_member_overwrite_applies(
    root: u64,
    guild: GuildId,
    user: UserId,
    roles: Seq<(RoleId, Permissions)>,
    kind: ChannelType,
    ov: PermissionOverwrite,
)
    requires
        !is_admin(root),
        is_member_overwrite(ov, user),
        ov.deny@ & crate::permissions::VIEW_CHANNEL == 0,
    ensures
        channel_permissions(root, guild, user, roles, kind, seq![ov]) & (ov.deny@ & !ov.allow@) == 0,
        channel_permissions(root, guild, user, roles, kind, seq![ov]) & (ov.allow@
            & !(PERMISSIONS_ROOT_ONLY | PERMISSIONS_STAGE_ONLY | PERMISSIONS_TEXT_ONLY
            | PERMISSIONS_VOICE_ONLY)) == ov.allow@ & !(PERMISSIONS_ROOT_ONLY
            | PERMISSIONS_STAGE_ONLY | PERMISSIONS_TEXT_ONLY | PERMISSIONS_VOICE_ONLY),
{
    let ovs = seq![ov];
    let none = Seq::<PermissionOverwrite>::empty();
    assert(ovs.drop_last() =~= none);
    assert(ovs.last() == ov);
    assert(role_overwrites(none, guild, roles, true) == 0);
    assert(role_overwrites(none, guild, roles, false) == 0);
    assert(member_overwrites(none, user, true) == 0);
    assert(member_overwrites(none, user, false) == 0);
    let d = ov.deny@;
    let a = ov.allow@;
    lemma_zero_ops(a);
    lemma_zero_ops(d);
    lemma_flag_bits(d);
    assert(role_overwrites(ovs, guild, roles, true) == 0);
    assert(role_overwrites(ovs, guild, roles, false) == 0);
    assert(member_overwrites(ovs, user, true) == a);
    assert(member_overwrites(ovs, user, false) == d);
    assert(!view_denied(0, 0, a, d));
    assert(!send_denied(0, 0, a, d));
    let p = apply_everyone(root, ovs, guild);
    lemma_zero_ops(p);
    let q = ((((p & !0u64) | 0u64) & !d) | a) & !PERMISSIONS_ROOT_ONLY;
    let r = channel_permissions(root, guild, user, roles, kind, ovs);
    assert(r == restrict_to_kind(q, kind));
    lemma_restrict_only_removes(q, kind);
    lemma_restrict_keeps_common(q, kind);
    lemma_overwrite_result(r, q, p, d, a);
}

/// In a channel whose one overwrite is that of a role the member holds, other
/// than `@everyone`, and takes away neither viewing the channel nor sending
/// messages, a non-administrator member holds none of the permissions that
/// the overwrite denies without allowing them, and every permission that it
/// allows, save those that belong to the guild as a whole or to one kind of
/// channel only.
pub proof fn law_role_overwrite_applies(
    root: u64,
    guild: GuildId,
    user: UserId,
    roles: Seq<(RoleId, Permissions)>,
    kind: ChannelType,
    ov: PermissionOverwrite,
)
    requires
        !is_admin(root),
        is_member_role_overwrite(ov, guild, roles),
        ov.deny@ & (crate::permissions::VIEW_CHANNEL | crate::permissions::SEND_MESSAGES) == 0,
    ensures
        channel_permissions(root, guild, user, roles, kind, seq![ov]) & (ov.deny@ & !ov.allow@) == 0,
        channel_permissions(root, guild, user, roles, kind, seq![ov]) & (ov.allow@
            & !(PERMISSIONS_ROOT_ONLY | PERMISSIONS_STAGE_ONLY | PERMISSIONS_TEXT_ONLY
            | PERMISSIONS_VOICE_ONLY)) == ov.allow@ & !(PERMISSIONS_ROOT_ONLY
            | PERMISSIONS_STAGE_ONLY | PERMISSIONS_TEXT_ONLY | PERMISSIONS_VOICE_ONLY),
{
    let ovs = seq![ov];
    let none = Seq::<PermissionOverwrite>::empty();
    assert(ovs.drop_last() =~= none);
    assert(ovs.last() == ov);
    assert(role_overwrites(none, guild, roles, true) == 0);
    assert(role_overwrites(none, guild, roles, false) == 0);
    assert(member_overwrites(none, user, true) == 0);
    assert(member_overwrites(none, user, false) == 0);
    let d = ov.deny@;
    let a = ov.allow@;
    lemma_zero_ops(a);
    lemma_zero_ops(d);
    lemma_flag_bits(d);
    assert(role_overwrites(ovs, guild, roles, true) == a);
    assert(role_overwrites(ovs, guild, roles, false) == d);
    assert(member_overwrites(ovs, user, true) == 0);
    assert(member_overwrites(ovs, user, false) == 0);
    assert(!view_denied(a, d, 0, 0));
    assert(!send_denied(a, d, 0, 0));
    let p = apply_everyone(root, ovs, guild);
    let y = (p & !d) | a;
    lemma_zero_ops(y);
    let q = ((((p & !d) | a) & !0u64) | 0u64) & !PERMISSIONS_ROOT_ONLY;
    let r = channel_permissions(root, guild, user, roles, kind, ovs);
    assert(r == restrict_to_kind(q, kind));
    lemma_restrict_only_removes(q, kind);
    lemma_restrict_keeps_common(q, kind);
    lemma_overwrite_result(r, q, p, d, a);
}

} // verus!