//! The keys under which a key-value store keeps the cache's entities: the tag
//! of the kind of entity, a colon, and the decimal notation of the entity's
//! identifier, its parts separated by colons.

use super::entity::channel::{
    AttachmentEntity, CategoryChannelEntity, GroupEntity, MessageEntity, PrivateChannelEntity,
    VoiceChannelEntity,
};
use super::entity::gateway::PresenceEntity;
use super::entity::guild::{EmojiEntity, GuildEntity, MemberEntity, RoleEntity};
use super::entity::user::CurrentUserEntity;
use super::entity::voice::VoiceStateEntity;
use super::entity::Entity;
use crate::decimal::{decimal_chars, digit_char, is_digit, law_decimal_roundtrip, parse_u64_spec};
use crate::model::{
    AttachmentId, ChannelId, EmojiId, GuildId, MessageId, RoleId, UserId,
};
use crate::text::{first_index_of, lemma_first_index_of};
use vstd::prelude::*;

verus! {

/// The byte of an ASCII character.
pub open spec fn ascii_byte(c: char) -> u8 {
    (c as u32) as u8
}

/// The bytes of the decimal notation of `n`.
pub open spec fn decimal_bytes(n: nat) -> Seq<u8> {
    decimal_chars(n).map_values(|c: char| ascii_byte(c))
}

/// The key of an entity of the kind `tag` whose identifier is `n`.
pub open spec fn single_key(tag: Seq<u8>, n: u64) -> Seq<u8> {
    tag + seq![58u8] + decimal_bytes(n as nat)
}

/// The key of an entity of the kind `tag` whose identifier is the pair of
/// `a` and `b`.
pub open spec fn pair_key(tag: Seq<u8>, a: u64, b: u64) -> Seq<u8> {
    tag + seq![58u8] + decimal_bytes(a as nat) + seq![58u8] + decimal_bytes(b as nat)
}

/// An entity that a key-value store keeps under a key made from its identifier.
pub trait UnqliteEntity: Entity {
    /// The tag of the kind of entity.
    spec fn tag() -> Seq<u8>;

    /// The key of the entity whose identifier is `id`.
    spec fn spec_key(id: Self::Id) -> Seq<u8>;

    /// The key of the entity whose identifier is `id`.
    fn key(id: Self::Id) -> (r: Vec<u8>)
        ensures
            r@ == Self::spec_key(id),
    ;
}

/// An entity of which a key-value store keeps at most one, under a fixed key.
pub trait UnqliteSingleEntity: Entity {
    /// The key of the entity.
    spec fn spec_key() -> Seq<u8>;

    /// The key of the entity.
    fn key() -> (r: &'static [u8])
        ensures
            r@ == Self::spec_key(),
    ;
}

/// The digit `d` as an ASCII byte.
proof fn lemma_digit_byte(d: int)
    requires
        0 <= d < 10,
    ensures
        ascii_byte(digit_char(d)) == 48 + d,
{
}

/// Appends the bytes of the decimal notation of `n` to `v`.
fn push_decimal_bytes(v: &mut Vec<u8>, n: u64)
    ensures
        final(v)@ == old(v)@ + decimal_bytes(n as nat),
    decreases n,
{
    if n >= 10 {
        push_decimal_bytes(v, n / 10);
    }
    let d = (n % 10) as u8;
    proof {
        lemma_digit_byte(d as int);
    }
    v.push(48u8 + d);
    proof {
        if n < 10 {
            assert(n % 10 == n);
            assert(decimal_bytes(n as nat) =~= seq![ascii_byte(digit_char(n as int))]);
        } else {
            assert(decimal_bytes(n as nat) =~= decimal_bytes((n / 10) as nat).push(
                ascii_byte(digit_char((n % 10) as int)),
            ));
        }
    }
    assert(final(v)@ =~= old(v)@ + decimal_bytes(n as nat));
}

/// The key of an entity of the kind `tag` whose identifier is `n`.
fn make_single_key(tag: &[u8], n: u64) -> (r: Vec<u8>)
    ensures
        r@ == single_key(tag@, n),
{
    let mut v: Vec<u8> = Vec::new();
    let mut i: usize = 0;
    while i < tag.len()
        invariant
            i <= tag@.len(),
            v@ == tag@.take(i as int),
        decreases tag.len() - i,
    {
        v.push(tag[i]);
        proof {
            assert(tag@.take(i + 1) =~= tag@.take(i as int).push(tag@[i as int]));
        }
        i += 1;
    }
    assert(tag@.take(tag@.len() as int) =~= tag@);
    v.push(58u8);
    push_decimal_bytes(&mut v, n);
    assert(v@ =~= single_key(tag@, n));
    v
}

/// The key of an entity of the kind `tag` whose identifier is the pair of `a`
/// and `b`.
fn make_pair_key(tag: &[u8], a: u64, b: u64) -> (r: Vec<u8>)
    ensures
        r@ == pair_key(tag@, a, b),
{
    let mut v = make_single_key(tag, a);
    v.push(58u8);
    push_decimal_bytes(&mut v, b);
    assert(v@ =~= pair_key(tag@, a, b));
    v
}

impl UnqliteEntity for AttachmentEntity {
    open spec fn tag() -> Seq<u8> {
        seq![97u8, 116u8]
    }

    open spec fn spec_key(id: AttachmentId) -> Seq<u8> {
        single_key(Self::tag(), id.0)
    }

    fn key(id: AttachmentId) -> (r: Vec<u8>) {
        let tag: [u8; 2] = [97u8, 116u8];
        make_single_key(&tag, id.0)
    }
}

impl UnqliteEntity for CategoryChannelEntity {
    open spec fn tag() -> Seq<u8> {
        seq![99u8, 99u8]
    }

    open spec fn spec_key(id: ChannelId) -> Seq<u8> {
        single_key(Self::tag(), id.0)
    }

    fn key(id: ChannelId) -> (r: Vec<u8>) {
        let tag: [u8; 2] = [99u8, 99u8];
        make_single_key(&tag, id.0)
    }
}

impl UnqliteEntity for EmojiEntity {
    open spec fn tag() -> Seq<u8> {
        seq![101u8, 109u8]
    }

    open spec fn spec_key(id: EmojiId) -> Seq<u8> {
        single_key(Self::tag(), id.0)
    }

    fn key(id: EmojiId) -> (r: Vec<u8>) {
        let tag: [u8; 2] = [101u8, 109u8];
        make_single_key(&tag, id.0)
    }
}

impl UnqliteEntity for GroupEntity {
    open spec fn tag() -> Seq<u8> {
        seq![103u8, 114u8]
    }

    open spec fn spec_key(id: ChannelId) -> Seq<u8> {
        single_key(Self::tag(), id.0)
    }

    fn key(id: ChannelId) -> (r: Vec<u8>) {
        let tag: [u8; 2] = [103u8, 114u8];
        make_single_key(&tag, id.0)
    }
}

impl UnqliteEntity for GuildEntity {
    open spec fn tag() -> Seq<u8> {
        seq![103u8]
    }

    open spec fn spec_key(id: GuildId) -> Seq<u8> {
        single_key(Self::tag(), id.0)
    }

    fn key(id: GuildId) -> (r: Vec<u8>) {
        let tag: [u8; 1] = [103u8];
        make_single_key(&tag, id.0)
    }
}

impl UnqliteEntity for MemberEntity {
    open spec fn tag() -> Seq<u8> {
        seq![109u8]
    }

    open spec fn spec_key(id: (GuildId, UserId)) -> Seq<u8> {
        pair_key(Self::tag(), id.0.0, id.1.0)
    }

    fn key(id: (GuildId, UserId)) -> (r: Vec<u8>) {
        let tag: [u8; 1] = [109u8];
        make_pair_key(&tag, id.0.0, id.1.0)
    }
}

impl UnqliteEntity for MessageEntity {
    open spec fn tag() -> Seq<u8> {
        seq![109u8, 115u8]
    }

    open spec fn spec_key(id: MessageId) -> Seq<u8> {
        single_key(Self::tag(), id.0)
    }

    fn key(id: MessageId) -> (r: Vec<u8>) {
        let tag: [u8; 2] = [109u8, 115u8];
        make_single_key(&tag, id.0)
    }
}

impl UnqliteEntity for PresenceEntity {
    open spec fn tag() -> Seq<u8> {
        seq![112u8, 114u8]
    }

    open spec fn spec_key(id: (GuildId, UserId)) -> Seq<u8> {
        pair_key(Self::tag(), id.0.0, id.1.0)
    }

    fn key(id: (GuildId, UserId)) -> (r: Vec<u8>) {
        let tag: [u8; 2] = [112u8, 114u8];
        make_pair_key(&tag, id.0.0, id.1.0)
    }
}

impl UnqliteEntity for PrivateChannelEntity {
    open spec fn tag() -> Seq<u8> {
        seq![99u8, 112u8]
    }

    open spec fn spec_key(id: ChannelId) -> Seq<u8> {
        single_key(Self::tag(), id.0)
    }

    fn key(id: ChannelId) -> (r: Vec<u8>) {
        let tag: [u8; 2] = [99u8, 112u8];
        make_single_key(&tag, id.0)
    }
}

impl UnqliteEntity for RoleEntity {
    open spec fn tag() -> Seq<u8> {
        seq![114u8]
    }

    open spec fn spec_key(id: RoleId) -> Seq<u8> {
        single_key(Self::tag(), id.0)
    }

    fn key(id: RoleId) -> (r: Vec<u8>) {
        let tag: [u8; 1] = [114u8];
        make_single_key(&tag, id.0)
    }
}

impl UnqliteEntity for VoiceChannelEntity {
    open spec fn tag() -> Seq<u8> {
        seq![99u8, 118u8]
    }

    open spec fn spec_key(id: ChannelId) -> Seq<u8> {
        single_key(Self::tag(), id.0)
    }

    fn key(id: ChannelId) -> (r: Vec<u8>) {
        let tag: [u8; 2] = [99u8, 118u8];
        make_single_key(&tag, id.0)
    }
}

impl UnqliteEntity for VoiceStateEntity {
    open spec fn tag() -> Seq<u8> {
        seq![118u8]
    }

    open spec fn spec_key(id: (GuildId, UserId)) -> Seq<u8> {
        pair_key(Self::tag(), id.0.0, id.1.0)
    }

    fn key(id: (GuildId, UserId)) -> (r: Vec<u8>) {
        let tag: [u8; 1] = [118u8];
        make_pair_key(&tag, id.0.0, id.1.0)
    }
}

impl UnqliteSingleEntity for CurrentUserEntity {
    open spec fn spec_key() -> Seq<u8> {
        seq![117u8, 99u8]
    }

    fn key() -> (r: &'static [u8]) {
        let r: &'static [u8] = &[117u8, 99u8];
        assert(r@ =~= seq![117u8, 99u8]);
        r
    }
}

/// The decimal notation of a number holds digits only, so never a colon.
proof fn lemma_decimal_bytes_digits(n: nat)
    ensures
        forall|i: int|
            0 <= i < decimal_bytes(n).len() ==> 48 <= #[trigger] decimal_bytes(n)[i] <= 57,
        decimal_bytes(n).len() == decimal_chars(n).len(),
{
    crate::decimal::lemma_decimal_digits(n);
    assert forall|i: int| 0 <= i < decimal_bytes(n).len() implies 48 <= #[trigger] decimal_bytes(
        n,
    )[i] <= 57 by {
        assert(is_digit(decimal_chars(n)[i]));
    }
}

/// Two numbers with the same decimal bytes are the same number.
proof fn lemma_decimal_bytes_injective(a: u64, b: u64)
    requires
        decimal_bytes(a as nat) == decimal_bytes(b as nat),
    ensures
        a == b,
{
    let da = decimal_chars(a as nat);
    let db = decimal_chars(b as nat);
    crate::decimal::lemma_decimal_digits(a as nat);
    crate::decimal::lemma_decimal_digits(b as nat);
    assert(decimal_bytes(a as nat).len() == da.len());
    assert(decimal_bytes(b as nat).len() == db.len());
    assert forall|i: int| 0 <= i < da.len() implies da[i] == db[i] by {
        assert(is_digit(da[i]) && is_digit(db[i]));
        assert(ascii_byte(da[i]) == decimal_bytes(a as nat)[i]);
        assert(ascii_byte(db[i]) == decimal_bytes(b as nat)[i]);
    }
    assert(da =~= db);
    law_decimal_roundtrip(a);
    law_decimal_roundtrip(b);
}

/// Two entities of one kind with single identifiers have the same key only
/// when they have the same identifier.
pub proof fn law_single_keys_injective(tag: Seq<u8>, a: u64, b: u64)
    requires
        single_key(tag, a) == single_key(tag, b),
    ensures
        a == b,
{
    let k: int = tag.len() as int + 1;
    assert(single_key(tag, a).skip(k) =~= decimal_bytes(a as nat));
    assert(single_key(tag, b).skip(k) =~= decimal_bytes(b as nat));
    lemma_decimal_bytes_injective(a, b);
}

/// Two entities of one kind whose identifiers are pairs have the same key
/// only when they have the same identifier.
pub proof fn law_pair_keys_injective(tag: Seq<u8>, a1: u64, b1: u64, a2: u64, b2: u64)
    requires
        pair_key(tag, a1, b1) == pair_key(tag, a2, b2),
    ensures
        a1 == a2,
        b1 == b2,
{
    let k: int = tag.len() as int + 1;
    let d1 = decimal_bytes(a1 as nat);
    let d2 = decimal_bytes(a2 as nat);
    let s1 = pair_key(tag, a1, b1).skip(k);
    let s2 = pair_key(tag, a2, b2).skip(k);
    assert(s1 =~= d1 + seq![58u8] + decimal_bytes(b1 as nat));
    assert(s2 =~= d2 + seq![58u8] + decimal_bytes(b2 as nat));
    lemma_decimal_bytes_digits(a1 as nat);
    lemma_decimal_bytes_digits(a2 as nat);
    if d1.len() < d2.len() {
        assert(s1[d1.len() as int] == 58u8);
        assert(s2[d1.len() as int] == d2[d1.len() as int]);
    } else if d2.len() < d1.len() {
        assert(s2[d2.len() as int] == 58u8);
        assert(s1[d2.len() as int] == d1[d2.len() as int]);
    }
    assert(d1.len() == d2.len());
    assert(s1.take(d1.len() as int) =~= d1);
    assert(s2.take(d2.len() as int) =~= d2);
    lemma_decimal_bytes_injective(a1, a2);
    let m: int = d1.len() as int + 1;
    assert(s1.skip(m) =~= decimal_bytes(b1 as nat));
    assert(s2.skip(m) =~= decimal_bytes(b2 as nat));
    lemma_decimal_bytes_injective(b1, b2);
}

/// Keys of two kinds of entities with different tags, neither holding a
/// colon, never collide, whatever follows the tags.
pub proof fn law_keys_of_kinds_differ(t1: Seq<u8>, t2: Seq<u8>, r1: Seq<u8>, r2: Seq<u8>)
    requires
        t1 != t2,
        forall|i: int| 0 <= i < t1.len() ==> t1[i] != 58u8,
        forall|i: int| 0 <= i < t2.len() ==> t2[i] != 58u8,
    ensures
        t1 + seq![58u8] + r1 != t2 + seq![58u8] + r2,
{
    let k1 = t1 + seq![58u8] + r1;
    let k2 = t2 + seq![58u8] + r2;
    if k1 == k2 {
        if t1.len() < t2.len() {
            assert(k1[t1.len() as int] == 58u8);
            assert(k2[t1.len() as int] == t2[t1.len() as int]);
        } else if t2.len() < t1.len() {
            assert(k2[t2.len() as int] == 58u8);
            assert(k1[t2.len() as int] == t1[t2.len() as int]);
        } else {
            assert(k1.take(t1.len() as int) =~= t1);
            assert(k2.take(t2.len() as int) =~= t2);
        }
    }
}

} // verus!
