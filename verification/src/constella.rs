//! Values stored in another form than the one the program works with.
//!
//! A [`Transformer`] says how a value is turned into the data that is stored
//! and how it is turned back; [`Data`] holds the stored form of a value.

use crate::model::{
    ApplicationId, AttachmentId, AuditLogEntryId, ChannelId, CommandId, EmojiId, GenericId,
    GuildId, IntegrationId, InteractionId, MessageId, RoleId, StageId, UserId, WebhookId,
};
use core::marker::PhantomData;
use vstd::prelude::*;

verus! {

/// A type whose values are stored as values of `DataType`.
pub trait Transformer: Sized {
    /// The type of the stored form.
    type DataType;

    /// The stored form of `self`.
    spec fn spec_transform(&self) -> Self::DataType;

    /// The value whose stored form is `value`.
    spec fn spec_revert(value: Self::DataType) -> Self;

    /// The stored form of `self`.
    fn transform(&self) -> (r: Self::DataType)
        ensures
            r == self.spec_transform(),
    ;

    /// The value whose stored form is `value`.
    fn revert(value: &Self::DataType) -> (r: Self)
        ensures
            r == Self::spec_revert(*value),
    ;
}

/// The stored form of a value of type `T`.
#[derive(Debug, PartialEq, Eq, PartialOrd, Ord)]
pub struct Data<V, T> {
    inner: V,
    _marker: PhantomData<T>,
}

/// The stored form of a value of type `V`.
pub type DataTransformer<V> = Data<<V as Transformer>::DataType, V>;

impl<V, T> Data<V, T> {
    /// The stored data.
    pub closed spec fn view(&self) -> V {
        self.inner
    }
}

impl<V, T> Data<V, T> where T: Transformer<DataType = V> {
    /// The stored form of `value`.
    pub fn new(value: &T) -> (r: Self)
        ensures
            r@ == value.spec_transform(),
    {
        Data { inner: value.transform(), _marker: PhantomData }
    }

    /// The stored data.
    pub fn data(&self) -> (r: &V)
        ensures
            *r == self@,
    {
        &self.inner
    }

    /// The value that the stored data stands for.
    pub fn value(&self) -> (r: T)
        ensures
            r == T::spec_revert(self@),
    {
        T::revert(&self.inner)
    }
}

impl<V: Clone, T> Clone for Data<V, T> {
    fn clone(&self) -> (r: Self) {
        Data { inner: self.inner.clone(), _marker: PhantomData }
    }
}

impl<V: Copy, T> Copy for Data<V, T> {

}

impl<V, T> From<T> for Data<V, T> where T: Transformer<DataType = V> {
    fn from(value: T) -> (r: Self) {
        Data { inner: value.transform(), _marker: PhantomData }
    }
}

impl<V, T> vstd::std_specs::convert::FromSpecImpl<T> for Data<V, T> where T: Transformer<DataType = V> {
    open spec fn obeys_from_spec() -> bool {
        true
    }

    closed spec fn from_spec(value: T) -> Self {
        Data { inner: value.spec_transform(), _marker: PhantomData }
    }
}

/// The data made from a value is its stored form.
pub proof fn lemma_from_value<V, T: Transformer<DataType = V>>(value: T)
    ensures
        <Data<V, T> as vstd::std_specs::convert::FromSpec<T>>::from_spec(value)@
            == value.spec_transform(),
{
}

impl Transformer for u8 {
    type DataType = u8;

    open spec fn spec_transform(&self) -> u8 {
        *self
    }

    open spec fn spec_revert(value: u8) -> u8 {
        value
    }

    fn transform(&self) -> (r: u8) {
        *self
    }

    fn revert(value: &u8) -> (r: u8) {
        *value
    }
}

impl Transformer for u16 {
    type DataType = u16;

    open spec fn spec_transform(&self) -> u16 {
        *self
    }

    open spec fn spec_revert(value: u16) -> u16 {
        value
    }

    fn transform(&self) -> (r: u16) {
        *self
    }

    fn revert(value: &u16) -> (r: u16) {
        *value
    }
}

impl Transformer for u32 {
    type DataType = u32;

    open spec fn spec_transform(&self) -> u32 {
        *self
    }

    open spec fn spec_revert(value: u32) -> u32 {
        value
    }

    fn transform(&self) -> (r: u32) {
        *self
    }

    fn revert(value: &u32) -> (r: u32) {
        *value
    }
}

impl Transformer for u64 {
    type DataType = u64;

    open spec fn spec_transform(&self) -> u64 {
        *self
    }

    open spec fn spec_revert(value: u64) -> u64 {
        value
    }

    fn transform(&self) -> (r: u64) {
        *self
    }

    fn revert(value: &u64) -> (r: u64) {
        *value
    }
}

impl Transformer for u128 {
    type DataType = u128;

    open spec fn spec_transform(&self) -> u128 {
        *self
    }

    open spec fn spec_revert(value: u128) -> u128 {
        value
    }

    fn transform(&self) -> (r: u128) {
        *self
    }

    fn revert(value: &u128) -> (r: u128) {
        *value
    }
}

impl Transformer for i8 {
    type DataType = i8;

    open spec fn spec_transform(&self) -> i8 {
        *self
    }

    open spec fn spec_revert(value: i8) -> i8 {
        value
    }

    fn transform(&self) -> (r: i8) {
        *self
    }

    fn revert(value: &i8) -> (r: i8) {
        *value
    }
}

impl Transformer for i16 {
    type DataType = i16;

    open spec fn spec_transform(&self) -> i16 {
        *self
    }

    open spec fn spec_revert(value: i16) -> i16 {
        value
    }

    fn transform(&self) -> (r: i16) {
        *self
    }

    fn revert(value: &i16) -> (r: i16) {
        *value
    }
}

impl Transformer for i32 {
    type DataType = i32;

    open spec fn spec_transform(&self) -> i32 {
        *self
    }

    open spec fn spec_revert(value: i32) -> i32 {
        value
    }

    fn transform(&self) -> (r: i32) {
        *self
    }

    fn revert(value: &i32) -> (r: i32) {
        *value
    }
}

impl Transformer for i64 {
    type DataType = i64;

    open spec fn spec_transform(&self) -> i64 {
        *self
    }

    open spec fn spec_revert(value: i64) -> i64 {
        value
    }

    fn transform(&self) -> (r: i64) {
        *self
    }

    fn revert(value: &i64) -> (r: i64) {
        *value
    }
}

impl Transformer for i128 {
    type DataType = i128;

    open spec fn spec_transform(&self) -> i128 {
        *self
    }

    open spec fn spec_revert(value: i128) -> i128 {
        value
    }

    fn transform(&self) -> (r: i128) {
        *self
    }

    fn revert(value: &i128) -> (r: i128) {
        *value
    }
}

impl Transformer for bool {
    type DataType = bool;

    open spec fn spec_transform(&self) -> bool {
        *self
    }

    open spec fn spec_revert(value: bool) -> bool {
        value
    }

    fn transform(&self) -> (r: bool) {
        *self
    }

    fn revert(value: &bool) -> (r: bool) {
        *value
    }
}

impl Transformer for String {
    type DataType = String;

    open spec fn spec_transform(&self) -> String {
        *self
    }

    open spec fn spec_revert(value: String) -> String {
        value
    }

    fn transform(&self) -> (r: String) {
        self.clone()
    }

    fn revert(value: &String) -> (r: String) {
        value.clone()
    }
}

impl Transformer for usize {
    type DataType = u64;

    open spec fn spec_transform(&self) -> u64 {
        *self as u64
    }

    open spec fn spec_revert(value: u64) -> usize {
        value as usize
    }

    fn transform(&self) -> (r: u64) {
        *self as u64
    }

    fn revert(value: &u64) -> (r: usize) {
        *value as usize
    }
}

impl Transformer for isize {
    type DataType = i64;

    open spec fn spec_transform(&self) -> i64 {
        *self as i64
    }

    open spec fn spec_revert(value: i64) -> isize {
        value as isize
    }

    fn transform(&self) -> (r: i64) {
        *self as i64
    }

    fn revert(value: &i64) -> (r: isize) {
        *value as isize
    }
}

impl<Dt, T: Transformer<DataType = Dt>> Transformer for Option<T> {
    type DataType = Option<Dt>;

    open spec fn spec_transform(&self) -> Option<Dt> {
        match self {
            Some(v) => Some(v.spec_transform()),
            None => None,
        }
    }

    open spec fn spec_revert(value: Option<Dt>) -> Option<T> {
        match value {
            Some(v) => Some(T::spec_revert(v)),
            None => None,
        }
    }

    fn transform(&self) -> (r: Option<Dt>) {
        match self {
            Some(v) => Some(v.transform()),
            None => None,
        }
    }

    fn revert(value: &Option<Dt>) -> (r: Option<T>) {
        match value {
            Some(v) => Some(T::revert(v)),
            None => None,
        }
    }
}

impl Transformer for ApplicationId {
    type DataType = u64;

    open spec fn spec_transform(&self) -> u64 {
        self.0
    }

    open spec fn spec_revert(value: u64) -> ApplicationId {
        ApplicationId(value)
    }

    fn transform(&self) -> (r: u64) {
        self.0
    }

    fn revert(value: &u64) -> (r: ApplicationId) {
        ApplicationId(*value)
    }
}

impl Transformer for AttachmentId {
    type DataType = u64;

    open spec fn spec_transform(&self) -> u64 {
        self.0
    }

    open spec fn spec_revert(value: u64) -> AttachmentId {
        AttachmentId(value)
    }

    fn transform(&self) -> (r: u64) {
        self.0
    }

    fn revert(value: &u64) -> (r: AttachmentId) {
        AttachmentId(*value)
    }
}

impl Transformer for AuditLogEntryId {
    type DataType = u64;

    open spec fn spec_transform(&self) -> u64 {
        self.0
    }

    open spec fn spec_revert(value: u64) -> AuditLogEntryId {
        AuditLogEntryId(value)
    }

    fn transform(&self) -> (r: u64) {
        self.0
    }

    fn revert(value: &u64) -> (r: AuditLogEntryId) {
        AuditLogEntryId(*value)
    }
}

impl Transformer for ChannelId {
    type DataType = u64;

    open spec fn spec_transform(&self) -> u64 {
        self.0
    }

    open spec fn spec_revert(value: u64) -> ChannelId {
        ChannelId(value)
    }

    fn transform(&self) -> (r: u64) {
        self.0
    }

    fn revert(value: &u64) -> (r: ChannelId) {
        ChannelId(*value)
    }
}

impl Transformer for CommandId {
    type DataType = u64;

    open spec fn spec_transform(&self) -> u64 {
        self.0
    }

    open spec fn spec_revert(value: u64) -> CommandId {
        CommandId(value)
    }

    fn transform(&self) -> (r: u64) {
        self.0
    }

    fn revert(value: &u64) -> (r: CommandId) {
        CommandId(*value)
    }
}

impl Transformer for EmojiId {
    type DataType = u64;

    open spec fn spec_transform(&self) -> u64 {
        self.0
    }

    open spec fn spec_revert(value: u64) -> EmojiId {
        EmojiId(value)
    }

    fn transform(&self) -> (r: u64) {
        self.0
    }

    fn revert(value: &u64) -> (r: EmojiId) {
        EmojiId(*value)
    }
}

impl Transformer for GenericId {
    type DataType = u64;

    open spec fn spec_transform(&self) -> u64 {
        self.0
    }

    open spec fn spec_revert(value: u64) -> GenericId {
        GenericId(value)
    }

    fn transform(&self) -> (r: u64) {
        self.0
    }

    fn revert(value: &u64) -> (r: GenericId) {
        GenericId(*value)
    }
}

impl Transformer for GuildId {
    type DataType = u64;

    open spec fn spec_transform(&self) -> u64 {
        self.0
    }

    open spec fn spec_revert(value: u64) -> GuildId {
        GuildId(value)
    }

    fn transform(&self) -> (r: u64) {
        self.0
    }

    fn revert(value: &u64) -> (r: GuildId) {
        GuildId(*value)
    }
}

impl Transformer for IntegrationId {
    type DataType = u64;

    open spec fn spec_transform(&self) -> u64 {
        self.0
    }

    open spec fn spec_revert(value: u64) -> IntegrationId {
        IntegrationId(value)
    }

    fn transform(&self) -> (r: u64) {
        self.0
    }

    fn revert(value: &u64) -> (r: IntegrationId) {
        IntegrationId(*value)
    }
}

impl Transformer for InteractionId {
    type DataType = u64;

    open spec fn spec_transform(&self) -> u64 {
        self.0
    }

    open spec fn spec_revert(value: u64) -> InteractionId {
        InteractionId(value)
    }

    fn transform(&self) -> (r: u64) {
        self.0
    }

    fn revert(value: &u64) -> (r: InteractionId) {
        InteractionId(*value)
    }
}

impl Transformer for MessageId {
    type DataType = u64;

    open spec fn spec_transform(&self) -> u64 {
        self.0
    }

    open spec fn spec_revert(value: u64) -> MessageId {
        MessageId(value)
    }

    fn transform(&self) -> (r: u64) {
        self.0
    }

    fn revert(value: &u64) -> (r: MessageId) {
        MessageId(*value)
    }
}

impl Transformer for RoleId {
    type DataType = u64;

    open spec fn spec_transform(&self) -> u64 {
        self.0
    }

    open spec fn spec_revert(value: u64) -> RoleId {
        RoleId(value)
    }

    fn transform(&self) -> (r: u64) {
        self.0
    }

    fn revert(value: &u64) -> (r: RoleId) {
        RoleId(*value)
    }
}

impl Transformer for StageId {
    type DataType = u64;

    open spec fn spec_transform(&self) -> u64 {
        self.0
    }

    open spec fn spec_revert(value: u64) -> StageId {
        StageId(value)
    }

    fn transform(&self) -> (r: u64) {
        self.0
    }

    fn revert(value: &u64) -> (r: StageId) {
        StageId(*value)
    }
}

impl Transformer for UserId {
    type DataType = u64;

    open spec fn spec_transform(&self) -> u64 {
        self.0
    }

    open spec fn spec_revert(value: u64) -> UserId {
        UserId(value)
    }

    fn transform(&self) -> (r: u64) {
        self.0
    }

    fn revert(value: &u64) -> (r: UserId) {
        UserId(*value)
    }
}

impl Transformer for WebhookId {
    type DataType = u64;

    open spec fn spec_transform(&self) -> u64 {
        self.0
    }

    open spec fn spec_revert(value: u64) -> WebhookId {
        WebhookId(value)
    }

    fn transform(&self) -> (r: u64) {
        self.0
    }

    fn revert(value: &u64) -> (r: WebhookId) {
        WebhookId(*value)
    }
}

} // verus!
