use starlight::args::Id as ArgId;
use starlight::constella::{Data, Transformer};
use starlight::decimal::IntErrorKind;
use starlight::model::{ChannelId, GenericId, GuildId, UserId};
use starlight::nebula::id::{ConvertError, Id as NonZeroId, ParseIdError};
use starlight::nebula::leak::Leak;
use starlight::nebula::snowflake::{Id, IdKey};

#[test]
fn persistent_embedded() {
    let value = Id::default();
    let wrapper = Data::from(value);
    assert_eq!(*wrapper.data(), 0);
}

#[test]
fn data_gives_the_value_back() {
    let data: Data<u64, ChannelId> = Data::new(&ChannelId(77));
    assert_eq!(*data.data(), 77);
    assert_eq!(data.value(), ChannelId(77));
    let key: IdKey = Data::new(&Id(5));
    assert_eq!(key.value(), Id(5));
    let copy = key;
    assert_eq!(*copy.data(), 5);
}

#[test]
fn test_default() {
    let val: ArgId<GenericId> = Default::default();
    assert_eq!(val, ArgId::from(0));
}

#[test]
fn parse() {
    let id = "10".parse::<ArgId<GenericId>>().unwrap();
    assert_eq!(*id, GenericId(10));
}

#[test]
fn argument_errors_and_text() {
    assert_eq!("".parse::<ArgId<UserId>>().unwrap_err(), IntErrorKind::Empty);
    assert_eq!("1x".parse::<ArgId<UserId>>().unwrap_err(), IntErrorKind::InvalidDigit);
    assert_eq!(
        "18446744073709551616".parse::<ArgId<UserId>>().unwrap_err(),
        IntErrorKind::PosOverflow
    );
    assert_eq!(*"+7".parse::<ArgId<UserId>>().unwrap(), UserId(7));
    assert_eq!(ArgId::<ChannelId>::from(42).to_string(), "42");
}

#[test]
fn nonzero_ids() {
    assert!(NonZeroId::new(0).is_none());
    let id = NonZeroId::new(12).unwrap();
    assert_eq!(id.get(), 12);
    assert_eq!(id.as_id::<ChannelId>(), ChannelId(12));
    assert_eq!(id.to_string(), "12");
    assert_eq!(NonZeroId::try_from(0u64), Err(ConvertError));
    assert_eq!(NonZeroId::try_from(9u64).unwrap().get(), 9);
    assert_eq!(ConvertError.to_string(), "could not convert the u64 to an Id");
}

#[test]
fn nonzero_ids_from_text() {
    assert_eq!("0".parse::<NonZeroId>(), Err(ParseIdError::Zero));
    assert_eq!("".parse::<NonZeroId>(), Err(ParseIdError::Int(IntErrorKind::Empty)));
    assert_eq!("-1".parse::<NonZeroId>(), Err(ParseIdError::Int(IntErrorKind::InvalidDigit)));
    assert_eq!("345".parse::<NonZeroId>().unwrap().get(), 345);
    let id = NonZeroId::new(u64::MAX).unwrap();
    assert_eq!(id.to_string().parse::<NonZeroId>().unwrap(), id);
}

#[test]
fn snowflake_ids() {
    let id = Id::new(7);
    assert_eq!(id.as_u64(), 7);
    assert_eq!(*id, 7);
    assert_eq!(id.as_id::<GuildId>(), GuildId(7));
    assert_eq!(u64::from(Id::from(8u64)), 8);
    assert_eq!(Id::as_id_key(UserId(9)).value(), Id(9));
    assert_eq!(*Id::as_id_key(UserId(9)).data(), 9);
    assert_eq!("31".parse::<Id>().unwrap(), Id(31));
    assert_eq!(Id(31).to_string(), "31");
    assert_eq!(Id::revert(&Id(4).transform()), Id(4));
}

#[test]
fn transformers_keep_values() {
    assert_eq!(u8::revert(&200u8.transform()), 200);
    assert_eq!(i64::revert(&(-3i64).transform()), -3);
    assert_eq!(bool::revert(&true.transform()), true);
    assert_eq!(String::revert(&"x".to_string().transform()), "x");
    assert_eq!(usize::revert(&5usize.transform()), 5);
    assert_eq!(Option::<u32>::revert(&Some(3u32).transform()), Some(3));
    assert_eq!(ChannelId::revert(&ChannelId(3).transform()), ChannelId(3));
}

#[test]
fn leaked_values_live_on() {
    let r: &'static String = Leak::leak("kept".to_string());
    assert_eq!(r, "kept");
    let n: &'static u32 = 5u32.leak();
    assert_eq!(*n, 5);
}

#[test]
fn nonzero_ids_from_typed_ids() {
    let id = NonZeroId::new(12).unwrap();
    assert_eq!(NonZeroId::from_id(id.as_id::<ChannelId>()), Some(id));
    assert_eq!(NonZeroId::from_id(id.as_id::<UserId>()), Some(id));
    assert_eq!(NonZeroId::from_id(GuildId(40)).unwrap().get(), 40);
    assert_eq!(NonZeroId::from_id(GenericId(0)), None);
    assert_eq!(NonZeroId::new_unchecked(5).get(), 5);
}
