use starlight::decimal::IntErrorKind;
use starlight::mention::error::ParseMentionErrorType;
use starlight::mention::fmt::Mention;
use starlight::mention::iter::MentionIter;
use starlight::mention::parse::{parse_id, ParseMention};
use starlight::mention::MentionType;
use starlight::model::{ChannelId, EmojiId, RoleId, UserId};

#[test]
fn mention_format_channel_id() {
    assert_eq!("<#123>", ChannelId(123).mention().to_string());
}

#[test]
fn mention_format_emoji_id() {
    assert_eq!("<:emoji:123>", EmojiId(123).mention().to_string());
}

#[test]
fn mention_format_role_id() {
    assert_eq!("<@&123>", RoleId(123).mention().to_string());
}

#[test]
fn mention_format_user_id() {
    assert_eq!("<@123>", UserId(123).mention().to_string());
}

#[test]
fn sigils() {
    assert_eq!(&["#"], ChannelId::sigils());
    assert_eq!(&[":"], EmojiId::sigils());
    assert_eq!(&["#", ":", "@&", "@!", "@"], MentionType::sigils());
    assert_eq!(&["@&"], RoleId::sigils());
    assert_eq!(&["@!", "@"], UserId::sigils());
}

#[test]
fn parse_channel_id() {
    assert_eq!(ChannelId(123), ChannelId::parse("<#123>").unwrap());
    assert_eq!(
        &ParseMentionErrorType::Sigil { expected: &["#"], found: Some('@') },
        ChannelId::parse("<@123>").unwrap_err().kind()
    );
}

#[test]
fn parse_emoji_id() {
    assert_eq!(EmojiId(123), EmojiId::parse("<:name:123>").unwrap());
    assert_eq!(
        &ParseMentionErrorType::Sigil { expected: &[":"], found: Some('@') },
        EmojiId::parse("<@123>").unwrap_err().kind()
    );
}

#[test]
fn parse_mention_type() {
    assert_eq!(MentionType::Channel(ChannelId(123)), MentionType::parse("<#123>").unwrap());
    assert_eq!(MentionType::Emoji(EmojiId(123)), MentionType::parse("<:name:123>").unwrap());
    assert_eq!(MentionType::Role(RoleId(123)), MentionType::parse("<@&123>").unwrap());
    assert_eq!(MentionType::User(UserId(123)), MentionType::parse("<@123>").unwrap());
    assert_eq!(
        &ParseMentionErrorType::Sigil { expected: &["#", ":", "@&", "@!", "@"], found: Some(';') },
        MentionType::parse("<;123>").unwrap_err().kind()
    );
}

#[test]
fn parse_role_id() {
    assert_eq!(RoleId(123), RoleId::parse("<@&123>").unwrap());
    assert_eq!(
        &ParseMentionErrorType::Sigil { expected: &["@&"], found: Some('@') },
        RoleId::parse("<@123>").unwrap_err().kind()
    );
}

#[test]
fn parse_user_id() {
    assert_eq!(UserId(123), UserId::parse("<@123>").unwrap());
    assert_eq!(
        &ParseMentionErrorType::IdNotU64 { found: "&123" },
        UserId::parse("<@&123>").unwrap_err().kind()
    );
}

#[test]
fn parse_id_wrong_sigil() {
    assert_eq!(
        &ParseMentionErrorType::Sigil { expected: &["@"], found: Some('#') },
        parse_id("<#123>", &["@"]).unwrap_err().kind()
    );
    assert_eq!(
        &ParseMentionErrorType::Sigil { expected: &["#"], found: None },
        parse_id("<", &["#"]).unwrap_err().kind()
    );
}

#[test]
fn parse_errors_of_each_kind() {
    assert_eq!(
        &ParseMentionErrorType::LeadingArrow { found: Some('#') },
        ChannelId::parse("#123>").unwrap_err().kind()
    );
    assert_eq!(
        &ParseMentionErrorType::LeadingArrow { found: None },
        ChannelId::parse("").unwrap_err().kind()
    );
    assert_eq!(
        &ParseMentionErrorType::TrailingArrow { found: None },
        ChannelId::parse("<#123").unwrap_err().kind()
    );
    assert_eq!(
        &ParseMentionErrorType::PartMissing { expected: 2, found: 1 },
        EmojiId::parse("<:name123>").unwrap_err().kind()
    );
    let err = ChannelId::parse("<#12a>").unwrap_err();
    assert_eq!(&ParseMentionErrorType::IdNotU64 { found: "12a" }, err.kind());
    assert_eq!(err.into_source(), Some(IntErrorKind::InvalidDigit));
    let (kind, source) = ChannelId::parse("<#99999999999999999999>").unwrap_err().into_parts();
    assert_eq!(kind, ParseMentionErrorType::IdNotU64 { found: "99999999999999999999" });
    assert_eq!(source, Some(IntErrorKind::PosOverflow));
}

#[test]
fn parse_user_nickname_sigil() {
    assert_eq!(UserId(7), UserId::parse("<@!7>").unwrap());
    assert_eq!(MentionType::User(UserId(7)), MentionType::parse("<@!7>").unwrap());
}

#[test]
fn parse_error_messages() {
    let err = ChannelId::parse("<@123>").unwrap_err();
    assert_eq!(err.to_string(), "expected to find a mention sigil ('#') but instead found '@'");
    let err = MentionType::parse("<;1>").unwrap_err();
    assert_eq!(
        err.to_string(),
        "expected to find a mention sigil ('#', ':', '@&', '@!', '@') but instead found ';'"
    );
    assert_eq!(
        ChannelId::parse("x").unwrap_err().to_string(),
        "expected to find a leading arrow ('<') but instead found 'x'"
    );
    assert_eq!(
        ChannelId::parse("<#1").unwrap_err().to_string(),
        "expected to find a trailing arrow ('>') but instead found nothing"
    );
    assert_eq!(
        EmojiId::parse("<:a1>").unwrap_err().to_string(),
        "expected 2 parts but only found 1"
    );
    assert_eq!(
        ChannelId::parse("<#a>").unwrap_err().to_string(),
        "id portion ('a') of mention is not a u64"
    );
}

#[test]
fn formatted_mentions_parse_back() {
    for id in [0u64, 1, 9, 10, 123, u64::MAX] {
        assert_eq!(ChannelId(id), ChannelId::parse(&ChannelId(id).mention().to_string()).unwrap());
        assert_eq!(EmojiId(id), EmojiId::parse(&EmojiId(id).mention().to_string()).unwrap());
        assert_eq!(RoleId(id), RoleId::parse(&RoleId(id).mention().to_string()).unwrap());
        assert_eq!(UserId(id), UserId::parse(&UserId(id).mention().to_string()).unwrap());
    }
}

#[test]
fn mention_type_prints_its_id() {
    assert_eq!(MentionType::Role(RoleId(42)).to_string(), "42");
}

#[test]
fn iterate_mentions() {
    let buf = "hi <#1> and <@2>, not <#x> but <#30>";
    let mut iter: MentionIter<'_, ChannelId> = ChannelId::iter(buf);
    assert_eq!(iter.as_str(), buf);
    assert_eq!(iter.next(), Some((ChannelId(1), 3, 6)));
    assert_eq!(iter.next(), Some((ChannelId(30), 31, 35)));
    assert_eq!(iter.next(), None);
    let mut users = MentionIter::<UserId>::new(buf);
    assert_eq!(users.next(), Some((UserId(2), 12, 15)));
    assert_eq!(users.next(), None);
}

#[test]
fn mention_through_a_reference() {
    let id = UserId(42);
    let by_ref: &UserId = &id;
    assert_eq!("<@42>", Mention::<UserId>::mention(&by_ref).to_string());
    let channel = ChannelId(9);
    assert_eq!("<#9>", Mention::<ChannelId>::mention(&&channel).to_string());
}
