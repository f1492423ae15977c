//! The search for the widget channel of a guild: the guild is fetched for the
//! identifier of its widget channel, and that channel is then looked for among
//! the text channels, the voice channels and the category channels, in turn.
//!
//! The fetches are made by the caller; [`widget_channel_step`] decides, from
//! what the last fetch answered, what to fetch next or what was found.

use crate::model::ChannelId;
use vstd::prelude::*;

verus! {

/// The kind of channel that the widget channel was found among.
#[derive(Debug, Clone, Copy, PartialEq, Eq, Structural)]
pub enum WidgetChannelKind {
    Text,
    Voice,
    Category,
}

/// The fetch that the search waits on.
#[derive(Debug, Clone, Copy, PartialEq, Eq, Structural)]
pub enum WidgetSearch {
    /// The guild, for the identifier of its widget channel.
    Guild,
    /// The text channel with this identifier.
    Text(ChannelId),
    /// The voice channel with this identifier.
    Voice(ChannelId),
    /// The category channel with this identifier.
    Category(ChannelId),
}

/// What the last fetch answered.
#[derive(Debug, Clone, Copy, PartialEq, Eq, Structural)]
pub enum FetchAnswer {
    /// The guild was fetched: `None` when the store holds no such guild, else
    /// the identifier of its widget channel, if it has one.
    Guild(Option<Option<ChannelId>>),
    /// A channel was fetched: whether the store holds it.
    Channel(bool),
    /// The fetch failed.
    Failed,
}

/// What the search does next.
#[derive(Debug, Clone, Copy, PartialEq, Eq, Structural)]
pub enum WidgetAction {
    /// Fetch this next.
    Fetch(WidgetSearch),
    /// The widget channel is the channel with this identifier, of this kind.
    Found(WidgetChannelKind, ChannelId),
    /// The guild has no widget channel that the stores hold.
    NotFound,
    /// A fetch failed, or its answer was not for the fetch that was waited on.
    Fail,
}

/// What the search does after the fetch `search` answered `answer`.
pub open spec fn widget_step(search: WidgetSearch, answer: FetchAnswer) -> WidgetAction {
    match (search, answer) {
        (WidgetSearch::Guild, FetchAnswer::Guild(Some(Some(c)))) => WidgetAction::Fetch(
            WidgetSearch::Text(c),
        ),
        (WidgetSearch::Guild, FetchAnswer::Guild(_)) => WidgetAction::NotFound,
        (WidgetSearch::Text(c), FetchAnswer::Channel(true)) => WidgetAction::Found(
            WidgetChannelKind::Text,
            c,
        ),
        (WidgetSearch::Text(c), FetchAnswer::Channel(false)) => WidgetAction::Fetch(
            WidgetSearch::Voice(c),
        ),
        (WidgetSearch::Voice(c), FetchAnswer::Channel(true)) => WidgetAction::Found(
            WidgetChannelKind::Voice,
            c,
        ),
        (WidgetSearch::Voice(c), FetchAnswer::Channel(false)) => WidgetAction::Fetch(
            WidgetSearch::Category(c),
        ),
        (WidgetSearch::Category(c), FetchAnswer::Channel(true)) => WidgetAction::Found(
            WidgetChannelKind::Category,
            c,
        ),
        (WidgetSearch::Category(c), FetchAnswer::Channel(false)) => WidgetAction::NotFound,
        _ => WidgetAction::Fail,
    }
}

/// What the search does after the fetch `search` answered `answer`: a guild
/// with a widget channel leads to the text channels, a channel missing from
/// the text channels to the voice channels and from those to the category
/// channels; a channel held ends the search with it, and a guild or widget
/// channel missing everywhere ends it with nothing.
pub fn widget_channel_step(search: WidgetSearch, answer: FetchAnswer) -> (r: WidgetAction)
    ensures
        r == widget_step(search, answer),
{
    match (search, answer) {
        (WidgetSearch::Guild, FetchAnswer::Guild(Some(Some(c)))) => WidgetAction::Fetch(
            WidgetSearch::Text(c),
        ),
        (WidgetSearch::Guild, FetchAnswer::Guild(_)) => WidgetAction::NotFound,
        (WidgetSearch::Text(c), FetchAnswer::Channel(true)) => WidgetAction::Found(
            WidgetChannelKind::Text,
            c,
        ),
        (WidgetSearch::Text(c), FetchAnswer::Channel(false)) => WidgetAction::Fetch(
            WidgetSearch::Voice(c),
        ),
        (WidgetSearch::Voice(c), FetchAnswer::Channel(true)) => WidgetAction::Found(
            WidgetChannelKind::Voice,
            c,
        ),
        (WidgetSearch::Voice(c), FetchAnswer::Channel(false)) => WidgetAction::Fetch(
            WidgetSearch::Category(c),
        ),
        (WidgetSearch::Category(c), FetchAnswer::Channel(true)) => WidgetAction::Found(
            WidgetChannelKind::Category,
            c,
        ),
        (WidgetSearch::Category(_), FetchAnswer::Channel(false)) => WidgetAction::NotFound,
        _ => WidgetAction::Fail,
    }
}

/// The action that answering each fetch of the search from the stores gives:
/// `guild` is what the guild store answers, and `in_text`, `in_voice` and
/// `in_category` whether those stores hold the widget channel.
pub open spec fn run_search(
    guild: Option<Option<ChannelId>>,
    in_text: bool,
    in_voice: bool,
    in_category: bool,
) -> WidgetAction {
    match widget_step(WidgetSearch::Guild, FetchAnswer::Guild(guild)) {
        WidgetAction::Fetch(s1) => match widget_step(s1, FetchAnswer::Channel(in_text)) {
            WidgetAction::Fetch(s2) => match widget_step(s2, FetchAnswer::Channel(in_voice)) {
                WidgetAction::Fetch(s3) => widget_step(s3, FetchAnswer::Channel(in_category)),
                other => other,
            },
            other => other,
        },
        other => other,
    }
}

/// The search finds the guild's widget channel among the first of the text,
/// voice and category stores that holds it, and finds nothing when the guild
/// or its widget channel is missing or no store holds the channel.
pub proof fn law_widget_search(
    guild: Option<Option<ChannelId>>,
    in_text: bool,
    in_voice: bool,
    in_category: bool,
)
    ensures
        run_search(guild, in_text, in_voice, in_category) == match guild {
            Some(Some(c)) => if in_text {
                WidgetAction::Found(WidgetChannelKind::Text, c)
            } else if in_voice {
                WidgetAction::Found(WidgetChannelKind::Voice, c)
            } else if in_category {
                WidgetAction::Found(WidgetChannelKind::Category, c)
            } else {
                WidgetAction::NotFound
            },
            _ => WidgetAction::NotFound,
        },
{
}

} // verus!
