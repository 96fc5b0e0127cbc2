//! The marks that the events of a markdown parser put on a text.

use crate::markdown::text::styles::{MarkerKind, TextMarker};
use crate::markdown::text::{Link, LinkView};
use pulldown_cmark::{Event, Tag, TagEnd};
use std::ops::Range;
use vstd::prelude::*;

verus! {

/// `pulldown_cmark::Event`, an event of the markdown parser. Its inside is
/// not looked at.
#[verifier::external_type_specification]
#[verifier::external_body]
pub struct ExEvent<'a>(pulldown_cmark::Event<'a>);

/// What an event of the parser means for the marks on the text that is
/// being read.
#[derive(Debug)]
pub enum MarkerEvent {
    /// Strong text starts.
    StartStrong,
    /// Emphasised text starts.
    StartEmphasis,
    /// Struck out text starts.
    StartStrikethrough,
    /// A link to the given address starts.
    StartLink(String),
    /// Strong text ends.
    EndStrong,
    /// Emphasised text ends.
    EndEmphasis,
    /// Struck out text ends.
    EndStrikethrough,
    /// A link ends.
    EndLink,
    /// The event puts no mark on the text.
    Other,
}

/// What a [`MarkerEvent`] holds, as plain values.
pub enum MarkerMeaning {
    StartStrong,
    StartEmphasis,
    StartStrikethrough,
    StartLink(Seq<char>),
    EndStrong,
    EndEmphasis,
    EndStrikethrough,
    EndLink,
    Other,
}

impl View for MarkerEvent {
    type V = MarkerMeaning;

    open spec fn view(&self) -> MarkerMeaning {
        match *self {
            MarkerEvent::StartStrong => MarkerMeaning::StartStrong,
            MarkerEvent::StartEmphasis => MarkerMeaning::StartEmphasis,
            MarkerEvent::StartStrikethrough => MarkerMeaning::StartStrikethrough,
            MarkerEvent::StartLink(url) => MarkerMeaning::StartLink(url@),
            MarkerEvent::EndStrong => MarkerMeaning::EndStrong,
            MarkerEvent::EndEmphasis => MarkerMeaning::EndEmphasis,
            MarkerEvent::EndStrikethrough => MarkerMeaning::EndStrikethrough,
            MarkerEvent::EndLink => MarkerMeaning::EndLink,
            MarkerEvent::Other => MarkerMeaning::Other,
        }
    }
}

/// What an event of the parser means for the marks on a text.
pub uninterp spec fn event_meaning(event: Event<'_>) -> MarkerMeaning;

/// Tells the variants of `pulldown_cmark::Event` apart: the start and the
/// end of strong, emphasised and struck out text and of a link, with the
/// link's address, and everything else. What comes back is a matter of the
/// event alone; no more is claimed of it.
#[verifier::external_body]
pub(crate) fn marker_event(event: &Event<'_>) -> (meaning: MarkerEvent)
    ensures
        meaning@ == event_meaning(*event),
{
    match event {
        Event::Start(Tag::Strong) => MarkerEvent::StartStrong,
        Event::Start(Tag::Emphasis) => MarkerEvent::StartEmphasis,
        Event::Start(Tag::Strikethrough) => MarkerEvent::StartStrikethrough,
        Event::Start(Tag::Link { dest_url, .. }) => MarkerEvent::StartLink(dest_url.to_string()),
        Event::End(TagEnd::Strong) => MarkerEvent::EndStrong,
        Event::End(TagEnd::Emphasis) => MarkerEvent::EndEmphasis,
        Event::End(TagEnd::Strikethrough) => MarkerEvent::EndStrikethrough,
        Event::End(TagEnd::Link) => MarkerEvent::EndLink,
        _ => MarkerEvent::Other,
    }
}

/// What is known of the marks while a text is read: where the styles and
/// the link that are open started, and the marks and links that are
/// complete.
pub struct MarkerState {
    bold_start: usize,
    italic_start: usize,
    strikethrough_start: usize,
    markers: Vec<TextMarker>,
    links: Vec<Link>,
    link_url: String,
    link_start: usize,
}

/// What the links of a sequence hold, as plain values.
pub open spec fn link_views(links: Seq<Link>) -> Seq<LinkView> {
    links.map_values(|link: Link| link@)
}

/// What a [`MarkerState`] holds, as plain values.
pub struct MarkerStateView {
    pub bold_start: usize,
    pub italic_start: usize,
    pub strikethrough_start: usize,
    pub markers: Seq<TextMarker>,
    pub links: Seq<LinkView>,
    pub link_url: Seq<char>,
    pub link_start: usize,
}

impl View for MarkerState {
    type V = MarkerStateView;

    closed spec fn view(&self) -> MarkerStateView {
        MarkerStateView {
            bold_start: self.bold_start,
            italic_start: self.italic_start,
            strikethrough_start: self.strikethrough_start,
            markers: self.markers@,
            links: link_views(self.links@),
            link_url: self.link_url@,
            link_start: self.link_start,
        }
    }
}

/// Whether an event puts a mark on the text.
pub open spec fn is_marker(meaning: MarkerMeaning) -> bool {
    !(meaning is Other)
}

/// The state after an event that comes when the text read so far is
/// `text_end` bytes long. A start records where the style or the link
/// starts. An end completes a mark or a link, which reaches from the
/// recorded start to `text_end`; emphasised text is taken to start where
/// struck out text last started.
pub open spec fn marker_step(
    state: MarkerStateView,
    meaning: MarkerMeaning,
    text_end: usize,
) -> MarkerStateView {
    match meaning {
        MarkerMeaning::StartStrong => MarkerStateView { bold_start: text_end, ..state },
        MarkerMeaning::StartEmphasis => MarkerStateView { italic_start: text_end, ..state },
        MarkerMeaning::StartStrikethrough => MarkerStateView {
            strikethrough_start: text_end,
            ..state
        },
        MarkerMeaning::StartLink(url) => MarkerStateView {
            link_url: url,
            link_start: text_end,
            ..state
        },
        MarkerMeaning::EndStrong => MarkerStateView {
            markers: state.markers.push(
                TextMarker { start_pos: state.bold_start, end_pos: text_end, kind: MarkerKind::Bold },
            ),
            ..state
        },
        MarkerMeaning::EndEmphasis => MarkerStateView {
            markers: state.markers.push(
                TextMarker {
                    start_pos: state.strikethrough_start,
                    end_pos: text_end,
                    kind: MarkerKind::Italic,
                },
            ),
            ..state
        },
        MarkerMeaning::EndStrikethrough => MarkerStateView {
            markers: state.markers.push(
                TextMarker {
                    start_pos: state.strikethrough_start,
                    end_pos: text_end,
                    kind: MarkerKind::Strikethrough,
                },
            ),
            ..state
        },
        MarkerMeaning::EndLink => MarkerStateView {
            links: state.links.push(
                LinkView {
                    url: state.link_url,
                    index_range: Range { start: state.link_start, end: text_end },
                },
            ),
            ..state
        },
        MarkerMeaning::Other => state,
    }
}

/// The state before anything is read: no marks, no links, every start at
/// the beginning of the text.
pub open spec fn initial_state() -> MarkerStateView {
    MarkerStateView {
        bold_start: 0,
        italic_start: 0,
        strikethrough_start: 0,
        markers: Seq::empty(),
        links: Seq::empty(),
        link_url: Seq::empty(),
        link_start: 0,
    }
}

impl MarkerState {
    /// The state before anything is read.
    pub fn new() -> (state: MarkerState)
        ensures
            state@ == initial_state(),
    {
        let state = Self {
            bold_start: 0,
            italic_start: 0,
            strikethrough_start: 0,
            markers: Vec::new(),
            links: Vec::new(),
            link_url: String::new(),
            link_start: 0,
        };
        assert(state@.markers =~= Seq::empty());
        assert(state@.links =~= Seq::empty());
        state
    }

    /// Forgets the marks and links that are complete. What is open stays.
    pub fn clear(&mut self)
        ensures
            final(self)@ == (MarkerStateView {
                markers: Seq::empty(),
                links: Seq::empty(),
                ..old(self)@
            }),
    {
        self.markers.clear();
        self.links.clear();
        assert(self@.markers =~= Seq::empty());
        assert(self@.links =~= Seq::empty());
    }

    /// Takes in an event that comes when the text read so far is
    /// `text_end` bytes long, and says whether the event put a mark on the
    /// text.
    pub fn apply_marker(&mut self, event: MarkerEvent, text_end: usize) -> (handled: bool)
        ensures
            final(self)@ == marker_step(old(self)@, event@, text_end),
            handled == is_marker(event@),
    {
        match event {
            MarkerEvent::StartStrong => {
                self.bold_start = text_end;
                true
            },
            MarkerEvent::StartEmphasis => {
                self.italic_start = text_end;
                true
            },
            MarkerEvent::StartStrikethrough => {
                self.strikethrough_start = text_end;
                true
            },
            MarkerEvent::StartLink(url) => {
                self.link_url = url;
                self.link_start = text_end;
                true
            },
            MarkerEvent::EndStrong => {
                self.markers.push(
                    TextMarker { start_pos: self.bold_start, end_pos: text_end, kind: MarkerKind::Bold },
                );
                true
            },
            MarkerEvent::EndEmphasis => {
                self.markers.push(
                    TextMarker {
                        start_pos: self.strikethrough_start,
                        end_pos: text_end,
                        kind: MarkerKind::Italic,
                    },
                );
                true
            },
            MarkerEvent::EndStrikethrough => {
                self.markers.push(
                    TextMarker {
                        start_pos: self.strikethrough_start,
                        end_pos: text_end,
                        kind: MarkerKind::Strikethrough,
                    },
                );
                true
            },
            MarkerEvent::EndLink => {
                let link = Link {
                    url: self.link_url.clone(),
                    index_range: Range { start: self.link_start, end: text_end },
                };
                self.links.push(link);
                assert(self@.links =~= old(self)@.links.push(link@));
                true
            },
            MarkerEvent::Other => false,
        }
    }

    /// Takes in an event of the parser that comes when the text read so
    /// far is `text_end` bytes long, and says whether the event put a mark
    /// on the text: the state moves on by [`marker_step`] for what the event
    /// means.
    pub fn process_marker(&mut self, event: &Event<'_>, text_end: usize) -> (handled: bool)
        ensures
            final(self)@ == marker_step(old(self)@, event_meaning(*event), text_end),
            handled == is_marker(event_meaning(*event)),
    {
        let meaning = marker_event(event);
        self.apply_marker(meaning, text_end)
    }

    /// The marks that are complete.
    pub fn markers(&self) -> (markers: &Vec<TextMarker>)
        ensures
            markers@ == self@.markers,
    {
        &self.markers
    }

    /// The links that are complete.
    pub fn links(&self) -> (links: &Vec<Link>)
        ensures
            link_views(links@) == self@.links,
    {
        &self.links
    }
}

impl Default for MarkerState {
    /// The state before anything is read.
    fn default() -> (state: MarkerState)
        ensures
            state@ == initial_state(),
    {
        Self::new()
    }
}

} // verus!
