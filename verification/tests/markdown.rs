use std::path::PathBuf;

use pulldown_cmark::{CowStr, Event, LinkType, Tag, TagEnd};
use wrenched::generation::Generation;
use wrenched::markdown::elements::IndentationDecoration;
use wrenched::markdown::markdown_view;
use wrenched::markdown::parser::{MarkerEvent, MarkerState};
use wrenched::markdown::text::layouted_text::Selection;
use wrenched::markdown::text::styles::{MarkerKind, TextMarker};
use wrenched::markdown::text::Link;
use wrenched::mouse_event::Click;

fn link_start(url: &'static str) -> Event<'static> {
    Event::Start(Tag::Link {
        link_type: LinkType::Inline,
        dest_url: CowStr::Borrowed(url),
        title: CowStr::Borrowed(""),
        id: CowStr::Borrowed(""),
    })
}

#[test]
fn click_from_count() {
    assert_eq!(Click::from_count(2), Click::Double);
    assert_eq!(Click::from_count(3), Click::Tripple);
    assert_eq!(Click::from_count(1), Click::Single);
    assert_eq!(Click::from_count(0), Click::Single);
    assert_eq!(Click::from_count(4), Click::Single);
    assert_eq!(Click::from_count(u32::MAX), Click::Single);
    assert!(Click::Single < Click::Double);
    assert!(Click::Double < Click::Tripple);
}

#[test]
fn generation_nudge_gives_another_generation() {
    let mut generation = Generation::default();
    let first = generation;
    generation.nudge();
    assert_ne!(generation, first);
    let second = generation;
    generation.nudge();
    assert_ne!(generation, second);
    assert_ne!(generation, first);
}

#[test]
fn indentation_decorations_are_ordered_as_declared() {
    assert!(IndentationDecoration::Indentation < IndentationDecoration::Note);
    assert!(IndentationDecoration::Note < IndentationDecoration::Important);
    assert!(IndentationDecoration::Important < IndentationDecoration::Tip);
    assert!(IndentationDecoration::Tip < IndentationDecoration::Warning);
    assert!(IndentationDecoration::Warning < IndentationDecoration::Caution);
    assert_eq!(IndentationDecoration::Tip.clone(), IndentationDecoration::Tip);
}

#[test]
fn link_new_holds_its_arguments() {
    let link = Link::new("https://example.org".to_string(), 3..9);
    assert_eq!(link.url, "https://example.org");
    assert_eq!(link.index_range, 3..9);
    let copy = link.clone();
    assert_eq!(copy.url, "https://example.org");
    assert_eq!(copy.index_range, 3..9);
}

#[test]
fn selection_new_and_empty() {
    assert_eq!(Selection::new(2..5).indices(), 2..5);
    assert_eq!(Selection::empty().indices(), 0..0);
    assert_eq!(Selection::new(0..0), Selection::empty());
    assert_ne!(Selection::new(0..1), Selection::empty());
    assert_eq!(Selection::new(4..7).clone(), Selection::new(4..7));
}

#[test]
fn markdown_view_holds_the_path() {
    let view = markdown_view(PathBuf::from("docs/readme.md"));
    assert_eq!(view.path(), &PathBuf::from("docs/readme.md"));
}

#[test]
fn marker_state_starts_empty() {
    let state = MarkerState::new();
    assert!(state.markers().is_empty());
    assert!(state.links().is_empty());
    let mut state = MarkerState::default();
    assert!(state.markers().is_empty());
    assert!(state.links().is_empty());
    state.process_marker(&Event::End(TagEnd::Strong), 3);
    state.process_marker(&Event::End(TagEnd::Link), 5);
    assert_eq!(
        state.markers(),
        &vec![TextMarker { start_pos: 0, end_pos: 3, kind: MarkerKind::Bold }]
    );
    assert_eq!(state.links()[0].url, "");
    assert_eq!(state.links()[0].index_range, 0..5);
}

#[test]
fn marker_state_records_bold_text() {
    let mut state = MarkerState::new();
    assert!(state.process_marker(&Event::Start(Tag::Strong), 4));
    assert!(state.markers().is_empty());
    assert!(state.process_marker(&Event::End(TagEnd::Strong), 9));
    assert_eq!(
        state.markers(),
        &vec![TextMarker { start_pos: 4, end_pos: 9, kind: MarkerKind::Bold }]
    );
}

#[test]
fn marker_state_records_struck_out_text() {
    let mut state = MarkerState::new();
    assert!(state.process_marker(&Event::Start(Tag::Strikethrough), 2));
    assert!(state.process_marker(&Event::End(TagEnd::Strikethrough), 6));
    assert_eq!(
        state.markers(),
        &vec![TextMarker { start_pos: 2, end_pos: 6, kind: MarkerKind::Strikethrough }]
    );
}

#[test]
fn marker_state_starts_emphasis_where_struck_out_text_started() {
    let mut state = MarkerState::new();
    assert!(state.process_marker(&Event::Start(Tag::Strikethrough), 2));
    assert!(state.process_marker(&Event::Start(Tag::Emphasis), 5));
    assert!(state.process_marker(&Event::End(TagEnd::Emphasis), 8));
    assert_eq!(
        state.markers(),
        &vec![TextMarker { start_pos: 2, end_pos: 8, kind: MarkerKind::Italic }]
    );
}

#[test]
fn marker_state_records_links() {
    let mut state = MarkerState::new();
    assert!(state.process_marker(&link_start("https://a.example"), 3));
    assert!(state.links().is_empty());
    assert!(state.process_marker(&Event::End(TagEnd::Link), 7));
    assert_eq!(state.links().len(), 1);
    assert_eq!(state.links()[0].url, "https://a.example");
    assert_eq!(state.links()[0].index_range, 3..7);
    assert!(state.markers().is_empty());
}

#[test]
fn marker_state_leaves_other_events_alone() {
    let mut state = MarkerState::new();
    assert!(!state.process_marker(&Event::Text(CowStr::Borrowed("text")), 4));
    assert!(!state.process_marker(&Event::SoftBreak, 4));
    assert!(!state.process_marker(&Event::Start(Tag::Paragraph), 4));
    assert!(!state.process_marker(&Event::End(TagEnd::Paragraph), 4));
    assert!(!state.process_marker(&Event::Code(CowStr::Borrowed("x")), 4));
    assert!(state.markers().is_empty());
    assert!(state.links().is_empty());
}

#[test]
fn marker_state_clear_forgets_marks_and_links_only() {
    let mut state = MarkerState::new();
    state.process_marker(&Event::Start(Tag::Strong), 1);
    state.process_marker(&Event::End(TagEnd::Strong), 2);
    state.process_marker(&link_start("u"), 3);
    state.process_marker(&Event::End(TagEnd::Link), 4);
    state.process_marker(&Event::Start(Tag::Strong), 5);
    state.clear();
    assert!(state.markers().is_empty());
    assert!(state.links().is_empty());
    state.process_marker(&Event::End(TagEnd::Strong), 8);
    state.process_marker(&Event::End(TagEnd::Link), 9);
    assert_eq!(
        state.markers(),
        &vec![TextMarker { start_pos: 5, end_pos: 8, kind: MarkerKind::Bold }]
    );
    assert_eq!(state.links()[0].url, "u");
    assert_eq!(state.links()[0].index_range, 3..9);
}

#[test]
fn apply_marker_takes_the_meaning_of_an_event() {
    let mut state = MarkerState::new();
    assert!(state.apply_marker(MarkerEvent::StartStrong, 1));
    assert!(state.apply_marker(MarkerEvent::EndStrong, 3));
    assert!(state.apply_marker(MarkerEvent::StartLink("x".to_string()), 4));
    assert!(state.apply_marker(MarkerEvent::EndLink, 6));
    assert!(!state.apply_marker(MarkerEvent::Other, 6));
    assert_eq!(
        state.markers(),
        &vec![TextMarker { start_pos: 1, end_pos: 3, kind: MarkerKind::Bold }]
    );
    assert_eq!(state.links()[0].url, "x");
    assert_eq!(state.links()[0].index_range, 4..6);
}
