//! The markdown parser and renderer, seen through the few things the
//! compiler reads of an event.

use vstd::prelude::*;
use vstd::string::*;
use pulldown_cmark::{Event, Options, Parser, Tag, TagEnd};
use crate::compiler::image_destinations;
use crate::text::texts;

verus! {

/// What the compiler reads of one parser event.
#[derive(Debug)]
pub enum MdEvent {
    /// An image begins; its destination as written in the source.
    ImageStart(String),
    /// A run of literal text.
    Text(String),
    /// An inline code span.
    Code(String),
    SoftBreak,
    HardBreak,
    /// A paragraph ends.
    ParagraphEnd,
    /// A list item ends.
    ItemEnd,
    /// Any other event.
    Other,
}

/// An event as character sequences.
pub enum MdEventView {
    ImageStart(Seq<char>),
    Text(Seq<char>),
    Code(Seq<char>),
    SoftBreak,
    HardBreak,
    ParagraphEnd,
    ItemEnd,
    Other,
}

impl View for MdEvent {
    type V = MdEventView;

    open spec fn view(&self) -> MdEventView {
        match self {
            MdEvent::ImageStart(dest) => MdEventView::ImageStart(dest@),
            MdEvent::Text(text) => MdEventView::Text(text@),
            MdEvent::Code(code) => MdEventView::Code(code@),
            MdEvent::SoftBreak => MdEventView::SoftBreak,
            MdEvent::HardBreak => MdEventView::HardBreak,
            MdEvent::ParagraphEnd => MdEventView::ParagraphEnd,
            MdEvent::ItemEnd => MdEventView::ItemEnd,
            MdEvent::Other => MdEventView::Other,
        }
    }
}

/// The views of a list of events.
pub open spec fn event_views(events: Seq<MdEvent>) -> Seq<MdEventView> {
    events.map_values(|event: MdEvent| event@)
}

/// Parser option: pipe tables.
pub const ENABLE_TABLES: u32 = 2;

/// Parser option: `~~strikethrough~~`.
pub const ENABLE_STRIKETHROUGH: u32 = 8;

/// The events that the parser yields for `source` under the options whose
/// bits are set in `option_bits`, each reduced to what [`MdEvent`] holds.
pub uninterp spec fn markdown_events(source: Seq<char>, option_bits: u32) -> Seq<MdEventView>;

/// The HTML that the renderer writes for the events of `source`, after the
/// image that comes k-th in them has taken `destinations[k]` as its
/// destination.
pub uninterp spec fn rendered_html(
    source: Seq<char>,
    option_bits: u32,
    destinations: Seq<Seq<char>>,
) -> Seq<char>;

/// Runs `pulldown_cmark::Parser::new_ext` over `source` and hands each
/// event out as an [`MdEvent`]. Not proved: that the events are a function
/// of the source and the options, and that an empty source has none.
#[verifier::external_body]
pub(crate) fn parse_events(source: &str, option_bits: u32) -> (events: Vec<MdEvent>)
    ensures
        event_views(events@) == markdown_events(source@, option_bits),
        source@.len() == 0 ==> events@.len() == 0,
{
    let options = Options::from_bits_truncate(option_bits);
    Parser::new_ext(source, options).map(|event| match event {
        Event::Start(Tag::Image { dest_url, .. }) => MdEvent::ImageStart(dest_url.to_string()),
        Event::Text(text) => MdEvent::Text(text.to_string()),
        Event::Code(code) => MdEvent::Code(code.to_string()),
        Event::SoftBreak => MdEvent::SoftBreak,
        Event::HardBreak => MdEvent::HardBreak,
        Event::End(TagEnd::Paragraph) => MdEvent::ParagraphEnd,
        Event::End(TagEnd::Item) => MdEvent::ItemEnd,
        _ => MdEvent::Other,
    }).collect()
}

/// Runs `pulldown_cmark::html::push_html` over the events of `source`, with
/// the destinations of its images replaced in order by `destinations`, of
/// which there is one for each image. Not proved: that the HTML is a
/// function of the three arguments, and that an empty source renders to
/// nothing.
#[verifier::external_body]
pub(crate) fn render_html(source: &str, option_bits: u32, destinations: &Vec<String>) -> (html:
    String)
    requires
        destinations@.len() == image_destinations(markdown_events(source@, option_bits)).len(),
    ensures
        html@ == rendered_html(source@, option_bits, texts(destinations@)),
        source@.len() == 0 ==> html@.len() == 0,
{
    let mut next = destinations.iter();
    let options = Options::from_bits_truncate(option_bits);
    let events = Parser::new_ext(source, options).map(|event| match event {
        Event::Start(Tag::Image { link_type, dest_url, title, id }) => {
            let dest_url = next.next().map_or(dest_url, |dest| dest.clone().into());
            Event::Start(Tag::Image { link_type, dest_url, title, id })
        },
        other => other,
    });
    let mut html = String::new();
    pulldown_cmark::html::push_html(&mut html, events);
    html
}

} // verus!
