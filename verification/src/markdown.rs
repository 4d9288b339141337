//! Reading a page as Markdown: the events of the document, its heading and its links.
use vstd::prelude::*;

verus! {

use crate::page_laws::law_links_are_all_the_destinations;

/// The Markdown parser of `pulldown_cmark`, an iterator over the events of one document.
#[verifier::external_type_specification]
#[verifier::external_body]
#[verifier::reject_recursive_types(F)]
pub struct ExParser<'input, F>(pulldown_cmark::Parser<'input, F>);

/// The broken-link callback of a `pulldown_cmark` parser that was made without one.
#[verifier::external_type_specification]
#[verifier::external_body]
pub struct ExDefaultBrokenLinkCallback(pulldown_cmark::DefaultBrokenLinkCallback);

/// What the browser tells apart among the events of a Markdown document.
pub enum MarkdownEvent {
    /// A heading of any level begins.
    HeadingStart,
    /// A heading of any level ends.
    HeadingEnd,
    /// A link begins; this is its destination.
    LinkStart(String),
    /// A run of text.
    Text(String),
    /// Any other event.
    Other,
}

/// The mathematical value of a [`MarkdownEvent`].
pub enum EventView {
    HeadingStart,
    HeadingEnd,
    LinkStart(Seq<char>),
    Text(Seq<char>),
    Other,
}

impl View for MarkdownEvent {
    type V = EventView;

    open spec fn view(&self) -> EventView {
        match *self {
            MarkdownEvent::HeadingStart => EventView::HeadingStart,
            MarkdownEvent::HeadingEnd => EventView::HeadingEnd,
            MarkdownEvent::LinkStart(url) => EventView::LinkStart(url@),
            MarkdownEvent::Text(text) => EventView::Text(text@),
            MarkdownEvent::Other => EventView::Other,
        }
    }
}

/// The values of a list of events.
pub open spec fn event_views(events: Seq<MarkdownEvent>) -> Seq<EventView> {
    events.map_values(|event: MarkdownEvent| event@)
}

/// The values of a list of strings.
pub open spec fn string_views(strings: Seq<String>) -> Seq<Seq<char>> {
    strings.map_values(|s: String| s@)
}

/// The events of a Markdown document, in document order, as `pulldown_cmark` reports them with no
/// extension enabled.
pub uninterp spec fn markdown_events(text: Seq<char>) -> Seq<EventView>;

/// The events that a parser has yet to report.
pub uninterp spec fn events_left(parser: pulldown_cmark::Parser<'_>) -> Seq<EventView>;

/// Calls `pulldown_cmark::Parser::new_ext` with no options, which is also what
/// `pulldown_cmark::Parser::new` does.
///
/// Claimed: the parser that comes back has the events of the document before it, and these are
/// a function of the text alone.
#[verifier::external_body]
fn parser_new<'a>(text: &'a str) -> (parser: pulldown_cmark::Parser<'a>)
    ensures
        events_left(parser) == markdown_events(text@),
{
    pulldown_cmark::Parser::new_ext(text, pulldown_cmark::Options::empty())
}

/// Calls `next` of `pulldown_cmark::Parser` and keeps of the event what a [`MarkdownEvent`] holds.
///
/// Claimed: while events are left, the first of them comes out and the others stay; when none is
/// left, nothing comes out. What a parser does after it has returned `None` is not described.
#[verifier::external_body]
fn parser_next(parser: &mut pulldown_cmark::Parser<'_>) -> (event: Option<MarkdownEvent>)
    ensures
        event is Some <==> events_left(*old(parser)).len() > 0,
        event is Some ==> event->0@ == events_left(*old(parser)).first(),
        event is Some ==> events_left(*final(parser)) == events_left(*old(parser)).drop_first(),
{
    match parser.next() {
        None => None,
        Some(pulldown_cmark::Event::Start(pulldown_cmark::Tag::Heading { .. })) => Some(MarkdownEvent::HeadingStart),
        Some(pulldown_cmark::Event::End(pulldown_cmark::TagEnd::Heading(_))) => Some(MarkdownEvent::HeadingEnd),
        Some(pulldown_cmark::Event::Start(pulldown_cmark::Tag::Link { dest_url, .. })) =>
            Some(MarkdownEvent::LinkStart(dest_url.into_string())),
        Some(pulldown_cmark::Event::Text(text)) => Some(MarkdownEvent::Text(text.into_string())),
        Some(_) => Some(MarkdownEvent::Other),
    }
}

/// All the events of a document.
pub fn parse_markdown(text: &str) -> (events: Vec<MarkdownEvent>)
    ensures
        event_views(events@) == markdown_events(text@),
{
    let mut parser = parser_new(text);
    let mut events: Vec<MarkdownEvent> = Vec::new();
    let ghost all = markdown_events(text@);
    loop
        invariant_except_break
            event_views(events@) + events_left(parser) == all,
        ensures
            event_views(events@) == all,
        decreases events_left(parser).len(),
    {
        let ghost left = events_left(parser);
        let ghost before = events@;
        match parser_next(&mut parser) {
            Some(event) => {
                events.push(event);
                assert(event_views(events@) == event_views(before).push(event@));
                assert(left == seq![event@] + left.drop_first());
            },
            None => {
                assert(event_views(before) + left == event_views(before));
                break;
            },
        }
    }
    events
}

/// The events that follow the first start of a heading; none where no heading starts.
pub open spec fn after_heading_start(events: Seq<EventView>) -> Seq<EventView>
    decreases events.len(),
{
    if events.len() == 0 {
        Seq::empty()
    } else if events.first() is HeadingStart {
        events.drop_first()
    } else {
        after_heading_start(events.drop_first())
    }
}

/// The text before the first end of a heading, all of it where no heading ends, with the pieces
/// joined.
pub open spec fn text_to_heading_end(events: Seq<EventView>) -> Seq<char>
    decreases events.len(),
{
    if events.len() == 0 || events.first() is HeadingEnd {
        Seq::empty()
    } else if events.first() is Text {
        events.first()->Text_0 + text_to_heading_end(events.drop_first())
    } else {
        text_to_heading_end(events.drop_first())
    }
}

/// The text of the first heading of a document.
pub open spec fn heading_of(events: Seq<EventView>) -> Seq<char> {
    text_to_heading_end(after_heading_start(events))
}

/// The destinations of the links of a document, in document order and with repetitions.
pub open spec fn links_of(events: Seq<EventView>) -> Seq<Seq<char>>
    decreases events.len(),
{
    if events.len() == 0 {
        Seq::empty()
    } else if events.last() is LinkStart {
        links_of(events.drop_last()).push(events.last()->LinkStart_0)
    } else {
        links_of(events.drop_last())
    }
}

/// The text of the first heading among `events`.
pub fn heading_of_events(events: &Vec<MarkdownEvent>) -> (heading: String)
    ensures
        heading@ == heading_of(event_views(events@)),
{
    let mut heading = String::new();
    let mut in_heading = false;
    let ghost all = event_views(events@);
    let mut i: usize = 0;
    assert(all.skip(0) == all);
    while i < events.len()
        invariant_except_break
            i <= events.len(),
            all == event_views(events@),
            in_heading ==> heading_of(all) == heading@ + text_to_heading_end(all.skip(i as int)),
            !in_heading ==> heading@.len() == 0,
            !in_heading ==> after_heading_start(all) == after_heading_start(all.skip(i as int)),
        ensures
            heading@ == heading_of(all),
        decreases events.len() - i,
    {
        let ghost rest = all.skip(i as int);
        assert(rest.first() == events@[i as int]@);
        assert(rest.drop_first() == all.skip(i + 1));
        match &events[i] {
            MarkdownEvent::HeadingStart => {
                in_heading = true;
            },
            MarkdownEvent::HeadingEnd => {
                if in_heading {
                    break;
                }
            },
            MarkdownEvent::Text(text) => {
                if in_heading {
                    heading.append(text.as_str());
                }
            },
            _ => {},
        }
        i += 1;
    }
    heading
}

/// The destinations of the links among `events`.
pub fn links_of_events(events: &Vec<MarkdownEvent>) -> (links: Vec<String>)
    ensures
        string_views(links@) == links_of(event_views(events@)),
        string_views(links@) == event_views(events@).filter(
            |e: EventView| e is LinkStart,
        ).map_values(|e: EventView| e->LinkStart_0),
{
    let mut links: Vec<String> = Vec::new();
    let ghost all = event_views(events@);
    let mut i: usize = 0;
    while i < events.len()
        invariant
            i <= events.len(),
            all == event_views(events@),
            string_views(links@) == links_of(all.take(i as int)),
        decreases events.len() - i,
    {
        let ghost seen = all.take(i + 1);
        let ghost before = links@;
        assert(seen.last() == events@[i as int]@);
        assert(seen.drop_last() == all.take(i as int));
        if let MarkdownEvent::LinkStart(url) = &events[i] {
            links.push(url.clone());
            assert(string_views(links@) == string_views(before).push(url@));
        }
        i += 1;
    }
    assert(all.take(all.len() as int) == all);
    proof {
        law_links_are_all_the_destinations(all);
    }
    links
}

/// The text of the first heading of a page; empty where the page has none.
pub fn get_heading(contents: String) -> (heading: String)
    ensures
        heading@ == heading_of(markdown_events(contents@)),
{
    let events = parse_markdown(contents.as_str());
    heading_of_events(&events)
}

} // verus!
