//! What holds of locations, pages and links.
use vstd::prelude::*;

verus! {

use crate::links::{clicked, unclicked};
use crate::location::{
    guest_file,
    names_wasm,
    page_for,
    request_for,
    Request,
    RequestView,
};
use crate::markdown::{
    after_heading_start,
    event_views,
    heading_of,
    links_of,
    string_views,
    text_to_heading_end,
    EventView,
    MarkdownEvent,
};

/// Whatever stands before the ending, a location that ends in `.wasm` names a guest.
pub proof fn law_the_ending_makes_a_guest(stem: Seq<char>)
    ensures
        names_wasm(stem + seq!['.', 'w', 'a', 's', 'm']),
{
    reveal_strlit(".wasm");
    let location = stem + seq!['.', 'w', 'a', 's', 'm'];
    assert(location.subrange(location.len() - 5, location.len() as int) =~= ".wasm"@);
}

/// Only a location that ends in `.wasm` names a guest: one that does is what stands before that
/// ending, and then the ending.
pub proof fn law_only_the_ending_makes_a_guest(location: Seq<char>)
    requires
        names_wasm(location),
    ensures
        location.len() >= 5,
        location.take(location.len() - 5) + seq!['.', 'w', 'a', 's', 'm'] == location,
{
    reveal_strlit(".wasm");
    let ending = location.subrange(location.len() - 5, location.len() as int);
    assert(ending =~= seq!['.', 'w', 'a', 's', 'm']);
    assert(location.take(location.len() - 5) + ending =~= location);
}

/// What is fetched is the location itself, letter for letter: as a guest where it names one, else
/// as a page.
pub proof fn law_the_location_itself_is_fetched(location: Seq<char>)
    ensures
        names_wasm(location) ==> request_for(location) == RequestView::DownloadWasm(location),
        !names_wasm(location) ==> request_for(location) == RequestView::LoadPage(location),
{
}

/// The page shown is the text of the reply, all of it; a failure is shown as a notice, the same
/// for every failure.
pub proof fn law_the_reply_is_the_page(text: String, failure: String)
    ensures
        page_for(Ok(text)) == text@,
        page_for(Err(failure)) == "Failed to load page"@,
{
}

/// The file of a guest is named as a guest is.
pub proof fn law_guest_file_names_a_guest()
    ensures
        guest_file() == "downloaded.wasm"@,
        names_wasm(guest_file()),
{
    reveal_strlit(".wasm");
    reveal_strlit("downloaded.wasm");
    assert("downloaded.wasm"@.subrange(10, 15) =~= ".wasm"@);
}

/// A request stands for its kind and its location.
pub proof fn law_request_value(url: String)
    ensures
        Request::DownloadWasm(url)@ == RequestView::DownloadWasm(url@),
        Request::LoadPage(url)@ == RequestView::LoadPage(url@),
{
}

/// An event stands for its kind and for all of its text.
pub proof fn law_event_value(text: String)
    ensures
        MarkdownEvent::HeadingStart@ == EventView::HeadingStart,
        MarkdownEvent::HeadingEnd@ == EventView::HeadingEnd,
        MarkdownEvent::Other@ == EventView::Other,
        MarkdownEvent::Text(text)@ == EventView::Text(text@),
        MarkdownEvent::LinkStart(text)@ == EventView::LinkStart(text@),
{
}

/// The value of a list holds the values of its items, one for one and in their places.
pub proof fn law_list_values(events: Seq<MarkdownEvent>, strings: Seq<String>)
    ensures
        event_views(events).len() == events.len(),
        forall|i: int| 0 <= i < events.len() ==> event_views(events)[i] == (#[trigger] events[i])@,
        string_views(strings).len() == strings.len(),
        forall|i: int|
            0 <= i < strings.len() ==> string_views(strings)[i] == (#[trigger] strings[i])@,
{
}

/// The texts of the text events, in order.
spec fn texts(events: Seq<EventView>) -> Seq<Seq<char>> {
    events.filter(|e: EventView| e is Text).map_values(|e: EventView| e->Text_0)
}

/// The texts of an event and of those that follow it.
proof fn lemma_texts(events: Seq<EventView>)
    requires
        events.len() > 0,
    ensures
        events.first() is Text ==> texts(events) == seq![events.first()->Text_0] + texts(
            events.drop_first(),
        ),
        !(events.first() is Text) ==> texts(events) == texts(events.drop_first()),
{
    let is_text = |e: EventView| e is Text;
    let one = seq![events.first()];
    assert(events =~= one + events.drop_first());
    Seq::filter_distributes_over_add(one, events.drop_first(), is_text);
    reveal(Seq::filter);
    assert(one.drop_last() =~= Seq::empty());
    assert(one.drop_last().filter(is_text) =~= Seq::empty());
    if events.first() is Text {
        assert(one.filter(is_text) =~= one);
        assert(texts(events) =~= seq![events.first()->Text_0] + texts(events.drop_first()));
    } else {
        assert(one.filter(is_text) =~= Seq::empty());
        assert(texts(events) =~= texts(events.drop_first()));
    }
}

/// The text up to a heading's end, event by event.
proof fn lemma_joined_text(inner: Seq<EventView>, tail: Seq<EventView>)
    requires
        forall|k: int| 0 <= k < inner.len() ==> !(#[trigger] inner[k] is HeadingEnd),
        tail.len() == 0 || tail.first() is HeadingEnd,
    ensures
        text_to_heading_end(inner + tail) == texts(inner).flatten(),
    decreases inner.len(),
{
    if inner.len() == 0 {
        assert(inner + tail =~= tail);
        reveal(Seq::filter);
        assert(texts(inner).len() == 0);
    } else {
        let rest = inner.drop_first();
        assert(!(inner[0] is HeadingEnd));
        assert forall|k: int| 0 <= k < rest.len() implies !(#[trigger] rest[k] is HeadingEnd) by {
            assert(rest[k] == inner[k + 1]);
        }
        lemma_joined_text(rest, tail);
        lemma_texts(inner);
        assert((inner + tail).first() == inner.first());
        assert((inner + tail).drop_first() =~= rest + tail);
        if inner.first() is Text {
            let all = texts(inner);
            assert(all.first() == inner.first()->Text_0);
            assert(all.drop_first() =~= texts(rest));
        }
    }
}

/// What follows the first start of a heading.
proof fn lemma_after_heading_start(events: Seq<EventView>, start: int)
    requires
        0 <= start < events.len(),
        events[start] is HeadingStart,
        forall|k: int| 0 <= k < start ==> !(#[trigger] events[k] is HeadingStart),
    ensures
        after_heading_start(events) == events.skip(start + 1),
    decreases start,
{
    if start == 0 {
        assert(events.drop_first() =~= events.skip(1));
    } else {
        let rest = events.drop_first();
        assert(!(events[0] is HeadingStart));
        assert(rest[start - 1] == events[start]);
        assert forall|k: int| 0 <= k < start - 1 implies !(#[trigger] rest[k] is HeadingStart) by {
            assert(rest[k] == events[k + 1]);
        }
        lemma_after_heading_start(rest, start - 1);
        assert(rest.skip(start) =~= events.skip(start + 1));
    }
}

/// The heading of a page is all the text between the first start of a heading and the next end of
/// one, or the end of the page: every run of text in full, in order, and nothing else.
pub proof fn law_heading_is_all_its_text(events: Seq<EventView>, start: int, end: int)
    requires
        0 <= start < end <= events.len(),
        events[start] is HeadingStart,
        forall|k: int| 0 <= k < start ==> !(#[trigger] events[k] is HeadingStart),
        forall|k: int| start < k < end ==> !(#[trigger] events[k] is HeadingEnd),
        end < events.len() ==> events[end] is HeadingEnd,
    ensures
        heading_of(events) == events.subrange(start + 1, end).filter(
            |e: EventView| e is Text,
        ).map_values(|e: EventView| e->Text_0).flatten(),
{
    lemma_after_heading_start(events, start);
    let inner = events.subrange(start + 1, end);
    let tail = events.skip(end);
    assert(events.skip(start + 1) =~= inner + tail);
    assert forall|k: int| 0 <= k < inner.len() implies !(#[trigger] inner[k] is HeadingEnd) by {
        assert(inner[k] == events[start + 1 + k]);
    }
    lemma_joined_text(inner, tail);
}

/// A run of text at the beginning of a heading is its beginning, in full.
pub proof fn law_heading_begins_with_its_first_text(text: Seq<char>, rest: Seq<EventView>)
    ensures
        heading_of(seq![EventView::HeadingStart, EventView::Text(text)] + rest) == text
            + heading_of(seq![EventView::HeadingStart] + rest),
        heading_of(seq![EventView::HeadingStart, EventView::Text(text), EventView::HeadingEnd] + rest)
            == text,
{
    let a = seq![EventView::HeadingStart, EventView::Text(text)] + rest;
    let b = seq![EventView::HeadingStart] + rest;
    assert(a.drop_first() =~= seq![EventView::Text(text)] + rest);
    assert(a.drop_first().drop_first() =~= rest);
    assert(b.drop_first() =~= rest);
    let c = seq![EventView::HeadingStart, EventView::Text(text), EventView::HeadingEnd] + rest;
    assert(c.drop_first().first() == EventView::Text(text));
    assert(c.drop_first().drop_first().first() == EventView::HeadingEnd);
    assert(text_to_heading_end(c.drop_first().drop_first()) =~= Seq::empty());
    assert(heading_of(c) =~= text);
}

/// The links of a page are the destinations of all its links, each unchanged, and nothing else.
pub proof fn law_links_are_all_the_destinations(events: Seq<EventView>)
    ensures
        links_of(events) == events.filter(|e: EventView| e is LinkStart).map_values(
            |e: EventView| e->LinkStart_0,
        ),
    decreases events.len(),
{
    let is_link = |e: EventView| e is LinkStart;
    let destination = |e: EventView| e->LinkStart_0;
    reveal(Seq::filter);
    if events.len() > 0 {
        law_links_are_all_the_destinations(events.drop_last());
    }
    assert(links_of(events) =~= events.filter(is_link).map_values(destination));
}

/// One link is one destination; an event that starts no link is none.
pub proof fn law_one_link_is_one_destination(url: Seq<char>, other: EventView)
    ensures
        links_of(seq![EventView::LinkStart(url)]) == seq![url],
        !(other is LinkStart) ==> links_of(seq![other]).len() == 0,
{
    let one = seq![EventView::LinkStart(url)];
    assert(links_of(one.drop_last()) =~= Seq::empty());
    assert(links_of(one) =~= seq![url]);
    assert(links_of(seq![other].drop_last()) =~= Seq::empty());
}

/// Exactly the links of the page are watched, whatever they are, and none counts as clicked.
pub proof fn law_every_link_is_watched(links: Seq<Seq<char>>, link: Seq<char>)
    ensures
        links.contains(link) ==> unclicked(links).get(link) == Some(false),
        !links.contains(link) ==> unclicked(links).get(link) is None,
{
}

/// Each place of a link on the page is looked at for itself: a clicked link is followed once for
/// each, in the order of the page.
pub proof fn law_clicks_link_by_link(
    hooks: Map<Seq<char>, bool>,
    link: Seq<char>,
    before: Seq<Seq<char>>,
    after: Seq<Seq<char>>,
)
    ensures
        clicked(hooks, before + after) == clicked(hooks, before) + clicked(hooks, after),
        hooks.get(link) == Some(true) ==> clicked(hooks, seq![link]) == seq![link],
        hooks.get(link) != Some(true) ==> clicked(hooks, seq![link]).len() == 0,
{
    let set = |l: Seq<char>| hooks.get(l) == Some(true);
    Seq::filter_distributes_over_add(before, after, set);
    reveal(Seq::filter);
    let one = seq![link];
    assert(one.drop_last().filter(set) =~= Seq::empty());
    if hooks.get(link) == Some(true) {
        assert(clicked(hooks, one) =~= one);
    }
}

} // verus!
