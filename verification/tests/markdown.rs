use browser::markdown::{
    get_heading, heading_of_events, links_of_events, parse_markdown, MarkdownEvent,
};

fn text(s: &str) -> MarkdownEvent {
    MarkdownEvent::Text(s.to_string())
}

fn link(s: &str) -> MarkdownEvent {
    MarkdownEvent::LinkStart(s.to_string())
}

#[test]
fn heading_is_the_text_of_the_first_heading() {
    assert_eq!(get_heading("intro\n\n# One *two* three\n\nbody\n\n# Four".to_string()), "One two three");
}

#[test]
fn heading_of_any_level_counts() {
    assert_eq!(get_heading("### Deep\n\n# Top".to_string()), "Deep");
}

#[test]
fn heading_leaves_code_out() {
    assert_eq!(get_heading("# a `b` c".to_string()), "a  c");
}

#[test]
fn page_without_heading_has_an_empty_one() {
    assert_eq!(get_heading("just text".to_string()), "");
    assert_eq!(get_heading("".to_string()), "");
}

#[test]
fn events_of_a_small_page() {
    let events = parse_markdown("# T\n\n[x](u)");
    let kinds: Vec<String> = events
        .iter()
        .map(|event| match event {
            MarkdownEvent::HeadingStart => "heading".to_string(),
            MarkdownEvent::HeadingEnd => "end".to_string(),
            MarkdownEvent::LinkStart(url) => format!("link {}", url),
            MarkdownEvent::Text(text) => format!("text {}", text),
            MarkdownEvent::Other => "other".to_string(),
        })
        .collect();
    assert_eq!(
        kinds,
        vec!["heading", "text T", "end", "other", "link u", "text x", "other", "other"]
    );
}

#[test]
fn text_outside_a_heading_is_ignored() {
    let events = vec![
        text("before"),
        MarkdownEvent::HeadingEnd,
        MarkdownEvent::HeadingStart,
        text("a"),
        MarkdownEvent::Other,
        text("b"),
        MarkdownEvent::HeadingEnd,
        text("after"),
        MarkdownEvent::HeadingStart,
        text("c"),
        MarkdownEvent::HeadingEnd,
    ];
    assert_eq!(heading_of_events(&events), "ab");
}

#[test]
fn heading_without_an_end_runs_to_the_last_event() {
    let events = vec![MarkdownEvent::HeadingStart, text("a"), text("b")];
    assert_eq!(heading_of_events(&events), "ab");
}

#[test]
fn links_come_in_document_order_with_repetitions() {
    let events = vec![link("b"), text("x"), link("a"), MarkdownEvent::Other, link("b")];
    assert_eq!(links_of_events(&events), vec!["b", "a", "b"]);
}

#[test]
fn no_links_without_link_events() {
    assert!(links_of_events(&vec![text("a"), MarkdownEvent::HeadingStart]).is_empty());
}
