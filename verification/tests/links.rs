use browser::links::{clicked_links, watch_links, watch_page};
use egui_commonmark::CommonMarkCache;

fn strings(items: &[&str]) -> Vec<String> {
    items.iter().map(|s| s.to_string()).collect()
}

#[test]
fn page_links_are_watched_and_unclicked() {
    let (cache, links) = watch_page("[one](a) and [two](b.wasm), [again](a), ![image](c)");
    assert_eq!(links, strings(&["a", "b.wasm", "a"]));
    assert_eq!(cache.get_link_hook("a"), Some(false));
    assert_eq!(cache.get_link_hook("b.wasm"), Some(false));
    assert_eq!(cache.get_link_hook("c"), None);
    assert!(clicked_links(&cache, &links).is_empty());
}

#[test]
fn reference_links_give_their_destination() {
    let (_, links) = watch_page("[text][ref]\n\n[ref]: https://example.com/x");
    assert_eq!(links, strings(&["https://example.com/x"]));
}

#[test]
fn clicked_links_are_followed_in_order() {
    let (mut cache, links) = watch_page("[1](a) [2](b) [3](c) [4](a)");
    cache.link_hooks_mut().insert("a".to_string(), true);
    cache.link_hooks_mut().insert("c".to_string(), true);
    cache.link_hooks_mut().insert("elsewhere".to_string(), true);
    assert_eq!(clicked_links(&cache, &links), strings(&["a", "c", "a"]));
}

#[test]
fn watching_resets_a_hook_and_keeps_the_others() {
    let mut cache = CommonMarkCache::default();
    cache.link_hooks_mut().insert("a".to_string(), true);
    cache.link_hooks_mut().insert("z".to_string(), true);
    watch_links(&mut cache, &strings(&["a", "b"]));
    assert_eq!(cache.get_link_hook("a"), Some(false));
    assert_eq!(cache.get_link_hook("b"), Some(false));
    assert_eq!(cache.get_link_hook("z"), Some(true));
}

#[test]
fn page_without_links_watches_nothing() {
    let (cache, links) = watch_page("# nothing here");
    assert!(links.is_empty());
    assert!(cache.link_hooks().is_empty());
}
