//! Watching the links of the displayed page for clicks.
use crate::markdown::{links_of_events, parse_markdown};
use vstd::prelude::*;

verus! {

use crate::markdown::{links_of, markdown_events, string_views};

/// The cache of `egui_commonmark`, which holds a hook for each watched link.
#[verifier::external_type_specification]
#[verifier::external_body]
pub struct ExCommonMarkCache(egui_commonmark::CommonMarkCache);

/// The links that a cache watches and, for each, the state of its hook: whether it was clicked
/// when the page was last shown.
pub uninterp spec fn link_hooks(cache: egui_commonmark::CommonMarkCache) -> Map<Seq<char>, bool>;

/// Calls `egui_commonmark::CommonMarkCache::default`.
///
/// Claimed: the new cache watches no link.
#[verifier::external_body]
fn cache_new() -> (cache: egui_commonmark::CommonMarkCache)
    ensures
        (link_hooks(cache) == Map::<Seq<char>, bool>::empty()),
{
    egui_commonmark::CommonMarkCache::default()
}

/// Calls `egui_commonmark::CommonMarkCache::add_link_hook`.
///
/// Claimed: the link is watched from now on and counts as not clicked, also where it was watched
/// and clicked before; the other hooks stay as they are.
#[verifier::external_body]
fn cache_add_link_hook(cache: &mut egui_commonmark::CommonMarkCache, link: String)
    ensures
        link_hooks(*final(cache)) == link_hooks(*old(cache)).insert(link@, false),
{
    cache.add_link_hook(link)
}

/// Calls `egui_commonmark::CommonMarkCache::get_link_hook`.
///
/// Claimed: the state of the link's hook comes back, or `None` for a link that is not watched.
#[verifier::external_body]
fn cache_get_link_hook(cache: &egui_commonmark::CommonMarkCache, link: &str) -> (hook: Option<bool>)
    ensures
        hook == link_hooks(*cache).get(link@),
{
    cache.get_link_hook(link)
}

/// Hooks for exactly the given links, none of them clicked.
pub open spec fn unclicked(links: Seq<Seq<char>>) -> Map<Seq<char>, bool> {
    Map::new(|link: Seq<char>| links.contains(link), |link: Seq<char>| false)
}

/// The links among `links` that were clicked, in the order of `links` and with its repetitions.
pub open spec fn clicked(hooks: Map<Seq<char>, bool>, links: Seq<Seq<char>>) -> Seq<Seq<char>> {
    links.filter(|link: Seq<char>| hooks.get(link) == Some(true))
}

/// Watches each of `links`, none of them clicked yet; hooks for other links stay as they are.
pub fn watch_links(cache: &mut egui_commonmark::CommonMarkCache, links: &Vec<String>)
    ensures
        link_hooks(*final(cache)) == link_hooks(*old(cache)).union_prefer_right(
            unclicked(string_views(links@)),
        ),
{
    let ghost before = link_hooks(*cache);
    let ghost all = string_views(links@);
    let mut i: usize = 0;
    assert(link_hooks(*cache) =~= before.union_prefer_right(unclicked(all.take(0))));
    while i < links.len()
        invariant
            i <= links.len(),
            all == string_views(links@),
            link_hooks(*cache) == before.union_prefer_right(unclicked(all.take(i as int))),
        decreases links.len() - i,
    {
        cache_add_link_hook(cache, links[i].clone());
        proof {
            let seen = all.take(i as int);
            let next = all.take(i + 1);
            assert(next == seen.push(all[i as int]));
            assert forall|link: Seq<char>|
                next.contains(link) <==> seen.contains(link) || link == all[i as int] by {
                if seen.contains(link) {
                    let k = choose|k: int| 0 <= k < seen.len() && seen[k] == link;
                    assert(next[k] == link);
                }
                assert(next[i as int] == all[i as int]);
            }
            assert(link_hooks(*cache) =~= before.union_prefer_right(unclicked(next)));
        }
        i += 1;
    }
    assert(all.take(all.len() as int) == all);
}

/// Finds the links of a page and watches them in a new cache.
///
/// Gives back the cache, to show the page with, and the links in document order.
pub fn watch_page(page: &str) -> (r: (egui_commonmark::CommonMarkCache, Vec<String>))
    ensures
        string_views(r.1@) == links_of(markdown_events(page@)),
        link_hooks(r.0) == unclicked(links_of(markdown_events(page@))),
{
    let mut cache = cache_new();
    let events = parse_markdown(page);
    let links = links_of_events(&events);
    watch_links(&mut cache, &links);
    assert(link_hooks(cache) =~= unclicked(string_views(links@)));
    (cache, links)
}

/// The links among `links` that were clicked while the page was shown with `cache`, each to be
/// followed in turn.
pub fn clicked_links(cache: &egui_commonmark::CommonMarkCache, links: &Vec<String>) -> (followed:
    Vec<String>)
    ensures
        string_views(followed@) == clicked(link_hooks(*cache), string_views(links@)),
{
    let mut followed: Vec<String> = Vec::new();
    let ghost hooks = link_hooks(*cache);
    let ghost all = string_views(links@);
    let mut i: usize = 0;
    reveal(Seq::filter);
    while i < links.len()
        invariant
            i <= links.len(),
            hooks == link_hooks(*cache),
            all == string_views(links@),
            string_views(followed@) == clicked(hooks, all.take(i as int)),
        decreases links.len() - i,
    {
        let ghost next = all.take(i + 1);
        let ghost before = followed@;
        assert(next.drop_last() == all.take(i as int));
        assert(next.last() == links@[i as int]@);
        reveal(Seq::filter);
        if let Some(true) = cache_get_link_hook(cache, links[i].as_str()) {
            followed.push(links[i].clone());
            assert(string_views(followed@) == string_views(before).push(links@[i as int]@));
        }
        i += 1;
    }
    assert(all.take(all.len() as int) == all);
    followed
}

} // verus!
