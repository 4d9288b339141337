//! What holds of the browser as a whole.
use vstd::prelude::*;

verus! {

use crate::links::{clicked, unclicked};
use crate::location::names_wasm;
use crate::markdown::{heading_of, links_of, text_to_heading_end, EventView};
use crate::state::{first_labelled, is_first_labelled, lemma_first_labelled, AppView, NO_CHILD_ID};
use crate::surface::CompositeAlphaMode;
use crate::tab::TabView;
use crate::wasm::{Interface, Phase, SlotView};

/// One step of the browser.
pub enum Step {
    SetWindow { window: u64, alpha_mode: CompositeAlphaMode },
    Resize { width: u32, height: u32 },
    Quit,
    RequestChild,
    SetStatus { status: Seq<char> },
    EditLocation { location: Seq<char> },
    FinishLoad { page: Seq<char> },
    FinishEntry { page: Seq<char>, heading: Seq<char> },
    SelectTab { i: int },
    AddTab,
    TakeChildRequest,
    OpenChild { child: u64 },
}

impl Step {
    /// Whether the step can be taken from a state.
    pub open spec fn can_follow(self, v: AppView) -> bool {
        match self {
            Step::Resize { width, height } => width > 0 && height > 0 ==> v.state is Some,
            Step::SelectTab { i } => 0 <= i < v.tabs.len(),
            _ => true,
        }
    }

    /// The state that the step leads to.
    pub open spec fn applied_to(self, v: AppView) -> AppView {
        match self {
            Step::SetWindow { window, alpha_mode } => v.window_set(window, alpha_mode),
            Step::Resize { width, height } => v.resized(width, height),
            Step::Quit => v.quit(),
            Step::RequestChild => v.child_requested(),
            Step::SetStatus { status } => v.with_status(status),
            Step::EditLocation { location } => v.with_location(location),
            Step::FinishLoad { page } => v.loaded(page),
            Step::FinishEntry { page, heading } => v.entered(page, heading),
            Step::SelectTab { i } => v.tab_selected(i),
            Step::AddTab => v.tab_added(),
            Step::TakeChildRequest => v.child_request_taken(),
            Step::OpenChild { child } => v.child_opened(child),
        }
    }

    /// Whether the step, taken from a state, asks for a child window: the user does, or a guest
    /// has come.
    pub open spec fn asks_for_child(self, v: AppView) -> bool {
        match self {
            Step::RequestChild => true,
            Step::FinishLoad { page } => names_wasm(v.current_location),
            Step::FinishEntry { page, heading } => names_wasm(v.current_location),
            _ => false,
        }
    }
}

/// Whether the steps can be taken one after the other.
pub open spec fn is_run(v: AppView, steps: Seq<Step>) -> bool
    decreases steps.len(),
{
    steps.len() > 0 ==> is_run(v, steps.drop_last()) && steps.last().can_follow(
        after(v, steps.drop_last()),
    )
}

/// The state after the steps.
pub open spec fn after(v: AppView, steps: Seq<Step>) -> AppView
    decreases steps.len(),
{
    if steps.len() == 0 {
        v
    } else {
        steps.last().applied_to(after(v, steps.drop_last()))
    }
}

/// In every valid state, the tab in use is the first of its label.
proof fn lemma_current_tab(v: AppView)
    requires
        v.wf(),
    ensures
        is_first_labelled(v.tabs, v.current_tab, first_labelled(v.tabs, v.current_tab)),
{
    lemma_first_labelled(v.tabs, v.current_tab);
}

/// A step keeps the state valid.
proof fn lemma_step(v: AppView, step: Step)
    requires
        v.wf(),
        step.can_follow(v),
    ensures
        step.applied_to(v).wf(),
{
    let w = step.applied_to(v);
    lemma_current_tab(v);
    let k = choose|k: int| 0 <= k < v.tabs.len() && (#[trigger] v.tabs[k]).label == v.current_tab;
    match step {
        Step::FinishEntry { page, heading } => {
            if names_wasm(v.current_location) {
                assert(w.tabs[k].label == w.current_tab);
            } else {
                let i = first_labelled(v.tabs, v.current_tab);
                assert(w.tabs[i].label == w.current_tab);
                assert(v.tabs[i].status == "Loaded"@);
            }
        },
        Step::SelectTab { i } => {
            assert(w.tabs[i].label == w.current_tab);
        },
        Step::AddTab => {
            assert(w.tabs[v.tabs.len() as int].label == w.current_tab);
        },
        _ => {
            assert(w.tabs[k].label == w.current_tab);
        },
    }
}

/// Every state that the browser can reach is valid: whatever happens, its window has a surface
/// with an extent, the identifier of the child window is right, and the tab in use is one of the
/// tabs.
pub proof fn law_every_state_is_valid(steps: Seq<Step>)
    requires
        is_run(AppView::initial(), steps),
    ensures
        after(AppView::initial(), steps).wf(),
    decreases steps.len(),
{
    if steps.len() == 0 {
        let v = AppView::initial();
        assert(v.tabs[0].label == v.current_tab);
    } else {
        law_every_state_is_valid(steps.drop_last());
        lemma_step(after(AppView::initial(), steps.drop_last()), steps.last());
    }
}

/// Nothing undoes these: that the user has asked to leave, that events are passed on to a guest,
/// which window the browser draws in.
pub proof fn law_lasting(v: AppView, steps: Seq<Step>)
    requires
        is_run(v, steps),
    ensures
        v.quit_pressed ==> after(v, steps).quit_pressed,
        v.wasi_event_handler ==> after(v, steps).wasi_event_handler,
        v.window is Some ==> after(v, steps).window == v.window,
    decreases steps.len(),
{
    if steps.len() > 0 {
        law_lasting(v, steps.drop_last());
    }
}

/// No tab is ever closed, tabs keep their places, and the back history of a tab only grows at
/// its end.
pub proof fn law_tabs_and_history_are_kept(v: AppView, steps: Seq<Step>, i: int)
    requires
        v.wf(),
        is_run(v, steps),
        0 <= i < v.tabs.len(),
    ensures
        v.tabs.len() <= after(v, steps).tabs.len(),
        v.tabs[i].back.is_prefix_of(after(v, steps).tabs[i].back),
        after(v, steps).wf(),
    decreases steps.len(),
{
    if steps.len() > 0 {
        let u = after(v, steps.drop_last());
        let w = after(v, steps);
        law_tabs_and_history_are_kept(v, steps.drop_last(), i);
        lemma_step(u, steps.last());
        lemma_current_tab(u);
        assert(u.tabs[i].back.is_prefix_of(w.tabs[i].back));
        assert(v.tabs[i].back =~= w.tabs[i].back.subrange(0, v.tabs[i].back.len() as int));
    }
}

/// An entered page is remembered by exactly one tab, the first with the label of the tab in use.
/// That tab puts the location it leaves at the end of its back history, and has nothing to go
/// forward to.
pub proof fn law_entry_is_recorded_once(v: AppView, page: Seq<char>, heading: Seq<char>)
    requires
        v.wf(),
        !names_wasm(v.current_location),
    ensures
        ({
            let w = v.entered(page, heading);
            let i = first_labelled(v.tabs, v.current_tab);
            &&& is_first_labelled(v.tabs, v.current_tab, i)
            &&& w.tabs.len() == v.tabs.len()
            &&& w.tabs[i].location == v.current_location
            &&& w.tabs[i].contents == page
            &&& w.tabs[i].label == heading
            &&& w.tabs[i].back == v.tabs[i].back.push(v.tabs[i].location)
            &&& w.tabs[i].forward.len() == 0
            &&& forall|j: int| 0 <= j < v.tabs.len() && j != i ==> w.tabs[j] == #[trigger] v.tabs[j]
        }),
{
    lemma_current_tab(v);
}

/// A tab gives back what was entered in it: after an entered page, choosing any tab and then the
/// tab of the page again leads to the state right after the page came.
pub proof fn law_tab_gives_back_the_entry(v: AppView, page: Seq<char>, heading: Seq<char>, j: int)
    requires
        v.wf(),
        !names_wasm(v.current_location),
        0 <= j < v.tabs.len(),
    ensures
        ({
            let w = v.entered(page, heading);
            let i = first_labelled(v.tabs, v.current_tab);
            w.tab_selected(j).tab_selected(i) == w
        }),
{
    lemma_current_tab(v);
    let w = v.entered(page, heading);
    let i = first_labelled(v.tabs, v.current_tab);
    assert(w.tab_selected(j).tab_selected(i) =~= w);
}

/// A page that the user enters a location for.
pub struct Entry {
    pub location: Seq<char>,
    pub page: Seq<char>,
    pub heading: Seq<char>,
}

/// The locations of entries.
pub open spec fn locations(entries: Seq<Entry>) -> Seq<Seq<char>> {
    entries.map_values(|entry: Entry| entry.location)
}

/// The state after the entries.
pub open spec fn all_entered(v: AppView, entries: Seq<Entry>) -> AppView
    decreases entries.len(),
{
    if entries.len() == 0 {
        v
    } else {
        let entry = entries.last();
        all_entered(v, entries.drop_last()).with_location(entry.location).entered(
            entry.page,
            entry.heading,
        )
    }
}

/// Whether the heading of an entry sets its tab apart from the tabs before the given one.
pub open spec fn stays_in_tab(v: AppView, i: int, entry: Entry) -> bool {
    forall|j: int| 0 <= j < i ==> (#[trigger] v.tabs[j]).label != entry.heading
}

/// An entry of a page in a state whose tab in use is `i`.
proof fn lemma_entry(v: AppView, i: int, entry: Entry)
    requires
        v.wf(),
        is_first_labelled(v.tabs, v.current_tab, i),
        !names_wasm(entry.location),
    ensures
        ({
            let w = v.with_location(entry.location).entered(entry.page, entry.heading);
            &&& w.wf()
            &&& w.tabs == v.tabs.update(
                i,
                v.tabs[i].visited(entry.location, entry.page, entry.heading),
            )
            &&& w.current_tab == entry.heading
        }),
{
    let u = v.with_location(entry.location);
    lemma_step(v, Step::EditLocation { location: entry.location });
    lemma_step(u, Step::FinishEntry { page: entry.page, heading: entry.heading });
    lemma_current_tab(u);
    let k = first_labelled(u.tabs, u.current_tab);
    assert(k == i) by {
        assert(u.tabs[k].label == v.tabs[i].label);
    }
}

/// Entries whose headings all stay in the tab keep it in use and stack up in its history.
proof fn lemma_entries(v: AppView, entries: Seq<Entry>)
    requires
        v.wf(),
        forall|n: int| 0 <= n < entries.len() ==> !names_wasm((#[trigger] entries[n]).location),
        forall|n: int|
            0 <= n < entries.len() ==> stays_in_tab(
                v,
                first_labelled(v.tabs, v.current_tab),
                #[trigger] entries[n],
            ),
    ensures
        ({
            let i = first_labelled(v.tabs, v.current_tab);
            let w = all_entered(v, entries);
            let visited = seq![v.tabs[i].location] + locations(entries);
            &&& w.wf()
            &&& w.tabs.len() == v.tabs.len()
            &&& is_first_labelled(w.tabs, w.current_tab, i)
            &&& forall|j: int| 0 <= j < v.tabs.len() && j != i ==> w.tabs[j] == #[trigger] v.tabs[j]
            &&& w.tabs[i].back == v.tabs[i].back + visited.drop_last()
            &&& w.tabs[i].location == visited.last()
        }),
    decreases entries.len(),
{
    lemma_current_tab(v);
    let i = first_labelled(v.tabs, v.current_tab);
    let visited = seq![v.tabs[i].location] + locations(entries);
    if entries.len() == 0 {
        assert(v.tabs[i].back + visited.drop_last() =~= v.tabs[i].back);
    } else {
        let head = entries.drop_last();
        let entry = entries.last();
        assert(forall|n: int| 0 <= n < head.len() ==> head[n] == #[trigger] entries[n]);
        lemma_entries(v, head);
        let u = all_entered(v, head);
        let w = all_entered(v, entries);
        lemma_entry(u, i, entry);
        let before = seq![v.tabs[i].location] + locations(head);
        assert(visited.drop_last() =~= before);
        assert(before =~= before.drop_last().push(before.last()));
        assert(w.tabs[i].back =~= v.tabs[i].back + before);
        assert(stays_in_tab(v, i, entries[entries.len() - 1]));
        assert forall|j: int| 0 <= j < i implies (#[trigger] w.tabs[j]).label != w.current_tab by {
            assert(w.tabs[j] == v.tabs[j]);
        }
    }
}

/// Entries in a row, however many, put the locations they leave on the back history of one tab in
/// the order in which they were left, and leave it at the last one. No heading but the last may be
/// the label of a tab before this one: that tab would take the next entry.
pub proof fn law_entries_in_a_row(v: AppView, entries: Seq<Entry>)
    requires
        v.wf(),
        entries.len() > 0,
        forall|n: int| 0 <= n < entries.len() ==> !names_wasm((#[trigger] entries[n]).location),
        forall|n: int|
            0 <= n < entries.len() - 1 ==> stays_in_tab(
                v,
                first_labelled(v.tabs, v.current_tab),
                #[trigger] entries[n],
            ),
    ensures
        ({
            let i = first_labelled(v.tabs, v.current_tab);
            let w = all_entered(v, entries);
            let left = seq![v.tabs[i].location] + locations(entries.drop_last());
            &&& w.tabs[i].back == v.tabs[i].back + left
            &&& w.tabs[i].location == entries.last().location
            &&& w.tabs[i].contents == entries.last().page
            &&& w.tabs[i].label == entries.last().heading
        }),
{
    let head = entries.drop_last();
    assert(forall|n: int| 0 <= n < head.len() ==> head[n] == #[trigger] entries[n]);
    lemma_current_tab(v);
    lemma_entries(v, head);
    let i = first_labelled(v.tabs, v.current_tab);
    lemma_entry(all_entered(v, head), i, entries.last());
    let left = seq![v.tabs[i].location] + locations(head);
    assert(left =~= left.drop_last().push(left.last()));
    assert(all_entered(v, entries).tabs[i].back =~= v.tabs[i].back + left);
}

/// Only an entered page changes a tab: the go button, a link and a guest leave all tabs and the
/// tab in use as they are.
pub proof fn law_other_loads_leave_the_tabs(v: AppView, page: Seq<char>, heading: Seq<char>)
    ensures
        v.loaded(page).tabs == v.tabs,
        v.loaded(page).current_tab == v.current_tab,
        names_wasm(v.current_location) ==> v.entered(page, heading) == v.loaded(page),
{
}

/// A page ends its loading with the status saying so; a guest is still loading when its file has
/// come, and asks for a child window.
pub proof fn law_status_of_a_load(v: AppView, page: Seq<char>)
    ensures
        !names_wasm(v.current_location) ==> v.with_status("Loading..."@).loaded(
            page,
        ).current_status == "Loaded"@,
        names_wasm(v.current_location) ==> {
            let w = v.with_status("Loading..."@).loaded(page);
            w.current_status == "Loading..."@ && w.spawn_child_window
        },
{
}

/// Whether none of the steps asks for a child window.
pub open spec fn none_asks_for_child(v: AppView, steps: Seq<Step>) -> bool
    decreases steps.len(),
{
    steps.len() > 0 ==> none_asks_for_child(v, steps.drop_last()) && !steps.last().asks_for_child(
        after(v, steps.drop_last()),
    )
}

/// A request opens one child window: once it is taken up, no event opens another, whatever
/// happens, until there is a new request.
pub proof fn law_one_child_per_request(v: AppView, steps: Seq<Step>)
    requires
        is_run(v.child_request_taken(), steps),
        none_asks_for_child(v.child_request_taken(), steps),
    ensures
        !after(v.child_request_taken(), steps).spawn_child_window,
    decreases steps.len(),
{
    if steps.len() > 0 {
        law_one_child_per_request(v, steps.drop_last());
    }
}

/// Whoever asks for a child window, the request is there for the next event to take up.
pub proof fn law_request_waits_for_the_next_event(v: AppView, step: Step)
    requires
        step.asks_for_child(v),
    ensures
        step.applied_to(v).spawn_child_window,
{
}

/// A page puts an end to the guest's window, also to one that has just been opened.
pub proof fn law_page_replaces_guest(v: AppView, child: u64, page: Seq<char>)
    requires
        !names_wasm(v.current_location),
    ensures
        v.child_opened(child).loaded(page).child_window is None,
        v.child_opened(child).loaded(page).child_window_id == NO_CHILD_ID,
{
}

/// The state after changes of extent, each a width and a height.
pub open spec fn all_resized(v: AppView, extents: Seq<(u32, u32)>) -> AppView
    decreases extents.len(),
{
    if extents.len() == 0 {
        v
    } else {
        all_resized(v, extents.drop_last()).resized(extents.last().0, extents.last().1)
    }
}

/// The last of the extents with anything in it.
pub open spec fn last_extent(extents: Seq<(u32, u32)>) -> Option<(u32, u32)>
    decreases extents.len(),
{
    if extents.len() == 0 {
        None
    } else if extents.last().0 > 0 && extents.last().1 > 0 {
        Some(extents.last())
    } else {
        last_extent(extents.drop_last())
    }
}

/// Of changes of extent, however many, the last with anything in it counts.
pub proof fn law_last_extent_counts(v: AppView, extents: Seq<(u32, u32)>)
    requires
        v.state is Some,
    ensures
        all_resized(v, extents) == match last_extent(extents) {
            Some(extent) => v.resized(extent.0, extent.1),
            None => v,
        },
    decreases extents.len(),
{
    if extents.len() > 0 {
        law_last_extent_counts(v, extents.drop_last());
    }
}

/// A tab that has just been opened is the last one and shows its own location and page; the
/// others stay as they are.
pub proof fn law_new_tab_is_shown(v: AppView)
    ensures
        ({
            let w = v.tab_added();
            &&& w.tabs.len() == v.tabs.len() + 1
            &&& w.tabs.drop_last() == v.tabs
            &&& w.tab_selected(v.tabs.len() as int) == w
            &&& w.tabs.last().back.len() == 0
        }),
{
    let w = v.tab_added();
    assert(w.tabs.drop_last() =~= v.tabs);
    assert(w.tab_selected(v.tabs.len() as int) =~= w);
}

/// Text that ends a heading settles it: what follows does not matter.
proof fn lemma_text_to_heading_end(events: Seq<EventView>, more: Seq<EventView>, k: int)
    requires
        0 <= k < events.len(),
        events[k] is HeadingEnd,
    ensures
        text_to_heading_end(events + more) == text_to_heading_end(events),
    decreases events.len(),
{
    assert((events + more).first() == events.first());
    assert((events + more).drop_first() =~= events.drop_first() + more);
    if !(events.first() is HeadingEnd) {
        assert(events.drop_first()[k - 1] == events[k]);
        lemma_text_to_heading_end(events.drop_first(), more, k - 1);
    }
}

/// A page is known by its first heading alone: whatever follows the end of a heading does not
/// change the heading of the page.
pub proof fn law_first_heading_counts(
    events: Seq<EventView>,
    more: Seq<EventView>,
    start: int,
    end: int,
)
    requires
        0 <= start < end < events.len(),
        events[start] is HeadingStart,
        events[end] is HeadingEnd,
    ensures
        heading_of(events + more) == heading_of(events),
    decreases events.len(),
{
    assert((events + more).first() == events.first());
    assert((events + more).drop_first() =~= events.drop_first() + more);
    if events.first() is HeadingStart {
        assert(events.drop_first()[end - 1] == events[end]);
        lemma_text_to_heading_end(events.drop_first(), more, end - 1);
    } else {
        assert(events.drop_first()[start - 1] == events[start]);
        assert(events.drop_first()[end - 1] == events[end]);
        law_first_heading_counts(events.drop_first(), more, start - 1, end - 1);
    }
}

/// A page without a heading has an empty one.
pub proof fn law_no_heading(events: Seq<EventView>)
    requires
        forall|i: int| 0 <= i < events.len() ==> !(#[trigger] events[i] is HeadingStart),
    ensures
        heading_of(events).len() == 0,
    decreases events.len(),
{
    if events.len() > 0 {
        assert(!(events[0] is HeadingStart));
        assert forall|i: int| 0 <= i < events.drop_first().len() implies !(
        #[trigger] events.drop_first()[i] is HeadingStart) by {
            assert(events.drop_first()[i] == events[i + 1]);
        }
        law_no_heading(events.drop_first());
    }
}

/// The links of a page come in document order: those of its beginning, then those of its end.
pub proof fn law_links_in_document_order(events: Seq<EventView>, more: Seq<EventView>)
    ensures
        links_of(events + more) == links_of(events) + links_of(more),
    decreases more.len(),
{
    if more.len() == 0 {
        assert(events + more =~= events);
        assert(links_of(events) + links_of(more) =~= links_of(events));
    } else {
        assert((events + more).drop_last() =~= events + more.drop_last());
        assert((events + more).last() == more.last());
        law_links_in_document_order(events, more.drop_last());
        assert(links_of(events + more) =~= links_of(events) + links_of(more));
    }
}

/// No link of a page counts as clicked before the page is shown.
pub proof fn law_new_page_has_no_clicks(links: Seq<Seq<char>>)
    ensures
        clicked(unclicked(links), links).len() == 0,
{
    lemma_no_clicks(unclicked(links), links);
}

/// Where no hook is set, no link counts as clicked.
proof fn lemma_no_clicks(hooks: Map<Seq<char>, bool>, links: Seq<Seq<char>>)
    requires
        forall|link: Seq<char>| hooks.get(link) != Some(true),
    ensures
        clicked(hooks, links).len() == 0,
    decreases links.len(),
{
    reveal(Seq::filter);
    if links.len() > 0 {
        lemma_no_clicks(hooks, links.drop_last());
    }
}

/// The links that are followed are the clicked ones among the links of the page, all of them.
pub proof fn law_clicked_links_are_followed(
    hooks: Map<Seq<char>, bool>,
    links: Seq<Seq<char>>,
    link: Seq<char>,
)
    ensures
        clicked(hooks, links).contains(link) <==> links.contains(link) && hooks.get(link) == Some(
            true,
        ),
    decreases links.len(),
{
    reveal(Seq::filter);
    if links.len() > 0 {
        let rest = links.drop_last();
        law_clicked_links_are_followed(hooks, rest, link);
        assert(links =~= rest.push(links.last()));
        let head = clicked(hooks, rest);
        if links.contains(link) {
            let k = choose|k: int| 0 <= k < links.len() && links[k] == link;
            if k < rest.len() {
                assert(rest[k] == link);
            }
        }
        if rest.contains(link) {
            let k = choose|k: int| 0 <= k < rest.len() && rest[k] == link;
            assert(links[k] == link);
        }
        if head.contains(link) {
            let k = choose|k: int| 0 <= k < head.len() && head[k] == link;
            assert(clicked(hooks, links)[k] == link);
        }
        assert(links[links.len() - 1] == links.last());
        if hooks.get(links.last()) == Some(true) {
            assert(clicked(hooks, links) =~= head.push(links.last()));
            assert(clicked(hooks, links)[head.len() as int] == links.last());
        }
    }
}

/// The runtime is ready exactly when the last interface, that of WASI, has been linked; until
/// then each link leads to another, and one that fails is the last.
pub proof fn law_ready_after_the_last_link(phase: Phase)
    requires
        phase is Linking,
    ensures
        phase.next(true) is Linking || phase.next(true) == Phase::Ready,
        phase.next(true) == Phase::Ready <==> phase == Phase::Linking(Interface::Wasi),
        phase.next(true) != phase,
        phase.next(false) == Phase::Broken,
{
}

/// The phase after what each phase asks for was tried, with the given successes.
pub open spec fn phase_after(phase: Phase, successes: Seq<bool>) -> Phase
    decreases successes.len(),
{
    if successes.len() == 0 {
        phase
    } else {
        phase_after(phase, successes.drop_last()).next(successes.last())
    }
}

/// A broken runtime stays broken, whatever is tried.
pub proof fn law_broken_for_good(successes: Seq<bool>)
    ensures
        phase_after(Phase::Broken, successes) == Phase::Broken,
    decreases successes.len(),
{
    if successes.len() > 0 {
        law_broken_for_good(successes.drop_last());
    }
}

/// A run begins with the search for its component, from any phase of a linked runtime, and it
/// always ends with a runtime that can run another guest: at once where no component is found,
/// else when the guest has been instantiated and has run.
pub proof fn law_every_run_ends_ready(phase: Phase)
    requires
        phase.is_linked(),
    ensures
        phase.started() == Phase::Loading,
        phase.started().next(false) == Phase::Ready,
        phase.started().next(true) == Phase::Instantiating,
        phase.started().next(true).next(true).next(true) == Phase::Ready,
        phase.started().next(true).next(true).next(true).is_linked(),
{
}

/// A guest gets the surface that its run has left for it, whatever was left before, and nobody
/// gets it again.
pub proof fn law_guest_gets_its_surface<S>(slot: SlotView<S>, surface: S)
    ensures
        slot.replaced(surface).surface is Some,
        slot.replaced(surface).canvas() == surface,
        slot.replaced(surface).given_out().surface is None,
{
}

} // verus!
