//! What each step of the browser brings about, and what it leaves alone.
use vstd::prelude::*;

verus! {

use crate::app::{action_for, Action, WindowEvent};
use crate::laws::phase_after;
use crate::location::names_wasm;
use crate::markdown::string_views;
use crate::state::{
    first_labelled,
    has_label,
    is_first_labelled,
    lemma_first_labelled,
    AppView,
    INITIAL_HEIGHT,
    INITIAL_WIDTH,
    NO_CHILD_ID,
    PARENT_ID,
};
use crate::surface::{
    AppState,
    CompositeAlphaMode,
    PresentMode,
    SurfaceConfiguration,
    SurfaceView,
    TextureFormat,
    TextureUsage,
};
use crate::tab::{tab_views, Tab, TabView};
use crate::wasm::{Interface, Phase, WasmView};

/// The browser window and its surface are left alone.
pub open spec fn same_window(v: AppView, w: AppView) -> bool {
    &&& w.window == v.window
    &&& w.state == v.state
    &&& w.parent_window_id == v.parent_window_id
}

/// The guest, its window and its events are left alone.
pub open spec fn same_guest(v: AppView, w: AppView) -> bool {
    &&& w.child_window == v.child_window
    &&& w.child_window_id == v.child_window_id
    &&& w.wasi_event_handler == v.wasi_event_handler
}

/// What is on show is left alone.
pub open spec fn same_display(v: AppView, w: AppView) -> bool {
    &&& w.current_location == v.current_location
    &&& w.current_page == v.current_page
    &&& w.current_status == v.current_status
}

/// The tabs and the tab in use are left alone.
pub open spec fn same_tabs(v: AppView, w: AppView) -> bool {
    &&& w.tabs == v.tabs
    &&& w.current_tab == v.current_tab
}

/// What the user has asked for is left alone.
pub open spec fn same_requests(v: AppView, w: AppView) -> bool {
    &&& w.quit_pressed == v.quit_pressed
    &&& w.spawn_child_window == v.spawn_child_window
}

/// The browser starts with no window, no guest and no request, and with one tab, which is blank,
/// unnamed and in use.
pub proof fn law_start()
    ensures
        ({
            let v = AppView::initial();
            &&& v.window is None
            &&& v.state is None
            &&& v.child_window is None
            &&& v.child_window_id == 2
            &&& v.parent_window_id == 1
            &&& !v.wasi_event_handler
            &&& !v.quit_pressed
            &&& !v.spawn_child_window
            &&& v.current_status == "Loading..."@
            &&& v.current_location == "https://example.com/"@
            &&& v.current_page.len() == 0
            &&& v.current_tab.len() == 0
            &&& v.tabs.len() == 1
            &&& v.tabs[0].label.len() == 0
            &&& v.tabs[0].location == "https://example.com/"@
            &&& v.tabs[0].contents.len() == 0
            &&& v.tabs[0].status == "Loaded"@
            &&& v.tabs[0].back.len() == 0
            &&& v.tabs[0].forward.len() == 0
        }),
{
}

/// The identifiers and the extent that the browser starts with.
pub proof fn law_starting_values()
    ensures
        PARENT_ID == 1,
        NO_CHILD_ID == 2,
        INITIAL_WIDTH == 2 * 1920,
        INITIAL_HEIGHT == 2 * 1080,
{
}

/// A valid state in plain words: a window has a surface, set up for drawing, with an extent; the
/// child goes by its own identifier, or by that of no child; a child window gets events; the tab
/// in use is one of the tabs; no tab has anywhere to go forward to.
pub proof fn law_valid_state(v: AppView)
    requires
        v.wf(),
    ensures
        v.window is Some == v.state is Some,
        v.state is Some ==> {
            &&& v.state->0.width > 0
            &&& v.state->0.height > 0
            &&& v.state->0.format == TextureFormat::Bgra8UnormSrgb
            &&& v.state->0.desired_maximum_frame_latency == 0
            &&& v.state->0.view_formats.len() == 0
        },
        v.child_window is Some ==> v.child_window_id == v.child_window->0 && v.wasi_event_handler,
        v.child_window is None ==> v.child_window_id == 2,
        v.parent_window_id == 1,
        exists|i: int| 0 <= i < v.tabs.len() && (#[trigger] v.tabs[i]).label == v.current_tab,
        forall|i: int|
            0 <= i < v.tabs.len() ==> (#[trigger] v.tabs[i]).forward.len() == 0 && v.tabs[i].status
                == "Loaded"@,
{
}

/// The first window is taken up, with a surface as high as it is wide, blended as its first way
/// of blending says; a later window changes nothing.
pub proof fn law_first_window_counts(
    v: AppView,
    window: u64,
    alpha_mode: CompositeAlphaMode,
    later: u64,
    later_mode: CompositeAlphaMode,
)
    requires
        v.wf(),
    ensures
        v.window is Some ==> v.window_set(window, alpha_mode) == v,
        v.window is None ==> {
            let w = v.window_set(window, alpha_mode);
            &&& w.window == Some(window)
            &&& w.state is Some
            &&& w.state->0.width == 3840
            &&& w.state->0.height == 3840
            &&& w.state->0.alpha_mode == alpha_mode
            &&& w.state->0.format == TextureFormat::Bgra8UnormSrgb
            &&& w.state->0.desired_maximum_frame_latency == 0
            &&& w.state->0.view_formats.len() == 0
            &&& w.parent_window_id == v.parent_window_id
            &&& same_guest(v, w)
            &&& same_display(v, w)
            &&& same_tabs(v, w)
            &&& same_requests(v, w)
        },
        v.window_set(window, alpha_mode).window_set(later, later_mode) == v.window_set(
            window,
            alpha_mode,
        ),
{
    assert(v.window is Some ==> v.window_set(window, alpha_mode) =~= v);
    let w = v.window_set(window, alpha_mode);
    assert(w.window_set(later, later_mode) =~= w);
}

/// The surface takes the extent of the window and nothing else changes; an extent with nothing in
/// it changes nothing at all.
pub proof fn law_surface_follows_the_window(v: AppView, width: u32, height: u32)
    requires
        v.state is Some,
    ensures
        width == 0 || height == 0 ==> v.resized(width, height) == v,
        width > 0 && height > 0 ==> {
            let w = v.resized(width, height);
            &&& w.state is Some
            &&& w.state->0.width == width
            &&& w.state->0.height == height
            &&& w.state->0.usage == v.state->0.usage
            &&& w.state->0.format == v.state->0.format
            &&& w.state->0.present_mode == v.state->0.present_mode
            &&& w.state->0.desired_maximum_frame_latency
                == v.state->0.desired_maximum_frame_latency
            &&& w.state->0.alpha_mode == v.state->0.alpha_mode
            &&& w.state->0.view_formats == v.state->0.view_formats
            &&& w.window == v.window
            &&& w.parent_window_id == v.parent_window_id
            &&& same_guest(v, w)
            &&& same_display(v, w)
            &&& same_tabs(v, w)
            &&& same_requests(v, w)
        },
{
}

/// Asking to leave is remembered, and asking for a child window is; neither does anything else.
pub proof fn law_requests_are_remembered(v: AppView)
    ensures
        ({
            let w = v.quit();
            &&& w.quit_pressed
            &&& w.spawn_child_window == v.spawn_child_window
            &&& same_window(v, w)
            &&& same_guest(v, w)
            &&& same_display(v, w)
            &&& same_tabs(v, w)
        }),
        ({
            let w = v.child_requested();
            &&& w.spawn_child_window
            &&& w.quit_pressed == v.quit_pressed
            &&& same_window(v, w)
            &&& same_guest(v, w)
            &&& same_display(v, w)
            &&& same_tabs(v, w)
        }),
{
}

/// What is put on the status line is what it says, and what is typed is the location, letter for
/// letter; neither changes anything else.
pub proof fn law_status_and_location_are_as_set(v: AppView, text: Seq<char>)
    ensures
        ({
            let w = v.with_status(text);
            &&& w.current_status == text
            &&& w.current_location == v.current_location
            &&& w.current_page == v.current_page
            &&& same_window(v, w)
            &&& same_guest(v, w)
            &&& same_tabs(v, w)
            &&& same_requests(v, w)
        }),
        ({
            let w = v.with_location(text);
            &&& w.current_location == text
            &&& w.current_status == v.current_status
            &&& w.current_page == v.current_page
            &&& same_window(v, w)
            &&& same_guest(v, w)
            &&& same_tabs(v, w)
            &&& same_requests(v, w)
        }),
{
}

/// What was fetched is on show, whatever it is and whether or not a guest was: in place of a
/// guest's window where it is a page, and with a request for such a window where it is a guest.
pub proof fn law_loaded_page_is_shown(v: AppView, page: Seq<char>)
    ensures
        ({
            let w = v.loaded(page);
            &&& w.current_page == page
            &&& w.current_location == v.current_location
            &&& w.wasi_event_handler == v.wasi_event_handler
            &&& w.quit_pressed == v.quit_pressed
            &&& same_window(v, w)
            &&& same_tabs(v, w)
            &&& !names_wasm(v.current_location) ==> {
                &&& w.child_window is None
                &&& w.child_window_id == 2
                &&& w.current_status == "Loaded"@
                &&& w.spawn_child_window == v.spawn_child_window
            }
            &&& names_wasm(v.current_location) ==> {
                &&& w.spawn_child_window
                &&& w.current_status == v.current_status
                &&& same_guest(v, w)
            }
        }),
{
}

/// What was entered is on show, whatever it is, whether or not a guest was, and whatever the tab
/// has visited before: in place of a guest's window where it is a page, under its heading, and
/// with a request for such a window, under the tab's old label, where it is a guest.
pub proof fn law_entered_page_is_shown(v: AppView, page: Seq<char>, heading: Seq<char>)
    ensures
        ({
            let w = v.entered(page, heading);
            &&& w.current_page == page
            &&& w.current_location == v.current_location
            &&& w.wasi_event_handler == v.wasi_event_handler
            &&& w.quit_pressed == v.quit_pressed
            &&& same_window(v, w)
            &&& !names_wasm(v.current_location) ==> {
                &&& w.child_window is None
                &&& w.child_window_id == 2
                &&& w.current_status == "Loaded"@
                &&& w.current_tab == heading
                &&& w.spawn_child_window == v.spawn_child_window
            }
            &&& names_wasm(v.current_location) ==> {
                &&& w.spawn_child_window
                &&& w.current_status == v.current_status
                &&& same_guest(v, w)
                &&& same_tabs(v, w)
            }
        }),
{
}

/// A page looks the same however it was asked for: an entry and a load differ in the tabs and the
/// tab in use alone.
pub proof fn law_entry_and_load_show_the_same(v: AppView, page: Seq<char>, heading: Seq<char>)
    ensures
        ({
            let entered = v.entered(page, heading);
            let loaded = v.loaded(page);
            &&& same_window(entered, loaded)
            &&& same_guest(entered, loaded)
            &&& same_display(entered, loaded)
            &&& same_requests(entered, loaded)
        }),
{
}

/// Of pages loaded one after the other at a location the last counts, as if the others had not
/// come.
pub proof fn law_last_load_counts(v: AppView, first: Seq<char>, second: Seq<char>)
    ensures
        v.loaded(first).loaded(second) == v.loaded(second),
{
    assert(v.loaded(first).loaded(second) =~= v.loaded(second));
}

/// The visit goes to the first tab with the label of the tab in use: it gets the new label,
/// location and page, the location it leaves comes last on its back history after all that was
/// there, and the other tabs keep everything.
pub proof fn law_entry_is_a_visit(v: AppView, page: Seq<char>, heading: Seq<char>, i: int)
    requires
        !names_wasm(v.current_location),
        0 <= i < v.tabs.len(),
        v.tabs[i].label == v.current_tab,
        forall|j: int| 0 <= j < i ==> (#[trigger] v.tabs[j]).label != v.current_tab,
    ensures
        ({
            let w = v.entered(page, heading);
            &&& w.tabs.len() == v.tabs.len()
            &&& w.tabs[i].label == heading
            &&& w.tabs[i].location == v.current_location
            &&& w.tabs[i].contents == page
            &&& w.tabs[i].status == v.tabs[i].status
            &&& w.tabs[i].forward.len() == 0
            &&& w.tabs[i].back.len() == v.tabs[i].back.len() + 1
            &&& w.tabs[i].back.last() == v.tabs[i].location
            &&& w.tabs[i].back.drop_last() == v.tabs[i].back
            &&& forall|j: int| 0 <= j < v.tabs.len() && j != i ==> w.tabs[j] == #[trigger] v.tabs[j]
        }),
{
    law_first_tab_of_a_label(v.tabs, v.current_tab, i);
    let w = v.entered(page, heading);
    assert(w.tabs[i].back.drop_last() =~= v.tabs[i].back);
}

/// The first tab of a label is the one that has it and that no tab with it comes before.
pub proof fn law_first_tab_of_a_label(tabs: Seq<TabView>, label: Seq<char>, i: int)
    requires
        0 <= i < tabs.len(),
        tabs[i].label == label,
        forall|j: int| 0 <= j < i ==> (#[trigger] tabs[j]).label != label,
    ensures
        has_label(tabs, label),
        is_first_labelled(tabs, label, i),
        first_labelled(tabs, label) == i,
{
    lemma_first_labelled(tabs, label);
    let k = first_labelled(tabs, label);
    assert(tabs[k].label == tabs[i].label);
}

/// A chosen tab is on show with its own page, location and label, whichever tab it is and
/// whatever it has visited; nothing else changes.
pub proof fn law_selected_tab_is_shown(v: AppView, i: int)
    requires
        0 <= i < v.tabs.len(),
    ensures
        ({
            let w = v.tab_selected(i);
            &&& w.current_page == v.tabs[i].contents
            &&& w.current_location == v.tabs[i].location
            &&& w.current_tab == v.tabs[i].label
            &&& w.current_status == v.current_status
            &&& w.tabs == v.tabs
            &&& same_window(v, w)
            &&& same_guest(v, w)
            &&& same_requests(v, w)
        }),
{
}

/// Of tabs chosen one after the other the last counts, as if the others had not been chosen.
pub proof fn law_last_selection_counts(v: AppView, i: int, j: int)
    requires
        0 <= i < v.tabs.len(),
        0 <= j < v.tabs.len(),
    ensures
        v.tab_selected(i).tab_selected(j) == v.tab_selected(j),
{
    assert(v.tab_selected(i).tab_selected(j) =~= v.tab_selected(j));
}

/// A new tab comes last, is blank and is on show, whatever was on show before; the other tabs and
/// everything else are left alone.
pub proof fn law_new_tab_is_blank(v: AppView)
    ensures
        ({
            let w = v.tab_added();
            let tab = w.tabs.last();
            &&& w.tabs.len() == v.tabs.len() + 1
            &&& forall|j: int| 0 <= j < v.tabs.len() ==> w.tabs[j] == #[trigger] v.tabs[j]
            &&& tab.label == "New Tab"@
            &&& tab.location == "https://example.com"@
            &&& tab.status == "Loaded"@
            &&& tab.contents.len() == 0
            &&& tab.back.len() == 0
            &&& tab.forward.len() == 0
            &&& w.current_tab == "New Tab"@
            &&& w.current_location == "https://example.com"@
            &&& w.current_page.len() == 0
            &&& w.current_status == v.current_status
            &&& same_window(v, w)
            &&& same_guest(v, w)
            &&& same_requests(v, w)
        }),
{
}

/// Taking up a request for a child window settles it and does nothing else; an opened child
/// window is the child window from then on, under its own identifier, and gets the events.
pub proof fn law_child_window_is_taken_up(v: AppView, child: u64)
    ensures
        ({
            let w = v.child_request_taken();
            &&& !w.spawn_child_window
            &&& w.quit_pressed == v.quit_pressed
            &&& same_window(v, w)
            &&& same_guest(v, w)
            &&& same_display(v, w)
            &&& same_tabs(v, w)
        }),
        ({
            let w = v.child_opened(child);
            &&& w.child_window == Some(child)
            &&& w.child_window_id == child
            &&& w.wasi_event_handler
            &&& same_window(v, w)
            &&& same_display(v, w)
            &&& same_tabs(v, w)
            &&& same_requests(v, w)
        }),
{
}

/// Each event has its answer: closing ends the browser, a frame is drawn, an extent is taken up
/// exactly where it has anything in it and as it is, and nothing else is answered.
pub proof fn law_answers(event: WindowEvent, width: u32, height: u32)
    ensures
        action_for(event) == Action::Exit <==> event is CloseRequested,
        action_for(event) == Action::Redraw <==> event is RedrawRequested,
        action_for(event) == (Action::Reconfigure { width, height }) <==> event == (
        WindowEvent::Resized { width, height }) && width > 0 && height > 0,
{
}

/// A blank tab has the label and location it was given, and nothing else.
pub proof fn law_blank_tab(label: Seq<char>, location: Seq<char>)
    ensures
        ({
            let tab = TabView::blank(label, location);
            &&& tab.label == label
            &&& tab.location == location
            &&& tab.status == "Loaded"@
            &&& tab.contents.len() == 0
            &&& tab.back.len() == 0
            &&& tab.forward.len() == 0
        }),
{
}

/// A tab that visits is at the new location with its page and label, and can look back on all
/// that it could look back on before, and then on the location it has left.
pub proof fn law_visited_tab(
    tab: TabView,
    location: Seq<char>,
    contents: Seq<char>,
    label: Seq<char>,
)
    ensures
        ({
            let after = tab.visited(location, contents, label);
            &&& after.label == label
            &&& after.location == location
            &&& after.contents == contents
            &&& after.status == tab.status
            &&& after.forward.len() == 0
            &&& after.back.len() == tab.back.len() + 1
            &&& after.back.last() == tab.location
            &&& after.back.drop_last() == tab.back
        }),
{
    assert(tab.visited(location, contents, label).back.drop_last() =~= tab.back);
}

/// A tab stands for what its fields hold, and a list of tabs for its tabs, one for one.
pub proof fn law_tab_values(tab: Tab, tabs: Seq<Tab>)
    ensures
        tab@.label == tab.label@,
        tab@.location == tab.location@,
        tab@.status == tab.status@,
        tab@.contents == tab.contents@,
        tab@.back == string_views(tab.back@),
        tab@.forward == string_views(tab.forward@),
        tab_views(tabs).len() == tabs.len(),
        forall|i: int| 0 <= i < tabs.len() ==> tab_views(tabs)[i] == (#[trigger] tabs[i])@,
{
}

/// A surface is set up as it has to be, at the extent and with the way of blending it was given,
/// and keeps its setup at another extent.
pub proof fn law_surface_setup(
    alpha_mode: CompositeAlphaMode,
    width: u32,
    height: u32,
    old_width: u32,
    old_height: u32,
)
    ensures
        ({
            let surface = SurfaceView::of_extent(alpha_mode, width, height);
            &&& surface.width == width
            &&& surface.height == height
            &&& surface.alpha_mode == alpha_mode
            &&& surface.format == TextureFormat::Bgra8UnormSrgb
            &&& surface.usage == TextureUsage::RenderAttachment
            &&& surface.present_mode == PresentMode::AutoVsync
            &&& surface.desired_maximum_frame_latency == 0
            &&& surface.view_formats.len() == 0
        }),
        SurfaceView::of_extent(alpha_mode, old_width, old_height).with_extent(width, height)
            == SurfaceView::of_extent(alpha_mode, width, height),
{
}

/// A surface stands for what its fields hold.
pub proof fn law_surface_value(config: SurfaceConfiguration, state: AppState)
    ensures
        config@.usage == config.usage,
        config@.format == config.format,
        config@.width == config.width,
        config@.height == config.height,
        config@.present_mode == config.present_mode,
        config@.desired_maximum_frame_latency == config.desired_maximum_frame_latency,
        config@.alpha_mode == config.alpha_mode,
        config@.view_formats == config.view_formats@,
        state@ == state.surface_config@,
{
}

/// The interfaces are linked in their order, and the runtime is ready after the last of them and
/// stays so.
pub proof fn law_links_in_order(successes: Seq<bool>)
    requires
        forall|k: int| 0 <= k < successes.len() ==> #[trigger] successes[k],
    ensures
        phase_after(Phase::Linking(Interface::WebGpu), successes) == if successes.len() == 0 {
            Phase::Linking(Interface::WebGpu)
        } else if successes.len() == 1 {
            Phase::Linking(Interface::GraphicsContext)
        } else if successes.len() == 2 {
            Phase::Linking(Interface::Surface)
        } else if successes.len() == 3 {
            Phase::Linking(Interface::Wasi)
        } else {
            Phase::Ready
        },
    decreases successes.len(),
{
    if successes.len() > 0 {
        let before = successes.drop_last();
        assert(forall|k: int| 0 <= k < before.len() ==> before[k] == #[trigger] successes[k]);
        assert(successes[successes.len() - 1]);
        law_links_in_order(before);
    }
}

/// A run can begin exactly where all interfaces are linked, and a runtime keeps its engine
/// through all its phases.
pub proof fn law_phases_keep_the_engine(runtime: WasmView, phase: Phase)
    ensures
        runtime.in_phase(phase).engine == runtime.engine,
        runtime.in_phase(phase).phase == phase,
        phase.is_linked() <==> phase == Phase::Ready || phase == Phase::Loading || phase
            == Phase::Instantiating || phase == Phase::Running,
{
}

} // verus!
