//! The browser as a mathematical state machine: its states, and the steps between them.
use vstd::prelude::*;

verus! {

use crate::location::names_wasm;
use crate::surface::{CompositeAlphaMode, SurfaceView};
use crate::tab::TabView;

/// The identifier that the child window goes by while there is none.
pub const NO_CHILD_ID: u64 = 2;

/// The identifier that the parent window goes by.
pub const PARENT_ID: u64 = 1;

/// The width at which the browser window starts.
pub const INITIAL_WIDTH: u32 = 3840;

/// The height at which the browser window starts.
pub const INITIAL_HEIGHT: u32 = 2160;

/// The state of the browser.
#[verifier::ext_equal]
pub struct AppView {
    /// The surface of the browser window, once there is one.
    pub state: Option<SurfaceView>,
    /// The browser window, once there is one.
    pub window: Option<u64>,
    /// The window that a guest draws in.
    pub child_window: Option<u64>,
    /// Whether window events are passed on to a guest.
    pub wasi_event_handler: bool,
    pub parent_window_id: u64,
    pub child_window_id: u64,
    pub current_status: Seq<char>,
    pub current_location: Seq<char>,
    /// The label of the tab in use.
    pub current_tab: Seq<char>,
    pub current_page: Seq<char>,
    pub tabs: Seq<TabView>,
    /// Whether the user has asked to leave.
    pub quit_pressed: bool,
    /// Whether a child window is to be opened.
    pub spawn_child_window: bool,
}

/// Whether `i` is the index of the first tab with the given label.
pub open spec fn is_first_labelled(tabs: Seq<TabView>, label: Seq<char>, i: int) -> bool {
    &&& 0 <= i < tabs.len()
    &&& tabs[i].label == label
    &&& forall|j: int| 0 <= j < i ==> (#[trigger] tabs[j]).label != label
}

/// Whether some tab has the given label.
pub open spec fn has_label(tabs: Seq<TabView>, label: Seq<char>) -> bool {
    exists|i: int| 0 <= i < tabs.len() && (#[trigger] tabs[i]).label == label
}

/// The index of the first tab with the given label, where there is one; else the number of tabs.
pub open spec fn first_labelled(tabs: Seq<TabView>, label: Seq<char>) -> int
    decreases tabs.len(),
{
    if tabs.len() == 0 || tabs[0].label == label {
        0
    } else {
        1 + first_labelled(tabs.drop_first(), label)
    }
}

/// Where some tab has the label, [`first_labelled`] is the first that has.
pub proof fn lemma_first_labelled(tabs: Seq<TabView>, label: Seq<char>)
    requires
        has_label(tabs, label),
    ensures
        is_first_labelled(tabs, label, first_labelled(tabs, label)),
    decreases tabs.len(),
{
    let i = choose|i: int| 0 <= i < tabs.len() && (#[trigger] tabs[i]).label == label;
    if tabs[0].label != label {
        let rest = tabs.drop_first();
        assert(rest[i - 1].label == label);
        lemma_first_labelled(rest, label);
        let k = first_labelled(rest, label);
        assert(tabs[k + 1] == rest[k]);
        assert forall|j: int| 0 <= j < k + 1 implies (#[trigger] tabs[j]).label != label by {
            if j > 0 {
                assert(tabs[j] == rest[j - 1]);
            }
        }
    }
}

impl AppView {
    /// What holds of the browser in every state it can reach.
    pub open spec fn wf(self) -> bool {
        // The window and its surface come together, and the surface never loses its setup or
        // its extent.
        &&& self.window is Some <==> self.state is Some
        &&& self.state matches Some(surface) ==> {
            &&& surface == SurfaceView::of_extent(
                surface.alpha_mode,
                surface.width,
                surface.height,
            )
            &&& surface.width > 0
            &&& surface.height > 0
        }
        // The child's identifier is that of the child window, and a guest gets the events of a
        // browser that shows its window.
        &&& self.child_window_id == match self.child_window {
            Some(child) => child,
            None => NO_CHILD_ID,
        }
        &&& self.child_window is Some ==> self.wasi_event_handler
        &&& self.parent_window_id == PARENT_ID
        // The tab in use is one of the tabs.
        &&& has_label(self.tabs, self.current_tab)
        // There is never a location to go forward to.
        &&& forall|i: int| 0 <= i < self.tabs.len() ==> (#[trigger] self.tabs[i]).forward.len() == 0
        &&& forall|i: int| 0 <= i < self.tabs.len() ==> (#[trigger] self.tabs[i]).status == "Loaded"@
    }

    /// The state in which the browser starts.
    pub open spec fn initial() -> AppView {
        AppView {
            state: None,
            window: None,
            child_window: None,
            wasi_event_handler: false,
            parent_window_id: PARENT_ID,
            child_window_id: NO_CHILD_ID,
            current_status: "Loading..."@,
            current_location: "https://example.com/"@,
            current_tab: Seq::empty(),
            current_page: Seq::empty(),
            tabs: seq![TabView::blank(Seq::empty(), "https://example.com/"@)],
            quit_pressed: false,
            spawn_child_window: false,
        }
    }

    /// A window has been opened. Only the first one is used, with a surface as high as it is wide.
    pub open spec fn window_set(self, window: u64, alpha_mode: CompositeAlphaMode) -> AppView {
        AppView {
            window: if self.window is Some { self.window } else { Some(window) },
            state: if self.state is Some {
                self.state
            } else {
                Some(SurfaceView::of_extent(alpha_mode, INITIAL_WIDTH, INITIAL_WIDTH))
            },
            ..self
        }
    }

    /// The browser window has been resized. An extent with nothing in it is ignored.
    pub open spec fn resized(self, width: u32, height: u32) -> AppView {
        if width > 0 && height > 0 {
            AppView { state: Some(self.state->0.with_extent(width, height)), ..self }
        } else {
            self
        }
    }

    /// The user has asked to leave.
    pub open spec fn quit(self) -> AppView {
        AppView { quit_pressed: true, ..self }
    }

    /// The user has asked for a child window.
    pub open spec fn child_requested(self) -> AppView {
        AppView { spawn_child_window: true, ..self }
    }

    /// The status line has been set.
    pub open spec fn with_status(self, status: Seq<char>) -> AppView {
        AppView { current_status: status, ..self }
    }

    /// The user has typed a location.
    pub open spec fn with_location(self, location: Seq<char>) -> AppView {
        AppView { current_location: location, ..self }
    }

    /// No child window is shown any more.
    pub open spec fn child_hidden(self) -> AppView {
        AppView { child_window: None, child_window_id: NO_CHILD_ID, ..self }
    }

    /// The first tab with the label of the tab in use has visited the current location, and is
    /// now the tab in use under its new label.
    pub open spec fn visit_recorded(self, page: Seq<char>, heading: Seq<char>) -> AppView {
        let i = first_labelled(self.tabs, self.current_tab);
        AppView {
            tabs: self.tabs.update(
                i,
                self.tabs[i].visited(self.current_location, page, heading),
            ),
            current_tab: heading,
            ..self
        }
    }

    /// What was fetched for the current location has come, on the way that records no visit: a
    /// guest asks for a child window, a page is shown in place of any guest.
    pub open spec fn loaded(self, page: Seq<char>) -> AppView {
        let shown = AppView { current_page: page, ..self };
        if names_wasm(self.current_location) {
            shown.child_requested()
        } else {
            shown.child_hidden().with_status("Loaded"@)
        }
    }

    /// What was fetched for the location that the user has entered has come: like
    /// [`loaded`](Self::loaded), and a page is recorded as a visit. `heading` is the heading of
    /// the page.
    pub open spec fn entered(self, page: Seq<char>, heading: Seq<char>) -> AppView {
        if names_wasm(self.current_location) {
            self.loaded(page)
        } else {
            self.loaded(page).visit_recorded(page, heading)
        }
    }

    /// The user has chosen a tab.
    pub open spec fn tab_selected(self, i: int) -> AppView {
        AppView {
            current_location: self.tabs[i].location,
            current_page: self.tabs[i].contents,
            current_tab: self.tabs[i].label,
            ..self
        }
    }

    /// The user has opened a tab.
    pub open spec fn tab_added(self) -> AppView {
        let added = AppView {
            tabs: self.tabs.push(TabView::blank("New Tab"@, "https://example.com"@)),
            ..self
        };
        added.tab_selected(self.tabs.len() as int)
    }

    /// A request for a child window has been taken up.
    pub open spec fn child_request_taken(self) -> AppView {
        AppView { spawn_child_window: false, ..self }
    }

    /// A child window has been opened for a guest.
    pub open spec fn child_opened(self, child: u64) -> AppView {
        AppView {
            child_window: Some(child),
            child_window_id: child,
            wasi_event_handler: true,
            ..self
        }
    }
}

} // verus!
