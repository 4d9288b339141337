//! The browser: what it holds, and what it does about each thing that happens to it.
use crate::location::{go, guest_path, is_wasm, Request};
use crate::markdown::get_heading;
use crate::state::{INITIAL_HEIGHT, INITIAL_WIDTH, NO_CHILD_ID, PARENT_ID};
use crate::surface::{AppState, CompositeAlphaMode, SurfaceConfiguration, TextureFormat};
use crate::tab::Tab;
use vstd::prelude::*;
use vstd::string::*;

verus! {

use crate::location::{guest_file, names_wasm, request_for};
use crate::markdown::{heading_of, markdown_events};
use crate::state::{first_labelled, has_label, is_first_labelled, lemma_first_labelled, AppView};
use crate::tab::tab_views;

/// The browser.
pub struct App {
    state: Option<AppState>,
    window: Option<u64>,
    child_window: Option<u64>,
    wasi_event_handler: bool,
    parent_window_id: u64,
    child_window_id: u64,
    current_status: String,
    current_location: String,
    current_tab: String,
    current_page: String,
    tabs: Vec<Tab>,
    quit_pressed: bool,
    spawn_child_window: bool,
}

impl View for App {
    type V = AppView;

    closed spec fn view(&self) -> AppView {
        AppView {
            state: match self.state {
                Some(state) => Some(state@),
                None => None,
            },
            window: self.window,
            child_window: self.child_window,
            wasi_event_handler: self.wasi_event_handler,
            parent_window_id: self.parent_window_id,
            child_window_id: self.child_window_id,
            current_status: self.current_status@,
            current_location: self.current_location@,
            current_tab: self.current_tab@,
            current_page: self.current_page@,
            tabs: tab_views(self.tabs@),
            quit_pressed: self.quit_pressed,
            spawn_child_window: self.spawn_child_window,
        }
    }
}

/// Something that has happened to the browser window.
pub enum WindowEvent {
    CloseRequested,
    RedrawRequested,
    Resized { width: u32, height: u32 },
    /// Anything else.
    Other,
}

/// What is to be done about a [`WindowEvent`].
#[derive(Clone, Copy, Debug, PartialEq, Eq, Structural)]
pub enum Action {
    /// Leave the event loop.
    Exit,
    /// Draw the browser, and ask for the next frame.
    Redraw,
    /// Set the surface up anew at this extent.
    Reconfigure { width: u32, height: u32 },
    Nothing,
}

/// What is to be done before an event of the browser window is looked at.
pub struct EventPlan {
    /// Leave the event loop.
    pub exit: bool,
    /// Pass the event on to the guest.
    pub forward: bool,
    /// Open a child window and run the guest in this file.
    pub run_guest: Option<String>,
}

/// How the browser goes about drawing a frame.
#[derive(Clone, Copy, Debug, PartialEq, Eq, Structural)]
pub enum Frame {
    /// Draw nothing.
    Skip,
    /// Draw on a texture of this extent.
    Draw { width: u32, height: u32 },
}

/// What came of asking the surface for a texture to draw on.
#[derive(Clone, Copy, Debug, PartialEq, Eq, Structural)]
pub enum TextureStatus {
    Acquired,
    /// The surface has changed since it was set up.
    Outdated,
    /// No texture can be had.
    Failed,
}

/// What is to be done about an event.
pub open spec fn action_for(event: WindowEvent) -> Action {
    match event {
        WindowEvent::CloseRequested => Action::Exit,
        WindowEvent::RedrawRequested => Action::Redraw,
        WindowEvent::Resized { width, height } => if width > 0 && height > 0 {
            Action::Reconfigure { width, height }
        } else {
            Action::Nothing
        },
        WindowEvent::Other => Action::Nothing,
    }
}

/// Goes back in the history. There is nothing to it yet, so it always succeeds.
pub fn back() -> (r: Result<(), String>)
    ensures
        r is Ok,
{
    Ok(())
}

/// Goes forward in the history. There is nothing to it yet, so it always succeeds.
pub fn forward() -> (r: Result<(), String>)
    ensures
        r is Ok,
{
    Ok(())
}

impl App {
    /// A browser without a window, with one blank tab.
    pub fn new() -> (app: App)
        ensures
            app@ == AppView::initial(),
            app@.wf(),
    {
        let mut tabs: Vec<Tab> = Vec::new();
        tabs.push(Tab::blank("".to_string(), "https://example.com/".to_string()));
        let app = App {
            state: None,
            window: None,
            child_window: None,
            wasi_event_handler: false,
            parent_window_id: PARENT_ID,
            child_window_id: NO_CHILD_ID,
            current_status: "Loading...".to_string(),
            current_location: "https://example.com/".to_string(),
            current_tab: "".to_string(),
            current_page: "".to_string(),
            tabs,
            quit_pressed: false,
            spawn_child_window: false,
        };
        proof {
            reveal_strlit("");
            assert(""@ =~= Seq::<char>::empty());
            assert(app@ =~= AppView::initial());
            assert(app@.tabs[0].label == app@.current_tab);
        }
        app
    }

    /// The index of the first tab with the label of the tab in use.
    fn current_tab_index(&self) -> (i: usize)
        requires
            self@.wf(),
        ensures
            is_first_labelled(self@.tabs, self@.current_tab, i as int),
    {
        let mut i: usize = 0;
        while i < self.tabs.len()
            invariant
                i <= self.tabs.len(),
                has_label(self@.tabs, self@.current_tab),
                forall|j: int|
                    0 <= j < i ==> (#[trigger] self@.tabs[j]).label != self@.current_tab,
            decreases self.tabs.len() - i,
        {
            assert(self@.tabs[i as int] == self.tabs@[i as int]@);
            if self.tabs[i].label == self.current_tab {
                return i;
            }
            i += 1;
        }
        assert(false);
        i
    }

    /// Records that the tab in use has visited the current location.
    fn record_visit(&mut self, page: String, heading: String)
        requires
            old(self)@.wf(),
        ensures
            final(self)@.wf(),
            final(self)@ == old(self)@.visit_recorded(page@, heading@),
    {
        let i = self.current_tab_index();
        let ghost before = self@;
        let ghost tabs = self.tabs@;
        self.current_tab = heading.clone();
        let location = self.current_location.clone();
        self.tabs[i].visit(location, page, heading);
        proof {
            let k = first_labelled(before.tabs, before.current_tab);
            lemma_first_labelled(before.tabs, before.current_tab);
            assert(k == i) by {
                assert(before.tabs[k].label == before.tabs[i as int].label);
            }
            assert(self@.tabs =~= before.visit_recorded(page@, heading@).tabs);
            assert(self@ =~= before.visit_recorded(page@, heading@));
            assert(self@.tabs[i as int].label == self@.current_tab);
            assert forall|j: int| 0 <= j < self@.tabs.len() implies (
            #[trigger] self@.tabs[j]).forward.len() == 0 && self@.tabs[j].status == "Loaded"@ by {
                assert(j != i ==> self@.tabs[j] == before.tabs[j]);
                assert(before.tabs[i as int].status == "Loaded"@);
            }
        }
    }

    /// The extent to ask for when the browser window opens.
    pub fn initial_inner_size() -> (r: (u32, u32))
        ensures
            r == (INITIAL_WIDTH, INITIAL_HEIGHT),
    {
        (INITIAL_WIDTH, INITIAL_HEIGHT)
    }

    /// Takes up a newly opened window, given what its surface offers. A browser that has a
    /// window keeps it.
    pub fn set_window(
        &mut self,
        window: u64,
        formats: &Vec<TextureFormat>,
        alpha_modes: &Vec<CompositeAlphaMode>,
    )
        requires
            old(self)@.wf(),
            formats@.contains(TextureFormat::Bgra8UnormSrgb),
            alpha_modes@.len() > 0,
        ensures
            final(self)@.wf(),
            final(self)@ == old(self)@.window_set(window, alpha_modes@[0]),
    {
        let state = AppState::new(formats, alpha_modes, INITIAL_WIDTH, INITIAL_WIDTH);
        if self.window.is_none() {
            self.window = Some(window);
        }
        if self.state.is_none() {
            self.state = Some(state);
        }
    }

    /// Follows a change of the window's extent. An extent with nothing in it is ignored.
    pub fn handle_resized(&mut self, width: u32, height: u32)
        requires
            old(self)@.wf(),
            width > 0 && height > 0 ==> old(self)@.state is Some,
        ensures
            final(self)@.wf(),
            final(self)@ == old(self)@.resized(width, height),
    {
        if width > 0 && height > 0 {
            if let Some(state) = &mut self.state {
                state.resize_surface(width, height);
            }
        }
    }

    /// How to draw a frame, given what the window says of being minimized, if anything.
    pub fn begin_redraw(&self, minimized: Option<bool>) -> (frame: Frame)
        requires
            self@.wf(),
            self@.window is Some,
        ensures
            frame == if minimized == Some(true) {
                Frame::Skip
            } else {
                Frame::Draw { width: self@.state->0.width, height: self@.state->0.height }
            },
    {
        if let Some(true) = minimized {
            return Frame::Skip;
        }
        let state = self.state.as_ref().unwrap();
        Frame::Draw { width: state.surface_config.width, height: state.surface_config.height }
    }

    /// How the surface of the browser window is set up.
    pub fn surface_config(&self) -> (config: &SurfaceConfiguration)
        requires
            self@.state is Some,
        ensures
            config@ == self@.state->0,
    {
        &self.state.as_ref().unwrap().surface_config
    }

    /// Whether to go on drawing, given what came of asking for a texture. An outdated surface
    /// sits this frame out.
    pub fn draws_on(texture: TextureStatus) -> (r: bool)
        requires
            texture != TextureStatus::Failed,
        ensures
            r == (texture == TextureStatus::Acquired),
    {
        match texture {
            TextureStatus::Acquired => true,
            _ => false,
        }
    }

    /// The user asks to leave.
    pub fn press_quit(&mut self)
        requires
            old(self)@.wf(),
        ensures
            final(self)@.wf(),
            final(self)@ == old(self)@.quit(),
    {
        self.quit_pressed = true;
    }

    /// The user asks for a child window.
    pub fn press_spawn_child_window(&mut self)
        requires
            old(self)@.wf(),
        ensures
            final(self)@.wf(),
            final(self)@ == old(self)@.child_requested(),
    {
        self.spawn_child_window = true;
    }

    /// Puts the outcome of a walk through the history on the status line.
    pub fn show_history_outcome(&mut self, outcome: Result<(), String>)
        requires
            old(self)@.wf(),
        ensures
            final(self)@.wf(),
            final(self)@ == old(self)@.with_status(
                match outcome {
                    Ok(_) => "Loaded"@,
                    Err(message) => message@,
                },
            ),
    {
        if let Err(message) = outcome {
            self.current_status = message;
        } else {
            self.current_status = "Loaded".to_string();
        }
    }

    /// The user presses the back button.
    pub fn press_back(&mut self)
        requires
            old(self)@.wf(),
        ensures
            final(self)@.wf(),
            final(self)@ == old(self)@.with_status("Loaded"@),
    {
        self.show_history_outcome(back());
    }

    /// The user presses the forward button.
    pub fn press_forward(&mut self)
        requires
            old(self)@.wf(),
        ensures
            final(self)@.wf(),
            final(self)@ == old(self)@.with_status("Loaded"@),
    {
        self.show_history_outcome(forward());
    }

    /// The user edits the location.
    pub fn edit_location(&mut self, location: String)
        requires
            old(self)@.wf(),
        ensures
            final(self)@.wf(),
            final(self)@ == old(self)@.with_location(location@),
    {
        self.current_location = location;
    }

    /// The user asks for the current location: says what to fetch.
    pub fn begin_load(&mut self) -> (request: Request)
        requires
            old(self)@.wf(),
        ensures
            final(self)@.wf(),
            final(self)@ == old(self)@.with_status("Loading..."@),
            request@ == request_for(old(self)@.current_location),
    {
        self.current_status = "Loading...".to_string();
        go(self.current_location.clone())
    }

    /// The user clicks a link of the page: says what to fetch.
    pub fn follow_link(&mut self, link: String) -> (request: Request)
        requires
            old(self)@.wf(),
        ensures
            final(self)@.wf(),
            final(self)@ == old(self)@.with_location(link@).with_status("Loading..."@),
            request@ == request_for(link@),
    {
        self.current_location = link;
        self.begin_load()
    }

    /// What the go button or a link has asked for has come. No visit is recorded.
    pub fn finish_load(&mut self, page: String)
        requires
            old(self)@.wf(),
        ensures
            final(self)@.wf(),
            final(self)@ == old(self)@.loaded(page@),
            final(self)@.current_page == page@,
            !names_wasm(old(self)@.current_location) ==> final(self)@.child_window is None,
    {
        self.current_page = page;
        if is_wasm(self.current_location.clone()) {
            self.spawn_child_window = true;
        } else {
            self.child_window_id = NO_CHILD_ID;
            self.child_window = None;
            self.current_status = "Loaded".to_string();
        }
    }

    /// What the user has entered a location for has come, with the heading it is known by.
    pub fn finish_entry_under(&mut self, page: String, heading: String)
        requires
            old(self)@.wf(),
        ensures
            final(self)@.wf(),
            final(self)@ == old(self)@.entered(page@, heading@),
            final(self)@.current_page == page@,
            !names_wasm(old(self)@.current_location) ==> final(self)@.child_window is None,
            !names_wasm(old(self)@.current_location) ==> final(self)@.current_tab == heading@,
    {
        let guest = is_wasm(self.current_location.clone());
        self.finish_load(page.clone());
        if !guest {
            self.record_visit(page, heading);
        }
    }

    /// What the user has entered a location for has come.
    pub fn finish_entry(&mut self, page: String)
        requires
            old(self)@.wf(),
        ensures
            final(self)@.wf(),
            final(self)@ == old(self)@.entered(page@, heading_of(markdown_events(page@))),
            final(self)@.current_page == page@,
            !names_wasm(old(self)@.current_location) ==> final(self)@.child_window is None,
    {
        if is_wasm(self.current_location.clone()) {
            self.finish_load(page);
        } else {
            let heading = get_heading(page.clone());
            self.finish_entry_under(page, heading);
        }
    }

    /// The user chooses a tab.
    pub fn select_tab(&mut self, i: usize)
        requires
            old(self)@.wf(),
            i < old(self)@.tabs.len(),
        ensures
            final(self)@.wf(),
            final(self)@ == old(self)@.tab_selected(i as int),
            final(self)@.current_page == old(self)@.tabs[i as int].contents,
            final(self)@.current_location == old(self)@.tabs[i as int].location,
            final(self)@.current_tab == old(self)@.tabs[i as int].label,
    {
        let ghost before = self@;
        assert(before.tabs[i as int] == self.tabs@[i as int]@);
        self.current_location = self.tabs[i].location.clone();
        self.current_page = self.tabs[i].contents.clone();
        self.current_tab = self.tabs[i].label.clone();
        assert(self@ =~= before.tab_selected(i as int));
        assert(self@.tabs[i as int].label == self@.current_tab);
    }

    /// The user opens a tab, which becomes the tab in use.
    pub fn add_tab(&mut self)
        requires
            old(self)@.wf(),
        ensures
            final(self)@.wf(),
            final(self)@ == old(self)@.tab_added(),
    {
        let ghost before = self@;
        let tab = Tab::blank("New Tab".to_string(), "https://example.com".to_string());
        self.current_tab = tab.label.clone();
        self.current_location = tab.location.clone();
        self.current_page = tab.contents.clone();
        self.tabs.push(tab);
        proof {
            assert(self@.tabs =~= before.tab_added().tabs);
            assert(self@ =~= before.tab_added());
            assert(self@.tabs[before.tabs.len() as int].label == self@.current_tab);
        }
    }

    /// What the status line says.
    pub fn status_display(&self) -> (r: String)
        ensures
            r@ == "Status: "@ + self@.current_status,
    {
        let mut display = "Status: ".to_string();
        display.append(self.current_status.as_str());
        display
    }

    /// Whether the page is shown, rather than a guest.
    pub fn shows_page(&self) -> (r: bool)
        ensures
            r == (self@.child_window_id == NO_CHILD_ID),
    {
        self.child_window_id == NO_CHILD_ID
    }

    /// Something happens to the browser window: says what to do before it is looked at. A
    /// request for a child window is taken up here.
    pub fn window_event(&mut self) -> (plan: EventPlan)
        requires
            old(self)@.wf(),
            old(self)@.window is Some,
        ensures
            final(self)@.wf(),
            final(self)@ == old(self)@.child_request_taken(),
            plan.exit == old(self)@.quit_pressed,
            plan.forward == old(self)@.wasi_event_handler,
            plan.run_guest is Some <==> old(self)@.spawn_child_window,
            plan.run_guest is Some ==> plan.run_guest->0@ == guest_file(),
    {
        let run_guest = if self.spawn_child_window {
            self.spawn_child_window = false;
            Some(guest_path())
        } else {
            None
        };
        EventPlan { exit: self.quit_pressed, forward: self.wasi_event_handler, run_guest }
    }

    /// A child window has been opened for a guest.
    pub fn open_child(&mut self, child: u64)
        requires
            old(self)@.wf(),
        ensures
            final(self)@.wf(),
            final(self)@ == old(self)@.child_opened(child),
    {
        self.child_window = Some(child);
        self.wasi_event_handler = true;
        self.child_window_id = child;
    }

    /// Looks at what has happened to the browser window: says what to do about it.
    pub fn dispatch(&mut self, event: WindowEvent) -> (action: Action)
        requires
            old(self)@.wf(),
            old(self)@.window is Some,
        ensures
            final(self)@.wf(),
            final(self)@ == match event {
                WindowEvent::Resized { width, height } => old(self)@.resized(width, height),
                _ => old(self)@,
            },
            action == action_for(event),
    {
        match event {
            WindowEvent::CloseRequested => Action::Exit,
            WindowEvent::RedrawRequested => Action::Redraw,
            WindowEvent::Resized { width, height } => {
                self.handle_resized(width, height);
                if width > 0 && height > 0 {
                    Action::Reconfigure { width, height }
                } else {
                    Action::Nothing
                }
            },
            WindowEvent::Other => Action::Nothing,
        }
    }

    /// The child window that is to be painted after the browser, if one is shown.
    pub fn child_to_paint(&self) -> (child: Option<u64>)
        requires
            self@.wf(),
        ensures
            child == if self@.child_window_id != NO_CHILD_ID {
                self@.child_window
            } else {
                None
            },
            self@.child_window_id != NO_CHILD_ID ==> child == Some(self@.child_window_id),
    {
        if self.child_window_id != NO_CHILD_ID {
            self.child_window
        } else {
            None
        }
    }

    /// What the status line says about the current location.
    pub fn current_status(&self) -> (r: &str)
        ensures
            r@ == self@.current_status,
    {
        self.current_status.as_str()
    }

    /// The location in the location bar.
    pub fn current_location(&self) -> (r: &str)
        ensures
            r@ == self@.current_location,
    {
        self.current_location.as_str()
    }

    /// The label of the tab in use.
    pub fn current_tab(&self) -> (r: &str)
        ensures
            r@ == self@.current_tab,
    {
        self.current_tab.as_str()
    }

    /// The page that is shown.
    pub fn current_page(&self) -> (r: &str)
        ensures
            r@ == self@.current_page,
    {
        self.current_page.as_str()
    }

    /// The number of tabs.
    pub fn tab_count(&self) -> (n: usize)
        ensures
            n == self@.tabs.len(),
    {
        self.tabs.len()
    }

    /// A tab, by its place in the side panel.
    pub fn tab(&self, i: usize) -> (tab: &Tab)
        requires
            i < self@.tabs.len(),
        ensures
            tab@ == self@.tabs[i as int],
    {
        &self.tabs[i]
    }

    /// The identifier that the browser window goes by.
    pub fn parent_window_id(&self) -> (id: u64)
        ensures
            id == self@.parent_window_id,
    {
        self.parent_window_id
    }

    /// The identifier that the child window goes by.
    pub fn child_window_id(&self) -> (id: u64)
        ensures
            id == self@.child_window_id,
    {
        self.child_window_id
    }

    /// The window that a guest draws in.
    pub fn child_window(&self) -> (child: Option<u64>)
        ensures
            child == self@.child_window,
    {
        self.child_window
    }

    /// Whether there is a window to draw in.
    pub fn has_window(&self) -> (r: bool)
        ensures
            r == self@.window is Some,
    {
        self.window.is_some()
    }
}

} // verus!
