//! A tab: the page it shows and the locations it has shown before.
use vstd::prelude::*;

verus! {

use crate::markdown::string_views;

/// One tab of the browser.
pub struct Tab {
    /// The name on the tab's button.
    pub label: String,
    pub location: String,
    pub status: String,
    /// The page that the tab shows.
    pub contents: String,
    /// The locations visited before this one, the latest last.
    pub back: Vec<String>,
    /// The locations to return to after going back.
    pub forward: Vec<String>,
}

/// The mathematical value of a [`Tab`].
#[verifier::ext_equal]
pub struct TabView {
    pub label: Seq<char>,
    pub location: Seq<char>,
    pub status: Seq<char>,
    pub contents: Seq<char>,
    pub back: Seq<Seq<char>>,
    pub forward: Seq<Seq<char>>,
}

impl View for Tab {
    type V = TabView;

    open spec fn view(&self) -> TabView {
        TabView {
            label: self.label@,
            location: self.location@,
            status: self.status@,
            contents: self.contents@,
            back: string_views(self.back@),
            forward: string_views(self.forward@),
        }
    }
}

/// The values of a list of tabs.
pub open spec fn tab_views(tabs: Seq<Tab>) -> Seq<TabView> {
    tabs.map_values(|tab: Tab| tab@)
}

impl TabView {
    /// A tab with no history and nothing loaded in it.
    pub open spec fn blank(label: Seq<char>, location: Seq<char>) -> TabView {
        TabView {
            label,
            location,
            status: "Loaded"@,
            contents: Seq::empty(),
            back: Seq::empty(),
            forward: Seq::empty(),
        }
    }

    /// The tab after a visit: the location it leaves goes on the back history, and there is
    /// nothing to go forward to any more.
    pub open spec fn visited(
        self,
        location: Seq<char>,
        contents: Seq<char>,
        label: Seq<char>,
    ) -> TabView {
        TabView {
            label,
            location,
            status: self.status,
            contents,
            back: self.back.push(self.location),
            forward: Seq::empty(),
        }
    }
}

impl Tab {
    /// A tab with no history and nothing loaded in it.
    pub fn blank(label: String, location: String) -> (tab: Tab)
        ensures
            tab@ == TabView::blank(label@, location@),
    {
        let tab = Tab {
            label,
            location,
            status: "Loaded".to_string(),
            contents: String::new(),
            back: Vec::new(),
            forward: Vec::new(),
        };
        assert(tab@ =~= TabView::blank(label@, location@));
        tab
    }

    /// Moves the tab on to another location.
    pub fn visit(&mut self, location: String, contents: String, label: String)
        ensures
            final(self)@ == old(self)@.visited(location@, contents@, label@),
    {
        let ghost before = self.back@;
        let left = self.location.clone();
        self.back.push(left);
        assert(string_views(self.back@) == string_views(before).push(left@));
        self.forward.clear();
        assert(string_views(self.forward@) == Seq::<Seq<char>>::empty());
        self.location = location;
        self.contents = contents;
        self.label = label;
    }
}

} // verus!
