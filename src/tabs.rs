//! The tab lifecycle coordinator.
//!
//! It owns the map from tab identifiers to the pages the tabs were opened on, the one
//! active tab, the counter that numbers new tabs, and the fullscreen state. It makes
//! every decision of the tab commands; the host performs the side effects it names
//! (hide this page, show that one, move the window).
//!
//! Tabs are kept in creation order. When the active tab is closed, the most recently
//! created remaining tab becomes active.

use vstd::prelude::*;
use crate::ids::{lemma_tab_label_injective, tab_label, tab_label_of};

verus! {

/// Height of the browser chrome above the tab pages, in logical pixels.
pub const CHROME_HEIGHT: u32 = 72;

/// Page recorded for a tab opened without a URL.
pub const HOME_URL: &'static str = "atom://home";

/// The bundled start page, relative to the application's assets.
pub const HOME_PAGE: &'static str = "home.html";

/// Why a tab command failed.
#[derive(Clone, Copy, Debug, PartialEq, Eq, Structural)]
pub enum TabError {
    /// No tab has the given identifier.
    NotFound,
    /// The host window does not exist (yet).
    NoMainWindow,
    /// Every tab number has been handed out.
    IdsExhausted,
}

/// The message a failed tab command reports.
pub open spec fn error_text(e: TabError) -> &'static str {
    match e {
        TabError::NotFound => "Tab not found",
        TabError::NoMainWindow => "No main window",
        TabError::IdsExhausted => "No tab ids left",
    }
}

impl TabError {
    /// The message this error reports.
    pub fn message(&self) -> (r: String)
        ensures
            r@ == error_text(*self)@,
    {
        match self {
            TabError::NotFound => String::from_str("Tab not found"),
            TabError::NoMainWindow => String::from_str("No main window"),
            TabError::IdsExhausted => String::from_str("No tab ids left"),
        }
    }
}

/// What a new tab's page loads first.
pub enum StartPage {
    /// The given URL.
    External(String),
    /// The bundled start page.
    Home,
}

/// What a tab opened with `url` loads: the URL if one is given and not empty, else
/// the start page.
pub fn start_page(url: &Option<String>) -> (r: StartPage)
    ensures
        r matches StartPage::External(u) ==> url matches Some(given) && u@ == given@,
        r is External <==> (url matches Some(given) && given@.len() > 0),
{
    match url {
        Some(u) => {
            if !u.as_str().is_empty() {
                StartPage::External(u.clone())
            } else {
                StartPage::Home
            }
        },
        None => StartPage::Home,
    }
}

/// The URL recorded for a tab opened with `url`: the given one, or the home URL.
pub fn recorded_url(url: &Option<String>) -> (r: String)
    ensures
        url matches Some(given) ==> r@ == given@,
        url is None ==> r@ == HOME_URL@,
{
    match url {
        Some(u) => u.clone(),
        None => String::from_str(HOME_URL),
    }
}

/// Window position and outer size.
#[derive(Clone, Copy, Debug, PartialEq, Eq, Structural)]
pub struct WindowGeometry {
    pub x: i32,
    pub y: i32,
    pub width: u32,
    pub height: u32,
}

/// Where a tab page stands inside the window.
#[derive(Clone, Copy, Debug, PartialEq, Eq, Structural)]
pub struct Bounds {
    pub x: u32,
    pub y: u32,
    pub width: u32,
    pub height: u32,
}

/// One tab as the contracts see it.
pub struct TabRecord {
    pub num: nat,
    pub url: Seq<char>,
}

/// The coordinator's state as the contracts see it.
pub struct TabsView {
    /// Tabs in creation order.
    pub tabs: Seq<TabRecord>,
    /// Number of the active tab.
    pub active: Option<nat>,
    /// Number of the last tab created.
    pub counter: nat,
    pub fullscreen: bool,
    /// Window geometry saved on entering fullscreen.
    pub saved: Option<WindowGeometry>,
}

impl TabsView {
    /// Tab `i` has identifier `id`.
    pub open spec fn labelled(self, i: int, id: Seq<char>) -> bool {
        0 <= i < self.tabs.len() && tab_label(self.tabs[i].num) == id
    }

    /// Some tab has identifier `id`.
    pub open spec fn has_id(self, id: Seq<char>) -> bool {
        exists|i: int| #[trigger] self.labelled(i, id)
    }

    /// Some tab has number `n`.
    pub open spec fn has_num(self, n: nat) -> bool {
        exists|i: int| 0 <= i < self.tabs.len() && #[trigger] self.tabs[i].num == n
    }

    /// Numbers increase along the creation order, were all handed out by the counter,
    /// and the active tab is one of the tabs.
    pub open spec fn wf(self) -> bool {
        &&& forall|i: int, j: int|
            0 <= i < j < self.tabs.len() ==> #[trigger] self.tabs[i].num < #[trigger] self.tabs[j].num
        &&& forall|i: int| 0 <= i < self.tabs.len() ==> 1 <= #[trigger] self.tabs[i].num <= self.counter
        &&& self.active matches Some(a) ==> self.has_num(a)
    }

    /// The identifier of the active tab.
    pub open spec fn active_label(self) -> Option<Seq<char>> {
        match self.active {
            Some(a) => Some(tab_label(a)),
            None => None,
        }
    }

    /// The state after closing tab `i`. If it was active, the most recently created
    /// remaining tab becomes active, or none if no tab remains.
    pub open spec fn after_close(self, i: int) -> TabsView {
        let rest = self.tabs.remove(i);
        TabsView {
            tabs: rest,
            active: if self.active == Some(self.tabs[i].num) {
                if rest.len() > 0 {
                    Some(rest.last().num)
                } else {
                    None
                }
            } else {
                self.active
            },
            ..self
        }
    }

    /// The state after tab `i` became active.
    pub open spec fn after_switch(self, i: int) -> TabsView {
        TabsView { active: Some(self.tabs[i].num), ..self }
    }

    /// The state after entering fullscreen, where `current` is the window geometry
    /// if the host could read it.
    pub open spec fn entered_fullscreen(self, current: Option<WindowGeometry>) -> TabsView {
        TabsView {
            fullscreen: true,
            saved: if current is Some { current } else { self.saved },
            ..self
        }
    }

    /// The state after leaving fullscreen; the saved geometry is handed back.
    pub open spec fn left_fullscreen(self) -> TabsView {
        TabsView { fullscreen: false, saved: None, ..self }
    }
}

/// The page a tab is placed on: below the chrome, or over the whole window in
/// fullscreen, as wide as the window and never of negative height.
pub open spec fn bounds_for(width: u32, height: u32, fullscreen: bool) -> Bounds {
    let top: u32 = if fullscreen { 0 } else { CHROME_HEIGHT };
    Bounds {
        x: 0,
        y: top,
        width,
        height: if height > top { (height - top) as u32 } else { 0 },
    }
}

/// Where a tab page goes in a window of inner size `width` by `height`.
pub fn tab_bounds(width: u32, height: u32, fullscreen: bool) -> (r: Bounds)
    ensures
        r == bounds_for(width, height, fullscreen),
{
    let top: u32 = if fullscreen { 0 } else { CHROME_HEIGHT };
    Bounds { x: 0, y: top, width, height: if height > top { height - top } else { 0 } }
}

struct TabEntry {
    num: u32,
    id: String,
    url: String,
}

/// The identifier and bounds of one tab page after a relayout.
pub struct TabPlacement {
    pub id: String,
    pub bounds: Bounds,
}

/// A tab number handed out by `begin_create`, with what the host does before the
/// page is created.
pub struct NewTab {
    pub num: u32,
    pub id: String,
    /// The tab that was active, whose page is to be hidden.
    pub previous: Option<String>,
}

/// The coordinator's state.
pub struct TabManager {
    tabs: Vec<TabEntry>,
    active_tab: Option<u32>,
    counter: u32,
    is_fullscreen: bool,
    pre_fs: Option<WindowGeometry>,
}

impl TabManager {
    pub closed spec fn view(&self) -> TabsView {
        TabsView {
            tabs: self.tabs@.map_values(|e: TabEntry| TabRecord { num: e.num as nat, url: e.url@ }),
            active: match self.active_tab {
                Some(a) => Some(a as nat),
                None => None,
            },
            counter: self.counter as nat,
            fullscreen: self.is_fullscreen,
            saved: self.pre_fs,
        }
    }

    /// The state is consistent: its view is well formed and every stored identifier is
    /// the label of its tab's number.
    pub closed spec fn inv(&self) -> bool {
        &&& self.view().wf()
        &&& forall|i: int|
            0 <= i < self.tabs@.len() ==> (#[trigger] self.tabs@[i]).id@ == tab_label(
                self.tabs@[i].num as nat,
            )
    }

    /// A consistent state has a well-formed view: tab numbers are distinct and
    /// increasing, none exceeds the counter, and the active tab is a live one.
    pub proof fn lemma_inv_gives_wf(&self)
        requires
            self.inv(),
        ensures
            self.view().wf(),
            self.view().counter <= u32::MAX,
    {
    }

    /// No tabs, nothing active, no tab numbered yet, not fullscreen.
    pub fn new() -> (r: Self)
        ensures
            r.inv(),
            r.view().tabs.len() == 0,
            r.view().active is None,
            r.view().counter == 0,
            !r.view().fullscreen,
            r.view().saved is None,
    {
        TabManager {
            tabs: Vec::new(),
            active_tab: None,
            counter: 0,
            is_fullscreen: false,
            pre_fs: None,
        }
    }

    /// Hands out the next tab number and returns its identifier.
    pub fn new_id(&mut self) -> (r: String)
        requires
            old(self).inv(),
            old(self).view().counter < u32::MAX,
        ensures
            final(self).inv(),
            final(self).view() == (TabsView { counter: old(self).view().counter + 1, ..old(self).view() }),
            r@ == tab_label(final(self).view().counter),
    {
        self.counter = self.counter + 1;
        proof {
            assert(self.view().tabs == old(self).view().tabs);
        }
        tab_label_of(self.counter)
    }

    /// The position of the tab with identifier `id`.
    fn find(&self, id: &String) -> (r: Option<usize>)
        requires
            self.inv(),
        ensures
            r matches Some(i) ==> self.view().labelled(i as int, id@),
            r is None ==> !self.view().has_id(id@),
    {
        let mut i: usize = 0;
        while i < self.tabs.len()
            invariant
                self.inv(),
                i <= self.tabs@.len(),
                forall|j: int| 0 <= j < i ==> !#[trigger] self.view().labelled(j, id@),
            decreases self.tabs.len() - i,
        {
            if self.tabs[i].id == *id {
                return Some(i);
            }
            i += 1;
        }
        None
    }

    /// The identifier of the active tab, if any.
    pub fn get_active_tab(&self) -> (r: Option<String>)
        requires
            self.inv(),
        ensures
            r is Some <==> self.view().active is Some,
            r matches Some(s) ==> Some(s@) == self.view().active_label(),
    {
        match self.active_tab {
            Some(a) => Some(tab_label_of(a)),
            None => None,
        }
    }

    /// Closes the tab with identifier `id`. On success, returns the identifier of the
    /// tab whose page is to be shown, where activation moved to another tab.
    pub fn close_tab(&mut self, id: &str) -> (r: Result<Option<String>, TabError>)
        requires
            old(self).inv(),
        ensures
            final(self).inv(),
            !old(self).view().has_id(id@) ==> r == Err::<Option<String>, TabError>(
                TabError::NotFound,
            ) && final(self).view() == old(self).view(),
            forall|i: int|
                #[trigger] old(self).view().labelled(i, id@) ==> final(self).view()
                    == old(self).view().after_close(i),
            r matches Ok(shown) ==> (shown is Some <==> (final(self).view().active
                != old(self).view().active && final(self).view().active is Some)),
            r matches Ok(shown) ==> (shown matches Some(s) ==> Some(s@)
                == final(self).view().active_label()),
            r matches Ok(shown) ==> (shown matches Some(s) ==> s@ != id@),
            r is Ok <==> old(self).view().has_id(id@),
    {
        let key = String::from_str(id);
        let found = self.find(&key);
        match found {
            None => Err(TabError::NotFound),
            Some(i) => {
                let ghost v = self.view();
                let removed = self.tabs.remove(i);
                assert(self.view().tabs =~= v.tabs.remove(i as int));
                let mut shown: Option<String> = None;
                if self.active_tab == Some(removed.num) {
                    if self.tabs.len() > 0 {
                        let last = self.tabs[self.tabs.len() - 1].num;
                        self.active_tab = Some(last);
                        shown = Some(tab_label_of(last));
                    } else {
                        self.active_tab = None;
                    }
                }
                proof {
                    let w = self.view();
                    assert(w == v.after_close(i as int));
                    assert forall|j: int| #[trigger] v.labelled(j, id@) implies j == i by {
                        labels_are_unique(v, i as int, j, id@);
                    }
                    assert forall|a: int, b: int|
                        0 <= a < b < w.tabs.len() implies #[trigger] w.tabs[a].num
                        < #[trigger] w.tabs[b].num by {
                        if a >= i {
                            assert(w.tabs[a] == v.tabs[a + 1]);
                        }
                        if b >= i {
                            assert(w.tabs[b] == v.tabs[b + 1]);
                        }
                    }
                    assert forall|a: int| 0 <= a < w.tabs.len() implies 1 <= #[trigger] w.tabs[a].num
                        <= w.counter by {
                        if a >= i {
                            assert(w.tabs[a] == v.tabs[a + 1]);
                        }
                    }
                    if let Some(act) = w.active {
                        if w.active == v.active {
                            let k = choose|k: int| 0 <= k < v.tabs.len() && #[trigger] v.tabs[k].num == act;
                            assert(k != i);
                            if k < i {
                                assert(w.tabs[k] == v.tabs[k]);
                            } else {
                                assert(w.tabs[k - 1] == v.tabs[k]);
                            }
                        } else {
                            let n = w.tabs.len() - 1;
                            assert(w.tabs[n].num == act);
                            if n >= i {
                                assert(w.tabs[n] == v.tabs[n + 1]);
                            } else {
                                assert(w.tabs[n] == v.tabs[n]);
                            }
                            assert(act != v.tabs[i as int].num);
                            if tab_label(act) == id@ {
                                lemma_tab_label_injective(act, v.tabs[i as int].num);
                            }
                        }
                    }
                    assert(v.labelled(i as int, id@));
                    assert forall|a: int| 0 <= a < self.tabs@.len() implies (
                    #[trigger] self.tabs@[a]).id@ == tab_label(self.tabs@[a].num as nat) by {
                        if a >= i {
                            assert(self.tabs@[a] == old(self).tabs@[a + 1]);
                        }
                    }
                }
                Ok(shown)
            },
        }
    }

    /// Makes the tab with identifier `id` active. On success, returns the identifier of
    /// the tab that was active, whose page is to be hidden before this one is shown.
    pub fn switch_tab(&mut self, id: &str) -> (r: Result<Option<String>, TabError>)
        requires
            old(self).inv(),
        ensures
            final(self).inv(),
            !old(self).view().has_id(id@) ==> r == Err::<Option<String>, TabError>(
                TabError::NotFound,
            ) && final(self).view() == old(self).view(),
            forall|i: int|
                #[trigger] old(self).view().labelled(i, id@) ==> final(self).view()
                    == old(self).view().after_switch(i),
            r is Ok <==> old(self).view().has_id(id@),
            r matches Ok(previous) ==> (previous is Some <==> old(self).view().active is Some),
            r matches Ok(previous) ==> (previous matches Some(s) ==> Some(s@)
                == old(self).view().active_label()),
    {
        let key = String::from_str(id);
        match self.find(&key) {
            None => Err(TabError::NotFound),
            Some(i) => {
                let previous = self.get_active_tab();
                self.active_tab = Some(self.tabs[i].num);
                proof {
                    assert(self.view().tabs[i as int].num == self.tabs@[i as int].num as nat);
                    assert(old(self).view().labelled(i as int, id@));
                    assert forall|j: int| #[trigger] old(self).view().labelled(j, id@) implies j
                        == i by {
                        labels_are_unique(old(self).view(), i as int, j, id@);
                    }
                }
                Ok(previous)
            },
        }
    }

    /// First step of opening a tab: hands out the next tab number. The host then hides
    /// the previously active page, creates the new one and calls `commit_create`.
    pub fn begin_create(&mut self) -> (r: Result<NewTab, TabError>)
        requires
            old(self).inv(),
        ensures
            final(self).inv(),
            old(self).view().counter == u32::MAX ==> r == Err::<NewTab, TabError>(
                TabError::IdsExhausted,
            ) && final(self).view() == old(self).view(),
            old(self).view().counter < u32::MAX ==> r is Ok && final(self).view() == (TabsView {
                counter: old(self).view().counter + 1,
                ..old(self).view()
            }),
            r matches Ok(t) ==> t.num == final(self).view().counter && t.id@ == tab_label(
                t.num as nat,
            ),
            r matches Ok(t) ==> !old(self).view().has_id(t.id@),
            r matches Ok(t) ==> forall|m: nat|
                m <= old(self).view().counter ==> #[trigger] tab_label(m) != t.id@,
            r matches Ok(t) ==> (t.previous is Some <==> old(self).view().active is Some),
            r matches Ok(t) ==> (t.previous matches Some(p) ==> Some(p@)
                == old(self).view().active_label()),
    {
        if self.counter == u32::MAX {
            return Err(TabError::IdsExhausted);
        }
        let previous = self.get_active_tab();
        proof {
            next_number_is_fresh(self.view());
        }
        let id = self.new_id();
        Ok(NewTab { num: self.counter, id, previous })
    }

    /// Last step of opening a tab: records tab number `num`, opened on `url`, and makes
    /// it active. A tab already recorded under that number gets the new URL.
    pub fn commit_create(&mut self, num: u32, url: String)
        requires
            old(self).inv(),
            1 <= num <= old(self).view().counter,
        ensures
            final(self).inv(),
            final(self).view().active == Some(num as nat),
            final(self).view().counter == old(self).view().counter,
            final(self).view().fullscreen == old(self).view().fullscreen,
            final(self).view().saved == old(self).view().saved,
            old(self).view().has_num(num as nat) ==> exists|i: int|
                0 <= i < old(self).view().tabs.len() && #[trigger] old(self).view().tabs[i].num
                    == num && final(self).view().tabs == old(self).view().tabs.update(
                    i,
                    TabRecord { num: num as nat, url: url@ },
                ),
            (forall|i: int|
                0 <= i < old(self).view().tabs.len() ==> #[trigger] old(self).view().tabs[i].num
                    < num) ==> final(self).view().tabs == old(self).view().tabs.push(
                TabRecord { num: num as nat, url: url@ },
            ),
            !old(self).view().has_num(num as nat) ==> exists|i: int|
                0 <= i <= old(self).view().tabs.len() && final(self).view().tabs
                    == #[trigger] old(self).view().tabs.insert(
                    i,
                    TabRecord { num: num as nat, url: url@ },
                ),
    {
        let ghost v = self.view();
        let ghost rec = TabRecord { num: num as nat, url: url@ };
        let mut pos: usize = 0;
        while pos < self.tabs.len() && self.tabs[pos].num < num
            invariant
                self.inv(),
                self.view() == v,
                pos <= self.tabs@.len(),
                forall|j: int| 0 <= j < pos ==> #[trigger] self.tabs@[j].num < num,
            decreases self.tabs.len() - pos,
        {
            pos += 1;
        }
        assert(pos < v.tabs.len() ==> v.tabs[pos as int].num >= num);
        let entry = TabEntry { num, id: tab_label_of(num), url };
        if pos < self.tabs.len() && self.tabs[pos].num == num {
            self.tabs.remove(pos);
            self.tabs.insert(pos, entry);
            proof {
                assert(self.view().tabs =~= v.tabs.update(pos as int, rec));
                assert(v.tabs[pos as int].num == num);
            }
        } else {
            self.tabs.insert(pos, entry);
            proof {
                assert(self.view().tabs =~= v.tabs.insert(pos as int, rec));
                if forall|j: int| 0 <= j < v.tabs.len() ==> #[trigger] v.tabs[j].num < num {
                    assert(pos == v.tabs.len());
                    assert(v.tabs.insert(pos as int, rec) =~= v.tabs.push(rec));
                }
                assert forall|j: int| 0 <= j < v.tabs.len() implies #[trigger] v.tabs[j].num
                    != num by {
                    if j >= pos {
                        assert(v.tabs[pos as int].num > num);
                    }
                }
            }
        }
        self.active_tab = Some(num);
        proof {
            let w = self.view();
            assert(w.tabs[pos as int].num == num);
            assert forall|a: int, b: int|
                0 <= a < b < w.tabs.len() implies #[trigger] w.tabs[a].num
                < #[trigger] w.tabs[b].num by {
                if a < pos && b > pos && w.tabs.len() > v.tabs.len() {
                    assert(w.tabs[b] == v.tabs[b - 1]);
                }
            }
            assert forall|a: int| 0 <= a < self.tabs@.len() implies (
            #[trigger] self.tabs@[a]).id@ == tab_label(self.tabs@[a].num as nat) by {
                if a < pos {
                    assert(self.tabs@[a] == old(self).tabs@[a]);
                } else if a > pos && w.tabs.len() > v.tabs.len() {
                    assert(self.tabs@[a] == old(self).tabs@[a - 1]);
                } else if a > pos {
                    assert(self.tabs@[a] == old(self).tabs@[a]);
                }
            }
        }
    }

    /// Enters fullscreen. `current` is the window geometry if the host could read it;
    /// it is saved to be restored on leaving. If it could not be read, the geometry
    /// saved before is kept.
    pub fn enter_fullscreen(&mut self, current: Option<WindowGeometry>)
        requires
            old(self).inv(),
        ensures
            final(self).inv(),
            final(self).view() == old(self).view().entered_fullscreen(current),
    {
        if current.is_some() {
            self.pre_fs = current;
        }
        self.is_fullscreen = true;
        proof {
            assert(self.view().tabs == old(self).view().tabs);
        }
    }

    /// Leaves fullscreen and hands back the saved window geometry, to be restored.
    pub fn leave_fullscreen(&mut self) -> (r: Option<WindowGeometry>)
        requires
            old(self).inv(),
        ensures
            final(self).inv(),
            final(self).view() == old(self).view().left_fullscreen(),
            r == old(self).view().saved,
    {
        self.is_fullscreen = false;
        let saved = self.pre_fs;
        self.pre_fs = None;
        proof {
            assert(self.view().tabs == old(self).view().tabs);
        }
        saved
    }

    /// Where every tab page goes in a window of inner size `width` by `height`, in
    /// creation order.
    pub fn layout(&self, width: u32, height: u32) -> (r: Vec<TabPlacement>)
        requires
            self.inv(),
        ensures
            r@.len() == self.view().tabs.len(),
            forall|i: int|
                0 <= i < r@.len() ==> (#[trigger] r@[i]).id@ == tab_label(self.view().tabs[i].num)
                    && r@[i].bounds == bounds_for(width, height, self.view().fullscreen),
    {
        let bounds = tab_bounds(width, height, self.is_fullscreen);
        let mut out: Vec<TabPlacement> = Vec::new();
        let mut i: usize = 0;
        while i < self.tabs.len()
            invariant
                self.inv(),
                i <= self.tabs@.len(),
                out@.len() == i,
                bounds == bounds_for(width, height, self.view().fullscreen),
                forall|j: int|
                    0 <= j < i ==> (#[trigger] out@[j]).id@ == tab_label(self.view().tabs[j].num)
                        && out@[j].bounds == bounds,
            decreases self.tabs.len() - i,
        {
            let id = self.tabs[i].id.clone();
            proof {
                assert(self.tabs@[i as int].id@ == tab_label(self.tabs@[i as int].num as nat));
            }
            out.push(TabPlacement { id, bounds });
            i += 1;
        }
        out
    }

    /// Whether the window is in fullscreen.
    pub fn is_fullscreen(&self) -> (r: bool)
        ensures
            r == self.view().fullscreen,
    {
        self.is_fullscreen
    }
}

/// At most one tab has a given identifier.
pub proof fn labels_are_unique(v: TabsView, i: int, j: int, id: Seq<char>)
    requires
        v.wf(),
        v.labelled(i, id),
        v.labelled(j, id),
    ensures
        i == j,
{
    lemma_tab_label_injective(v.tabs[i].num, v.tabs[j].num);
}

/// Tab numbers only grow: the number handed out next exceeds that of every tab there
/// is, and of every tab there was, since each of them was handed out by the counter.
pub proof fn next_number_is_fresh(v: TabsView)
    requires
        v.wf(),
    ensures
        forall|i: int| 0 <= i < v.tabs.len() ==> #[trigger] v.tabs[i].num < v.counter + 1,
        !v.has_id(tab_label(v.counter + 1)),
        forall|m: nat| m <= v.counter ==> #[trigger] tab_label(m) != tab_label(v.counter + 1),
{
    assert forall|m: nat| m <= v.counter implies #[trigger] tab_label(m) != tab_label(
        v.counter + 1,
    ) by {
        if tab_label(m) == tab_label(v.counter + 1) {
            lemma_tab_label_injective(m, v.counter + 1);
        }
    }
    if v.has_id(tab_label(v.counter + 1)) {
        let i = choose|i: int| #[trigger] v.labelled(i, tab_label(v.counter + 1));
        lemma_tab_label_injective(v.tabs[i].num, v.counter + 1);
    }
}

/// Closing the active tab while others remain hands activation to exactly one of the
/// remaining tabs: the most recently created one.
pub proof fn closing_active_tab_transfers_activation(v: TabsView, i: int)
    requires
        v.wf(),
        0 <= i < v.tabs.len(),
        v.tabs.len() >= 2,
        v.active == Some(v.tabs[i].num),
    ensures
        v.after_close(i).tabs.len() == v.tabs.len() - 1,
        v.after_close(i).active == Some(v.after_close(i).tabs.last().num),
        v.after_close(i).has_num(v.after_close(i).tabs.last().num),
        v.after_close(i).active != v.active,
{
    let w = v.after_close(i);
    let n = w.tabs.len() - 1;
    assert(w.tabs[n] == w.tabs.last());
    if i <= n {
        assert(w.tabs[n] == v.tabs[n + 1]);
    } else {
        assert(w.tabs[n] == v.tabs[n]);
    }
}

/// Entering fullscreen with a known geometry and leaving it hands back exactly that
/// geometry, and leaves the tabs as they were.
pub proof fn fullscreen_round_trip_restores_geometry(v: TabsView, g: WindowGeometry)
    ensures
        v.entered_fullscreen(Some(g)).saved == Some(g),
        v.entered_fullscreen(Some(g)).left_fullscreen().tabs == v.tabs,
        v.entered_fullscreen(Some(g)).left_fullscreen().active == v.active,
        v.entered_fullscreen(Some(g)).left_fullscreen().counter == v.counter,
        !v.entered_fullscreen(Some(g)).left_fullscreen().fullscreen,
{
}

} // verus!
