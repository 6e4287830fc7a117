//! Editor component: a set of query tabs, one of which is active.

use crate::components::{ComponentId, EditorAction};
use crate::text::{decimal, usize_to_decimal};
use vstd::prelude::*;
use vstd::string::*;

verus! {

/// A query tab in the editor.
#[derive(Debug, Clone, PartialEq)]
pub struct QueryTab {
    pub id: usize,
    pub title: String,
    pub query: String,
}

impl QueryTab {
    /// Create a new query tab with an empty query.
    pub fn new(id: usize, title: String) -> (t: Self)
        ensures
            t.id == id,
            t.title == title,
            t.query@ == Seq::<char>::empty(),
    {
        QueryTab { id, title, query: String::new() }
    }
}

/// Tab identifiers strictly increase along the tab list, so none occurs twice.
pub open spec fn ids_increasing(tabs: Seq<QueryTab>) -> bool {
    forall|i: int, j: int| 0 <= i < j < tabs.len() ==> #[trigger] tabs[i].id < #[trigger] tabs[j].id
}

/// Some tab carries the identifier `id`.
pub open spec fn has_tab(tabs: Seq<QueryTab>, id: usize) -> bool {
    exists|i: int| 0 <= i < tabs.len() && #[trigger] tabs[i].id == id
}

/// The position of the tab with identifier `id` (meaningful when `has_tab`).
pub open spec fn tab_pos(tabs: Seq<QueryTab>, id: usize) -> int {
    choose|i: int| 0 <= i < tabs.len() && #[trigger] tabs[i].id == id
}

/// The tab that becomes active when the active tab at position `p` is closed
/// and `rest` remains: the one now at `p`, or the last one, or none.
pub open spec fn successor_tab(rest: Seq<QueryTab>, p: int) -> Option<usize> {
    if rest.len() == 0 {
        None
    } else if p < rest.len() {
        Some(rest[p].id)
    } else {
        Some(rest[rest.len() - 1].id)
    }
}

proof fn lemma_pos_unique(tabs: Seq<QueryTab>, id: usize, p: int)
    requires
        ids_increasing(tabs),
        0 <= p < tabs.len(),
        tabs[p].id == id,
    ensures
        tab_pos(tabs, id) == p,
        has_tab(tabs, id),
{
    assert(tabs[p].id == id);
    let q = tab_pos(tabs, id);
    if q != p {
        if q < p {
            assert(tabs[q].id < tabs[p].id);
        } else {
            assert(tabs[p].id < tabs[q].id);
        }
    }
}

/// Editor component with tab management.
#[derive(Debug, Clone)]
pub struct EditorComponent {
    tabs: Vec<QueryTab>,
    active_tab: Option<usize>,
    next_tab_id: usize,
}

impl EditorComponent {
    /// The tabs, in the order they were opened.
    pub closed spec fn tab_list(&self) -> Seq<QueryTab> {
        self.tabs@
    }

    /// The identifier of the active tab.
    pub closed spec fn active_id(&self) -> Option<usize> {
        self.active_tab
    }

    /// The identifier the next new tab will receive.
    pub closed spec fn next_id(&self) -> usize {
        self.next_tab_id
    }

    /// The editor's invariant: identifiers are unique, increasing and below the
    /// next identifier; a tab is active exactly when there is a tab, and the
    /// active identifier names an open tab.
    pub open spec fn wf(&self) -> bool {
        &&& ids_increasing(self.tab_list())
        &&& forall|i: int|
            0 <= i < self.tab_list().len() ==> #[trigger] self.tab_list()[i].id < self.next_id()
        &&& self.tab_list().len() <= self.next_id()
        &&& (self.active_id() is None <==> self.tab_list().len() == 0)
        &&& (self.active_id() matches Some(a) ==> has_tab(self.tab_list(), a))
    }

    /// `new` is `old` with a fresh tab titled `title` opened and made active.
    pub open spec fn tab_added(old: Self, new: Self, title: Seq<char>, id: usize) -> bool {
        &&& id == old.next_id()
        &&& new.next_id() == old.next_id() + 1
        &&& new.tab_list().len() == old.tab_list().len() + 1
        &&& new.tab_list().drop_last() == old.tab_list()
        &&& new.tab_list().last().id == id
        &&& new.tab_list().last().title@ == title
        &&& new.tab_list().last().query@ == Seq::<char>::empty()
        &&& new.active_id() == Some(id)
    }

    /// `new` is `old` after closing tab `tab_id`; `found` tells whether it was open.
    pub open spec fn tab_closed(old: Self, new: Self, tab_id: usize, found: bool) -> bool {
        &&& found == has_tab(old.tab_list(), tab_id)
        &&& !found ==> new == old
        &&& found ==> {
            let p = tab_pos(old.tab_list(), tab_id);
            &&& new.tab_list() == old.tab_list().remove(p)
            &&& new.next_id() == old.next_id()
            &&& new.active_id() == if old.active_id() == Some(tab_id) {
                successor_tab(new.tab_list(), p)
            } else {
                old.active_id()
            }
        }
    }

    /// `new` is `old` after selecting tab `tab_id`; `found` tells whether it was open.
    pub open spec fn tab_selected(old: Self, new: Self, tab_id: usize, found: bool) -> bool {
        &&& found == has_tab(old.tab_list(), tab_id)
        &&& new.tab_list() == old.tab_list()
        &&& new.next_id() == old.next_id()
        &&& new.active_id() == if found {
            Some(tab_id)
        } else {
            old.active_id()
        }
    }

    /// `new` is `old` with the active tab's query replaced by `query`.
    pub open spec fn query_set(old: Self, new: Self, query: Seq<char>) -> bool {
        &&& new.active_id() == old.active_id()
        &&& new.next_id() == old.next_id()
        &&& match old.active_id() {
            None => new.tab_list() == old.tab_list(),
            Some(a) => {
                let p = tab_pos(old.tab_list(), a);
                &&& new.tab_list().len() == old.tab_list().len()
                &&& forall|i: int|
                    0 <= i < old.tab_list().len() && i != p ==> new.tab_list()[i]
                        == old.tab_list()[i]
                &&& new.tab_list()[p].id == old.tab_list()[p].id
                &&& new.tab_list()[p].title == old.tab_list()[p].title
                &&& new.tab_list()[p].query@ == query
            },
        }
    }

    /// Create a new editor component with no tabs.
    pub fn new() -> (e: Self)
        ensures
            e.wf(),
            e.tab_list().len() == 0,
            e.active_id() is None,
            e.next_id() == 0,
    {
        EditorComponent { tabs: Vec::new(), active_tab: None, next_tab_id: 0 }
    }

    /// Identifies this component.
    pub fn id(&self) -> (id: ComponentId)
        ensures
            id == ComponentId::Editor,
    {
        ComponentId::Editor
    }

    /// Display name for tabs and menus.
    pub fn title(&self) -> (t: &'static str)
        ensures
            t@ == crate::components::component_name(ComponentId::Editor),
    {
        ComponentId::Editor.name()
    }

    /// Get all tabs.
    pub fn tabs(&self) -> (t: &[QueryTab])
        ensures
            t@ == self.tab_list(),
    {
        self.tabs.as_slice()
    }

    /// Get the active tab ID.
    pub fn active_tab(&self) -> (a: Option<usize>)
        ensures
            a == self.active_id(),
    {
        self.active_tab
    }

    fn position(&self, id: usize) -> (p: Option<usize>)
        requires
            ids_increasing(self.tab_list()),
        ensures
            p is None <==> !has_tab(self.tab_list(), id),
            p matches Some(i) ==> i < self.tab_list().len() && i == tab_pos(self.tab_list(), id)
                && self.tab_list()[i as int].id == id,
    {
        let mut i: usize = 0;
        while i < self.tabs.len()
            invariant
                i <= self.tabs.len(),
                ids_increasing(self.tabs@),
                forall|k: int| 0 <= k < i ==> #[trigger] self.tabs@[k].id != id,
            decreases self.tabs.len() - i,
        {
            if self.tabs[i].id == id {
                proof {
                    lemma_pos_unique(self.tabs@, id, i as int);
                }
                return Some(i);
            }
            i = i + 1;
        }
        None
    }

    /// Get the active tab for modification.
    pub fn active_tab_mut(&mut self) -> (t: Option<&mut QueryTab>)
        requires
            old(self).wf(),
        ensures
            old(self).active_id() is None ==> t is None && *final(self) == *old(self),
            old(self).active_id() matches Some(a) ==> {
                let p = tab_pos(old(self).tab_list(), a);
                &&& t matches Some(r) && {
                    &&& *r == old(self).tab_list()[p]
                    &&& final(self).tab_list() == old(self).tab_list().update(p, *final(r))
                }
                &&& final(self).active_id() == old(self).active_id()
                &&& final(self).next_id() == old(self).next_id()
            },
    {
        match self.active_tab {
            None => None,
            Some(a) => {
                match self.position(a) {
                    Some(p) => Some(&mut self.tabs[p]),
                    None => None,
                }
            },
        }
    }
    /// Add a new tab and make it active; returns its identifier.
    pub fn add_tab(&mut self, title: String) -> (id: usize)
        requires
            old(self).wf(),
            old(self).next_id() < usize::MAX,
        ensures
            final(self).wf(),
            Self::tab_added(*old(self), *final(self), title@, id),
    {
        let id = self.next_tab_id;
        self.next_tab_id = self.next_tab_id + 1;
        self.tabs.push(QueryTab::new(id, title));
        self.active_tab = Some(id);
        proof {
            let n = self.tabs@.len();
            assert(self.tabs@[n - 1].id == id);
            assert(has_tab(self.tabs@, id));
            assert(self.tabs@.drop_last() =~= old(self).tabs@);
        }
        id
    }

    /// Close a tab by ID; returns whether it was open.
    pub fn close_tab(&mut self, tab_id: usize) -> (found: bool)
        requires
            old(self).wf(),
        ensures
            final(self).wf(),
            Self::tab_closed(*old(self), *final(self), tab_id, found),
    {
        match self.position(tab_id) {
            Some(pos) => {
                self.tabs.remove(pos);
                if self.active_tab == Some(tab_id) {
                    self.active_tab = if !self.tabs.is_empty() {
                        let k = if pos < self.tabs.len() {
                            pos
                        } else {
                            self.tabs.len() - 1
                        };
                        proof {
                            assert(has_tab(self.tabs@, self.tabs@[k as int].id));
                        }
                        Some(self.tabs[k].id)
                    } else {
                        None
                    };
                } else {
                    proof {
                        let a = self.active_tab.unwrap();
                        let q = tab_pos(old(self).tabs@, a);
                        assert(old(self).tabs@[q].id == a);
                        if q < pos {
                            assert(self.tabs@[q].id == a);
                        } else {
                            assert(q != pos);
                            assert(self.tabs@[q - 1].id == a);
                        }
                    }
                }
                proof {
                    assert(self.tabs@ =~= old(self).tabs@.remove(pos as int));
                }
                true
            },
            None => false,
        }
    }

    /// Select a tab by ID; returns whether it was open.
    pub fn select_tab(&mut self, tab_id: usize) -> (found: bool)
        requires
            old(self).wf(),
        ensures
            final(self).wf(),
            Self::tab_selected(*old(self), *final(self), tab_id, found),
    {
        match self.position(tab_id) {
            Some(_) => {
                self.active_tab = Some(tab_id);
                true
            },
            None => false,
        }
    }

    /// Update the query content of the active tab.
    pub fn set_query(&mut self, query: String)
        requires
            old(self).wf(),
        ensures
            final(self).wf(),
            Self::query_set(*old(self), *final(self), query@),
    {
        let ghost q = query@;
        match self.active_tab_mut() {
            Some(tab) => {
                tab.query = query;
            },
            None => {},
        }
        proof {
            if let Some(a) = old(self).active_id() {
                let p = tab_pos(old(self).tab_list(), a);
                assert forall|i: int, j: int|
                    0 <= i < j < self.tabs@.len() implies #[trigger] self.tabs@[i].id
                    < #[trigger] self.tabs@[j].id by {
                    assert(old(self).tabs@[i].id < old(self).tabs@[j].id);
                }
                assert(self.tabs@[p].id == a);
            }
        }
    }

    /// The text shown in the editor area for the active tab.
    pub open spec fn shown_text(&self) -> Seq<char> {
        match self.active_id() {
            None => "(No tabs open)"@,
            Some(a) => {
                let t = self.tab_list()[tab_pos(self.tab_list(), a)];
                if t.query@.len() == 0 {
                    t.title@ + ": (Enter SQL query...)"@
                } else {
                    t.title@ + ": "@ + t.query@
                }
            },
        }
    }

    /// The text shown in the editor area: the active tab's title with its
    /// query, or a prompt when the query is empty or no tab is open.
    pub fn editor_text(&self) -> (s: String)
        requires
            self.wf(),
        ensures
            s@ == self.shown_text(),
    {
        match self.active_tab {
            None => "(No tabs open)".to_string(),
            Some(a) => match self.position(a) {
                Some(p) => {
                    let t = &self.tabs[p];
                    if t.query.unicode_len() == 0 {
                        t.title.clone().concat(": (Enter SQL query...)")
                    } else {
                        t.title.clone().concat(": ").concat(t.query.as_str())
                    }
                },
                None => "(No tabs open)".to_string(),
            },
        }
    }

    /// Get the query of the active tab.
    pub fn query(&self) -> (q: Option<&str>)
        requires
            self.wf(),
        ensures
            self.active_id() is None ==> q is None,
            self.active_id() matches Some(a) ==> q matches Some(s) && s@ == self.tab_list()[tab_pos(
                self.tab_list(),
                a,
            )].query@,
    {
        match self.active_tab {
            None => None,
            Some(a) => {
                match self.position(a) {
                    Some(p) => Some(self.tabs[p].query.as_str()),
                    None => None,
                }
            },
        }
    }

    /// `new` is `old` after `action`: a new tab is titled by its number, the
    /// others close, select or edit as their own operations do.
    pub open spec fn updated(old: Self, new: Self, action: EditorAction) -> bool {
        match action {
            EditorAction::NewTab => Self::tab_added(
                old,
                new,
                "Query "@ + decimal((old.tab_list().len() + 1) as nat),
                old.next_id(),
            ),
            EditorAction::CloseTab(tab_id) => exists|found: bool|
                Self::tab_closed(old, new, tab_id, found),
            EditorAction::SelectTab(tab_id) => exists|found: bool|
                Self::tab_selected(old, new, tab_id, found),
            EditorAction::QueryChanged(query) => Self::query_set(old, new, query@),
            EditorAction::ExecuteQuery => new == old,
        }
    }

    /// Update the component based on an action.
    pub fn update(&mut self, action: EditorAction)
        requires
            old(self).wf(),
            action is NewTab ==> old(self).next_id() < usize::MAX,
        ensures
            final(self).wf(),
            Self::updated(*old(self), *final(self), action),
    {
        match action {
            EditorAction::NewTab => {
                let count = self.tabs.len() + 1;
                let title = "Query ".to_string().concat(usize_to_decimal(count).as_str());
                self.add_tab(title);
            },
            EditorAction::CloseTab(tab_id) => {
                self.close_tab(tab_id);
            },
            EditorAction::SelectTab(tab_id) => {
                self.select_tab(tab_id);
            },
            EditorAction::QueryChanged(query) => {
                self.set_query(query);
            },
            EditorAction::ExecuteQuery => {},
        }
    }
}

impl Default for EditorComponent {
    fn default() -> (e: Self)
        ensures
            e.wf(),
            e.tab_list().len() == 0,
            e.active_id() is None,
            e.next_id() == 0,
    {
        Self::new()
    }
}

/// A new tab never reuses an identifier in use, and closing the tab that was
/// just opened gives back the tab list as it was before.
pub proof fn law_close_after_add(
    e0: EditorComponent,
    e1: EditorComponent,
    e2: EditorComponent,
    title: Seq<char>,
    id: usize,
    found: bool,
)
    requires
        e0.wf(),
        EditorComponent::tab_added(e0, e1, title, id),
        EditorComponent::tab_closed(e1, e2, id, found),
    ensures
        !has_tab(e0.tab_list(), id),
        found,
        e2.tab_list() == e0.tab_list(),
        e2.active_id() == successor_tab(e0.tab_list(), e0.tab_list().len() as int),
{
    let n = e0.tab_list().len() as int;
    if has_tab(e0.tab_list(), id) {
        let q = tab_pos(e0.tab_list(), id);
        assert(e0.tab_list()[q].id < e0.next_id());
    }
    assert(e1.tab_list()[n] == e1.tab_list().last());
    assert forall|i: int, j: int| 0 <= i < j < e1.tab_list().len() implies #[trigger] e1.tab_list()[i].id
        < #[trigger] e1.tab_list()[j].id by {
        assert(e1.tab_list()[i] == e1.tab_list().drop_last()[i]);
        if j < n {
            assert(e1.tab_list()[j] == e1.tab_list().drop_last()[j]);
            assert(e0.tab_list()[i].id < e0.tab_list()[j].id);
        } else {
            assert(e0.tab_list()[i].id < e0.next_id());
        }
    }
    lemma_pos_unique(e1.tab_list(), id, n);
    assert(e2.tab_list() =~= e0.tab_list()) by {
        assert(e1.tab_list().remove(n) =~= e1.tab_list().drop_last());
    }
}

/// Two tab lists with the same identifiers at the same positions.
proof fn lemma_same_ids(t0: Seq<QueryTab>, t1: Seq<QueryTab>)
    requires
        t0.len() == t1.len(),
        forall|i: int| 0 <= i < t0.len() ==> #[trigger] t1[i].id == t0[i].id,
    ensures
        ids_increasing(t0) ==> ids_increasing(t1),
        forall|id: usize| #[trigger] has_tab(t1, id) <==> has_tab(t0, id),
{
    assert forall|i: int, j: int| ids_increasing(t0) && 0 <= i < j < t1.len() implies #[trigger] t1[i].id
        < #[trigger] t1[j].id by {
        assert(t0[i].id < t0[j].id);
    }
    assert forall|id: usize| #[trigger] has_tab(t1, id) <==> has_tab(t0, id) by {
        if has_tab(t1, id) {
            let k = choose|k: int| 0 <= k < t1.len() && #[trigger] t1[k].id == id;
            assert(t0[k].id == id);
        }
        if has_tab(t0, id) {
            let k = choose|k: int| 0 <= k < t0.len() && #[trigger] t0[k].id == id;
            assert(t1[k].id == id);
        }
    }
}

/// Removing the tab at `p` keeps identifiers increasing and every other
/// identifier.
proof fn lemma_remove_tab(t: Seq<QueryTab>, p: int)
    requires
        ids_increasing(t),
        0 <= p < t.len(),
    ensures
        ids_increasing(t.remove(p)),
        forall|id: usize| has_tab(t, id) && id != t[p].id ==> #[trigger] has_tab(t.remove(p), id),
{
    let r = t.remove(p);
    assert forall|i: int, j: int| 0 <= i < j < r.len() implies #[trigger] r[i].id < #[trigger] r[j].id by {
        let a = if i < p { i } else { i + 1 };
        let b = if j < p { j } else { j + 1 };
        assert(r[i] == t[a]);
        assert(r[j] == t[b]);
        assert(t[a].id < t[b].id);
    }
    assert forall|id: usize| has_tab(t, id) && id != t[p].id implies #[trigger] has_tab(r, id) by {
        let k = choose|k: int| 0 <= k < t.len() && #[trigger] t[k].id == id;
        if k < p {
            assert(r[k].id == id);
        } else {
            assert(k != p);
            assert(r[k - 1].id == id);
        }
    }
}

/// Closing the active tab hands the focus to its neighbour: the tab right
/// after it, or, when it was the last tab, the one right before it; with no
/// tab left nothing is active. Closing another tab leaves the focus where it
/// was. Either way the other tabs keep their order.
pub proof fn law_close_tab_focus(e0: EditorComponent, e1: EditorComponent, i: int, found: bool)
    requires
        e0.wf(),
        0 <= i < e0.tab_list().len(),
        EditorComponent::tab_closed(e0, e1, e0.tab_list()[i].id, found),
    ensures
        found,
        e1.tab_list().len() == e0.tab_list().len() - 1,
        forall|k: int| 0 <= k < i ==> #[trigger] e1.tab_list()[k] == e0.tab_list()[k],
        forall|k: int| i < k < e0.tab_list().len() ==> #[trigger] e0.tab_list()[k] == e1.tab_list()[k - 1],
        e0.active_id() == Some(e0.tab_list()[i].id) && i + 1 < e0.tab_list().len()
            ==> e1.active_id() == Some(e0.tab_list()[i + 1].id),
        e0.active_id() == Some(e0.tab_list()[i].id) && i + 1 == e0.tab_list().len() && i > 0
            ==> e1.active_id() == Some(e0.tab_list()[i - 1].id),
        e0.active_id() == Some(e0.tab_list()[i].id) && e0.tab_list().len() == 1
            ==> e1.active_id() is None,
        e0.active_id() != Some(e0.tab_list()[i].id) ==> e1.active_id() == e0.active_id(),
{
    lemma_pos_unique(e0.tab_list(), e0.tab_list()[i].id, i);
    let rest = e1.tab_list();
    assert(rest == e0.tab_list().remove(i));
    if i + 1 < e0.tab_list().len() {
        assert(rest[i] == e0.tab_list()[i + 1]);
    } else if i > 0 {
        assert(rest[rest.len() - 1] == e0.tab_list()[i - 1]);
    }
}

/// Every action keeps the editor's invariant: tab identifiers stay pairwise
/// distinct, no tab is active exactly when none is open, and an active
/// identifier names an open tab. A new tab needs an identifier below the
/// largest `usize`.
pub proof fn law_update_keeps_invariant(e0: EditorComponent, e1: EditorComponent, action: EditorAction)
    requires
        e0.wf(),
        action is NewTab ==> e0.next_id() < usize::MAX,
        EditorComponent::updated(e0, e1, action),
    ensures
        e1.wf(),
        forall|i: int, j: int|
            0 <= i < j < e1.tab_list().len() ==> #[trigger] e1.tab_list()[i].id
                != #[trigger] e1.tab_list()[j].id,
        e1.active_id() is None <==> e1.tab_list().len() == 0,
        e1.active_id() matches Some(a) ==> exists|i: int|
            0 <= i < e1.tab_list().len() && #[trigger] e1.tab_list()[i].id == a,
{
    let t0 = e0.tab_list();
    let t1 = e1.tab_list();
    match action {
        EditorAction::NewTab => {
            let n = t0.len() as int;
            let id = e0.next_id();
            assert forall|i: int| 0 <= i < n implies #[trigger] t1[i] == t0[i] by {
                assert(t1.drop_last()[i] == t1[i]);
            }
            assert(t1[n].id == id);
            assert forall|i: int, j: int| 0 <= i < j < t1.len() implies #[trigger] t1[i].id
                < #[trigger] t1[j].id by {
                if j < n {
                    assert(t0[i].id < t0[j].id);
                } else {
                    assert(t0[i].id < e0.next_id());
                }
            }
            assert forall|i: int| 0 <= i < t1.len() implies #[trigger] t1[i].id < e1.next_id() by {
                if i < n {
                    assert(t0[i].id < e0.next_id());
                }
            }
            assert(has_tab(t1, id));
        },
        EditorAction::CloseTab(tab_id) => {
            let found = choose|found: bool| EditorComponent::tab_closed(e0, e1, tab_id, found);
            if found {
                let p = tab_pos(t0, tab_id);
                lemma_pos_unique(t0, tab_id, tab_pos(t0, tab_id));
                lemma_remove_tab(t0, p);
                assert forall|i: int| 0 <= i < t1.len() implies #[trigger] t1[i].id < e1.next_id() by {
                    if i < p {
                        assert(t1[i] == t0[i]);
                    } else {
                        assert(t1[i] == t0[i + 1]);
                    }
                }
                if e0.active_id() == Some(tab_id) {
                    if t1.len() > 0 {
                        if p < t1.len() {
                            assert(has_tab(t1, t1[p].id));
                        } else {
                            assert(has_tab(t1, t1[t1.len() - 1].id));
                        }
                    }
                } else {
                    let a = e0.active_id().unwrap();
                    assert(has_tab(t1, a));
                }
            }
        },
        EditorAction::SelectTab(tab_id) => {
            let found = choose|found: bool| EditorComponent::tab_selected(e0, e1, tab_id, found);
        },
        EditorAction::QueryChanged(query) => {
            match e0.active_id() {
                None => {},
                Some(a) => {
                    let p = tab_pos(t0, a);
                    assert forall|i: int| 0 <= i < t0.len() implies #[trigger] t1[i].id == t0[i].id by {
                        if i != p {
                            assert(t1[i] == t0[i]);
                        }
                    }
                    lemma_same_ids(t0, t1);
                    assert forall|i: int| 0 <= i < t1.len() implies #[trigger] t1[i].id < e1.next_id() by {
                        assert(t1[i].id == t0[i].id);
                    }
                },
            }
        },
        EditorAction::ExecuteQuery => {},
    }
    assert forall|i: int, j: int| 0 <= i < j < t1.len() implies #[trigger] t1[i].id != #[trigger] t1[j].id by {
        assert(t1[i].id < t1[j].id);
    }
    if e1.active_id() is Some {
        let a = e1.active_id().unwrap();
        assert(has_tab(t1, a));
    }
}

} // verus!
