//! Main panel: query tabs, each with its editor, one of which is active.

use std::collections::HashMap;
use vstd::prelude::*;

verus! {

broadcast use vstd::std_specs::hash::group_hash_axioms;

/// Identifier for a tab.
pub type TabId = usize;

/// A tab in the main panel.
#[derive(Debug, Clone, PartialEq)]
pub struct Tab {
    pub id: TabId,
    pub title: String,
}

impl Tab {
    /// Create a new tab with the given ID and title.
    pub fn new(id: TabId, title: String) -> (t: Self)
        ensures
            t == (Tab { id, title }),
    {
        Tab { id, title }
    }
}

/// Tab identifiers strictly increase along the tab list.
pub open spec fn tab_ids_increasing(tabs: Seq<Tab>) -> bool {
    forall|i: int, j: int| 0 <= i < j < tabs.len() ==> #[trigger] tabs[i].id < #[trigger] tabs[j].id
}

/// Some tab carries the identifier `id`.
pub open spec fn has_tab_id(tabs: Seq<Tab>, id: TabId) -> bool {
    exists|i: int| 0 <= i < tabs.len() && #[trigger] tabs[i].id == id
}

/// The position of the tab with identifier `id` (meaningful when `has_tab_id`).
pub open spec fn tab_id_pos(tabs: Seq<Tab>, id: TabId) -> int {
    choose|i: int| 0 <= i < tabs.len() && #[trigger] tabs[i].id == id
}

/// The tab activated when the active tab at position `p` closes and `rest`
/// remains: the one now at `p`, or the last one, or none.
pub open spec fn next_active(rest: Seq<Tab>, p: int) -> Option<TabId> {
    if rest.len() == 0 {
        None
    } else if p < rest.len() {
        Some(rest[p].id)
    } else {
        Some(rest[rest.len() - 1].id)
    }
}

proof fn lemma_tab_id_pos(tabs: Seq<Tab>, id: TabId, p: int)
    requires
        tab_ids_increasing(tabs),
        0 <= p < tabs.len(),
        tabs[p].id == id,
    ensures
        tab_id_pos(tabs, id) == p,
        has_tab_id(tabs, id),
{
    assert(tabs[p].id == id);
    let q = tab_id_pos(tabs, id);
    if q != p {
        if q < p {
            assert(tabs[q].id < tabs[p].id);
        } else {
            assert(tabs[p].id < tabs[q].id);
        }
    }
}

/// Removing the tab at `p` from a list of unique identifiers leaves exactly
/// the other identifiers.
proof fn lemma_remove_ids(tabs: Seq<Tab>, p: int)
    requires
        tab_ids_increasing(tabs),
        0 <= p < tabs.len(),
    ensures
        forall|x: TabId|
            #![trigger has_tab_id(tabs.remove(p), x)]
            has_tab_id(tabs.remove(p), x) <==> (has_tab_id(tabs, x) && x != tabs[p].id),
        tab_ids_increasing(tabs.remove(p)),
{
    let r = tabs.remove(p);
    assert forall|x: TabId| has_tab_id(r, x) <==> (has_tab_id(tabs, x) && x != tabs[p].id) by {
        if has_tab_id(r, x) {
            let k = choose|k: int| 0 <= k < r.len() && #[trigger] r[k].id == x;
            if k < p {
                assert(tabs[k].id == x);
                assert(tabs[k].id < tabs[p].id);
            } else {
                assert(tabs[k + 1].id == x);
                assert(tabs[p].id < tabs[k + 1].id);
            }
        }
        if has_tab_id(tabs, x) && x != tabs[p].id {
            let k = choose|k: int| 0 <= k < tabs.len() && #[trigger] tabs[k].id == x;
            if k < p {
                assert(r[k].id == x);
            } else {
                assert(k != p);
                assert(r[k - 1].id == x);
            }
        }
    }
    assert forall|i: int, j: int| 0 <= i < j < r.len() implies #[trigger] r[i].id < #[trigger] r[j].id by {
        let a = if i < p { i } else { i + 1 };
        let b = if j < p { j } else { j + 1 };
        assert(r[i] == tabs[a]);
        assert(r[j] == tabs[b]);
        assert(tabs[a].id < tabs[b].id);
    }
}

/// Main panel state: the open tabs and the editor of each, which the caller
/// supplies when a tab opens.
pub struct MainPanel<E> {
    tabs: Vec<Tab>,
    active_tab_id: Option<TabId>,
    next_tab_id: TabId,
    editors: HashMap<TabId, E>,
}

impl<E> MainPanel<E> {
    /// The open tabs, in the order they were opened.
    pub closed spec fn tab_seq(&self) -> Seq<Tab> {
        self.tabs@
    }

    /// The editor of each open tab, by the tab's identifier.
    pub closed spec fn editor_map(&self) -> Map<TabId, E> {
        self.editors@
    }

    /// The identifier of the active tab.
    pub closed spec fn active_id(&self) -> Option<TabId> {
        self.active_tab_id
    }

    /// The identifier the next new tab will receive.
    pub closed spec fn next_id(&self) -> TabId {
        self.next_tab_id
    }

    /// The panel's invariant: unique increasing identifiers below the next
    /// one, an editor for exactly the open tabs, and an active tab exactly
    /// when a tab is open.
    pub open spec fn wf(&self) -> bool {
        &&& tab_ids_increasing(self.tab_seq())
        &&& forall|i: int|
            0 <= i < self.tab_seq().len() ==> #[trigger] self.tab_seq()[i].id < self.next_id()
        &&& self.tab_seq().len() <= self.next_id()
        &&& forall|id: TabId|
            #![trigger self.editor_map().dom().contains(id)]
            #![trigger has_tab_id(self.tab_seq(), id)]
            self.editor_map().dom().contains(id) <==> has_tab_id(self.tab_seq(), id)
        &&& (self.active_id() is None <==> self.tab_seq().len() == 0)
        &&& (self.active_id() matches Some(a) ==> has_tab_id(self.tab_seq(), a))
    }

    /// `new` is `old` with a tab titled `title`, holding `editor`, opened
    /// under the identifier `id` and made active.
    pub open spec fn opened(old: Self, new: Self, title: String, editor: E, id: TabId) -> bool {
        &&& id == old.next_id()
        &&& new.next_id() == old.next_id() + 1
        &&& new.tab_seq() == old.tab_seq().push(Tab { id, title })
        &&& new.editor_map() == old.editor_map().insert(id, editor)
        &&& new.active_id() == Some(id)
    }

    /// `new` is `old` with the tab `id` made active, when there is one.
    pub open spec fn activated(old: Self, new: Self, id: TabId) -> bool {
        &&& new.tab_seq() == old.tab_seq()
        &&& new.editor_map() == old.editor_map()
        &&& new.next_id() == old.next_id()
        &&& new.active_id() == if has_tab_id(old.tab_seq(), id) {
            Some(id)
        } else {
            old.active_id()
        }
    }

    /// `new` is `old` after closing the tab `id` together with its editor; if
    /// it was active, the tab now at its position, or else the last tab,
    /// becomes active. An unknown `id` changes nothing.
    pub open spec fn tab_removed(old: Self, new: Self, id: TabId) -> bool {
        &&& new.next_id() == old.next_id()
        &&& !has_tab_id(old.tab_seq(), id) ==> new == old
        &&& has_tab_id(old.tab_seq(), id) ==> {
            let p = tab_id_pos(old.tab_seq(), id);
            &&& new.tab_seq() == old.tab_seq().remove(p)
            &&& new.editor_map() == old.editor_map().remove(id)
            &&& new.active_id() == if old.active_id() == Some(id) {
                next_active(new.tab_seq(), p)
            } else {
                old.active_id()
            }
        }
    }

    /// Create a new main panel with no tabs.
    pub fn new() -> (p: Self)
        ensures
            p.wf(),
            p.tab_seq().len() == 0,
            p.active_id() is None,
            p.next_id() == 0,
    {
        MainPanel { tabs: Vec::new(), active_tab_id: None, next_tab_id: 0, editors: HashMap::new() }
    }

    fn position(&self, id: TabId) -> (p: Option<usize>)
        requires
            tab_ids_increasing(self.tab_seq()),
        ensures
            p is None <==> !has_tab_id(self.tab_seq(), id),
            p matches Some(i) ==> i < self.tab_seq().len() && i == tab_id_pos(self.tab_seq(), id)
                && self.tab_seq()[i as int].id == id,
    {
        let mut i: usize = 0;
        while i < self.tabs.len()
            invariant
                i <= self.tabs.len(),
                tab_ids_increasing(self.tabs@),
                forall|k: int| 0 <= k < i ==> #[trigger] self.tabs@[k].id != id,
            decreases self.tabs.len() - i,
        {
            if self.tabs[i].id == id {
                proof {
                    lemma_tab_id_pos(self.tabs@, id, i as int);
                }
                return Some(i);
            }
            i = i + 1;
        }
        None
    }

    /// Add a new tab with the given title and editor, and make it active;
    /// returns its identifier.
    pub fn add_tab(&mut self, title: String, editor: E) -> (id: TabId)
        requires
            old(self).wf(),
            old(self).next_id() < usize::MAX,
        ensures
            final(self).wf(),
            Self::opened(*old(self), *final(self), title, editor, id),
    {
        let id = self.next_tab_id;
        self.next_tab_id = self.next_tab_id + 1;
        self.tabs.push(Tab::new(id, title));
        self.active_tab_id = Some(id);
        self.editors.insert(id, editor);
        proof {
            let n = self.tabs@.len();
            assert(self.tabs@[n - 1].id == id);
            assert(has_tab_id(self.tabs@, id));
            assert forall|x: TabId| has_tab_id(self.tabs@, x) <==> (has_tab_id(old(self).tabs@, x)
                || x == id) by {
                if has_tab_id(self.tabs@, x) {
                    let k = choose|k: int| 0 <= k < self.tabs@.len() && #[trigger] self.tabs@[k].id == x;
                    if k < n - 1 {
                        assert(old(self).tabs@[k].id == x);
                    }
                }
                if has_tab_id(old(self).tabs@, x) {
                    let k = choose|k: int|
                        0 <= k < old(self).tabs@.len() && #[trigger] old(self).tabs@[k].id == x;
                    assert(self.tabs@[k].id == x);
                }
            }
        }
        id
    }

    /// Set the active tab by ID; an unknown ID leaves the panel as it is.
    pub fn set_active_tab(&mut self, id: TabId)
        requires
            old(self).wf(),
        ensures
            final(self).wf(),
            Self::activated(*old(self), *final(self), id),
    {
        if self.position(id).is_some() {
            self.active_tab_id = Some(id);
        }
    }

    /// Close a tab by ID, together with its editor; if it was active, the tab
    /// now at its position, or else the last tab, becomes active.
    pub fn close_tab(&mut self, id: TabId)
        requires
            old(self).wf(),
        ensures
            final(self).wf(),
            Self::tab_removed(*old(self), *final(self), id),
    {
        match self.position(id) {
            Some(pos) => {
                self.tabs.remove(pos);
                self.editors.remove(&id);
                proof {
                    assert(self.tabs@ =~= old(self).tabs@.remove(pos as int));
                    lemma_remove_ids(old(self).tabs@, pos as int);
                }
                if self.active_tab_id == Some(id) {
                    self.active_tab_id = if !self.tabs.is_empty() {
                        let k = if pos < self.tabs.len() {
                            pos
                        } else {
                            self.tabs.len() - 1
                        };
                        proof {
                            assert(has_tab_id(self.tabs@, self.tabs@[k as int].id));
                        }
                        Some(self.tabs[k].id)
                    } else {
                        None
                    };
                } else {
                    proof {
                        let a = self.active_tab_id.unwrap();
                        let q = tab_id_pos(old(self).tabs@, a);
                        assert(old(self).tabs@[q].id == a);
                        if q < pos {
                            assert(self.tabs@[q].id == a);
                        } else {
                            assert(self.tabs@[q - 1].id == a);
                        }
                    }
                }
            },
            None => {},
        }
    }

    /// Get the currently active tab.
    pub fn active_tab(&self) -> (t: Option<&Tab>)
        requires
            self.wf(),
        ensures
            self.active_id() is None ==> t is None,
            self.active_id() matches Some(a) ==> t matches Some(tab) && *tab == self.tab_seq()[tab_id_pos(
                self.tab_seq(),
                a,
            )],
    {
        match self.active_tab_id {
            None => None,
            Some(a) => match self.position(a) {
                Some(p) => Some(&self.tabs[p]),
                None => None,
            },
        }
    }

    /// The identifier the next new tab will receive.
    pub fn next_tab_id(&self) -> (n: TabId)
        ensures
            n == self.next_id(),
    {
        self.next_tab_id
    }

    /// Get all tabs.
    pub fn tabs(&self) -> (t: &[Tab])
        ensures
            t@ == self.tab_seq(),
    {
        self.tabs.as_slice()
    }

    /// Get the editor of a tab.
    pub fn editor(&self, tab_id: TabId) -> (e: Option<&E>)
        requires
            self.wf(),
        ensures
            e is None <==> !has_tab_id(self.tab_seq(), tab_id),
            e matches Some(r) ==> *r == self.editor_map()[tab_id],
    {
        self.editors.get(&tab_id)
    }

    /// Get the editor of a tab for modification.
    pub fn editor_mut(&mut self, tab_id: TabId) -> (e: Option<&mut E>)
        requires
            old(self).wf(),
        ensures
            !has_tab_id(old(self).tab_seq(), tab_id) ==> e is None && *final(self) == *old(self),
            has_tab_id(old(self).tab_seq(), tab_id) ==> {
                &&& e matches Some(r) && {
                    &&& *r == old(self).editor_map()[tab_id]
                    &&& final(self).editor_map() == old(self).editor_map().insert(tab_id, *final(r))
                }
                &&& final(self).tab_seq() == old(self).tab_seq()
                &&& final(self).active_id() == old(self).active_id()
                &&& final(self).next_id() == old(self).next_id()
            },
    {
        if self.position(tab_id).is_none() {
            return None;
        }
        match self.editors.entry(tab_id) {
            std::collections::hash_map::Entry::Occupied(o) => Some(o.into_mut()),
            std::collections::hash_map::Entry::Vacant(_) => None,
        }
    }
}

/// Closing the active tab hands the focus to its neighbour: the tab right
/// after it, or, when it was the last tab, the one right before it; with no
/// tab left nothing is active. Closing another tab leaves the focus where it
/// was. Either way the other tabs keep their order.
pub proof fn law_close_tab_focus<E>(p0: MainPanel<E>, p1: MainPanel<E>, i: int)
    requires
        p0.wf(),
        0 <= i < p0.tab_seq().len(),
        MainPanel::tab_removed(p0, p1, p0.tab_seq()[i].id),
    ensures
        p1.tab_seq().len() == p0.tab_seq().len() - 1,
        forall|k: int| 0 <= k < i ==> #[trigger] p1.tab_seq()[k] == p0.tab_seq()[k],
        forall|k: int| i < k < p0.tab_seq().len() ==> #[trigger] p0.tab_seq()[k] == p1.tab_seq()[k - 1],
        p0.active_id() == Some(p0.tab_seq()[i].id) && i + 1 < p0.tab_seq().len()
            ==> p1.active_id() == Some(p0.tab_seq()[i + 1].id),
        p0.active_id() == Some(p0.tab_seq()[i].id) && i + 1 == p0.tab_seq().len() && i > 0
            ==> p1.active_id() == Some(p0.tab_seq()[i - 1].id),
        p0.active_id() == Some(p0.tab_seq()[i].id) && p0.tab_seq().len() == 1
            ==> p1.active_id() is None,
        p0.active_id() != Some(p0.tab_seq()[i].id) ==> p1.active_id() == p0.active_id(),
{
    lemma_tab_id_pos(p0.tab_seq(), p0.tab_seq()[i].id, i);
    let rest = p1.tab_seq();
    assert(rest == p0.tab_seq().remove(i));
    if i + 1 < p0.tab_seq().len() {
        assert(rest[i] == p0.tab_seq()[i + 1]);
    } else if i > 0 {
        assert(rest[rest.len() - 1] == p0.tab_seq()[i - 1]);
    }
}

/// Closing the tab that was just opened gives back the tabs and editors as
/// they were before; a new tab never reuses an identifier in use.
pub proof fn law_close_after_open<E>(
    p0: MainPanel<E>,
    p1: MainPanel<E>,
    p2: MainPanel<E>,
    title: String,
    editor: E,
    id: TabId,
)
    requires
        p0.wf(),
        MainPanel::opened(p0, p1, title, editor, id),
        MainPanel::tab_removed(p1, p2, id),
    ensures
        !has_tab_id(p0.tab_seq(), id),
        p2.tab_seq() == p0.tab_seq(),
        p2.editor_map() == p0.editor_map(),
        p2.active_id() == next_active(p0.tab_seq(), p0.tab_seq().len() as int),
{
    let n = p0.tab_seq().len() as int;
    if has_tab_id(p0.tab_seq(), id) {
        let q = tab_id_pos(p0.tab_seq(), id);
        assert(p0.tab_seq()[q].id < p0.next_id());
    }
    assert(p1.tab_seq()[n].id == id);
    assert forall|i: int, j: int| 0 <= i < j < p1.tab_seq().len() implies #[trigger] p1.tab_seq()[i].id
        < #[trigger] p1.tab_seq()[j].id by {
        if j < n {
            assert(p0.tab_seq()[i].id < p0.tab_seq()[j].id);
        } else {
            assert(p0.tab_seq()[i].id < p0.next_id());
        }
    }
    lemma_tab_id_pos(p1.tab_seq(), id, n);
    assert(p2.tab_seq() =~= p0.tab_seq());
    assert(!p0.editor_map().dom().contains(id));
    assert(p2.editor_map() =~= p0.editor_map());
}

} // verus!
