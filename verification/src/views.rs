//! View bookkeeping: which components are shown, and in which region.

use crate::components::ComponentId;
use vstd::prelude::*;
use vstd::view::View as _;

verus! {

/// Identifies dockable regions in the application.
#[derive(Debug, Clone, Copy, PartialEq, Eq, Structural, Hash)]
pub enum RegionId {
    LeftPanel,
    MainPanel,
}

/// The human-readable name of a region.
pub open spec fn region_name(r: RegionId) -> Seq<char> {
    match r {
        RegionId::LeftPanel => "Left Panel"@,
        RegionId::MainPanel => "Main Panel"@,
    }
}

impl RegionId {
    /// Get all region IDs.
    pub fn all() -> (ids: &'static [RegionId])
        ensures
            ids@ == seq![RegionId::LeftPanel, RegionId::MainPanel],
    {
        let ids: &'static [RegionId] = &[RegionId::LeftPanel, RegionId::MainPanel];
        ids
    }

    /// Get the human-readable name.
    pub fn name(&self) -> (s: &'static str)
        ensures
            s@ == region_name(*self),
    {
        match self {
            RegionId::LeftPanel => "Left Panel",
            RegionId::MainPanel => "Main Panel",
        }
    }
}

/// A component with visibility state; only enabled views are rendered in
/// their region.
pub struct View<C> {
    pub component: C,
    pub enabled: bool,
    pub region: RegionId,
}

impl<C> View<C> {
    /// Create a new, enabled view for a component.
    pub fn new(component: C, region: RegionId) -> (v: Self)
        ensures
            v == (View { component, enabled: true, region }),
    {
        View { component, enabled: true, region }
    }

    /// Check if this view is enabled.
    pub fn is_enabled(&self) -> (b: bool)
        ensures
            b == self.enabled,
    {
        self.enabled
    }

    /// Enable this view.
    pub fn enable(&mut self)
        ensures
            *final(self) == (View { enabled: true, ..*old(self) }),
    {
        self.enabled = true;
    }

    /// Disable this view.
    pub fn disable(&mut self)
        ensures
            *final(self) == (View { enabled: false, ..*old(self) }),
    {
        self.enabled = false;
    }

    /// Toggle this view's enabled state.
    pub fn toggle(&mut self)
        ensures
            *final(self) == (View { enabled: !old(self).enabled, ..*old(self) }),
    {
        self.enabled = !self.enabled;
    }

    /// Get the region this view belongs to.
    pub fn region(&self) -> (r: RegionId)
        ensures
            r == self.region,
    {
        self.region
    }

    /// Get the underlying component.
    pub fn component(&self) -> (c: &C)
        ensures
            *c == self.component,
    {
        &self.component
    }
}

/// How a view's enabled state changes.
#[derive(Debug, Clone, Copy, PartialEq, Eq, Structural)]
pub enum EnabledChange {
    Enable,
    Disable,
    Toggle,
}

/// The enabled state after applying `change` to `enabled`.
pub open spec fn changed(change: EnabledChange, enabled: bool) -> bool {
    match change {
        EnabledChange::Enable => true,
        EnabledChange::Disable => false,
        EnabledChange::Toggle => !enabled,
    }
}

/// No component identifier occurs twice among the entries.
pub open spec fn ids_unique<C>(s: Seq<(ComponentId, View<C>)>) -> bool {
    forall|i: int, j: int| 0 <= i < j < s.len() ==> #[trigger] s[i].0 != #[trigger] s[j].0
}

/// Some entry is keyed `id`.
pub open spec fn has_id<C>(s: Seq<(ComponentId, View<C>)>, id: ComponentId) -> bool {
    exists|i: int| 0 <= i < s.len() && #[trigger] s[i].0 == id
}

/// The position of the entry keyed `id` (meaningful when `has_id`).
pub open spec fn id_pos<C>(s: Seq<(ComponentId, View<C>)>, id: ComponentId) -> int {
    choose|i: int| 0 <= i < s.len() && #[trigger] s[i].0 == id
}

/// The views of the entries that lie in `region` and, when `only_enabled`,
/// are enabled, in registration order.
pub open spec fn select_views<C>(
    s: Seq<(ComponentId, View<C>)>,
    region: RegionId,
    only_enabled: bool,
) -> Seq<View<C>>
    decreases s.len(),
{
    if s.len() == 0 {
        Seq::empty()
    } else {
        let rest = select_views(s.drop_last(), region, only_enabled);
        let v = s.last().1;
        if v.region == region && (v.enabled || !only_enabled) {
            rest.push(v)
        } else {
            rest
        }
    }
}

proof fn lemma_id_pos<C>(s: Seq<(ComponentId, View<C>)>, id: ComponentId, p: int)
    requires
        ids_unique(s),
        0 <= p < s.len(),
        s[p].0 == id,
    ensures
        id_pos(s, id) == p,
        has_id(s, id),
{
    assert(s[p].0 == id);
    let q = id_pos(s, id);
    if q != p {
        if q < p {
            assert(s[q].0 != s[p].0);
        } else {
            assert(s[p].0 != s[q].0);
        }
    }
}

/// Centralized registry of views, keyed by component identifier.
pub struct ViewRegistry<C> {
    views: Vec<(ComponentId, View<C>)>,
}

impl<C> ViewRegistry<C> {
    /// The registered views, in registration order, with their identifiers.
    pub closed spec fn entries(&self) -> Seq<(ComponentId, View<C>)> {
        self.views@
    }

    /// The registry's invariant: one view per component.
    pub open spec fn wf(&self) -> bool {
        ids_unique(self.entries())
    }

    /// Whether the view of `id` is registered and enabled.
    pub open spec fn shows(&self, id: ComponentId) -> bool {
        has_id(self.entries(), id) && self.entries()[id_pos(self.entries(), id)].1.enabled
    }

    /// `new` is `old` with `change` applied to the view of `id`; `found` tells
    /// whether `id` was registered.
    pub open spec fn view_updated(
        old: Self,
        new: Self,
        id: ComponentId,
        found: bool,
        change: EnabledChange,
    ) -> bool {
        &&& found == has_id(old.entries(), id)
        &&& !found ==> new.entries() == old.entries()
        &&& found ==> {
            let p = id_pos(old.entries(), id);
            let e = old.entries()[p];
            new.entries() == old.entries().update(
                p,
                (id, View { enabled: changed(change, e.1.enabled), ..e.1 }),
            )
        }
    }

    /// Create a new empty registry.
    pub fn new() -> (r: Self)
        ensures
            r.wf(),
            r.entries().len() == 0,
    {
        ViewRegistry { views: Vec::new() }
    }

    fn position(&self, id: ComponentId) -> (p: Option<usize>)
        requires
            self.wf(),
        ensures
            p is None <==> !has_id(self.entries(), id),
            p matches Some(i) ==> i < self.entries().len() && i == id_pos(self.entries(), id)
                && self.entries()[i as int].0 == id,
    {
        let mut i: usize = 0;
        while i < self.views.len()
            invariant
                i <= self.views.len(),
                ids_unique(self.views@),
                forall|k: int| 0 <= k < i ==> #[trigger] self.views@[k].0 != id,
            decreases self.views.len() - i,
        {
            if self.views[i].0 == id {
                proof {
                    lemma_id_pos(self.views@, id, i as int);
                }
                return Some(i);
            }
            i = i + 1;
        }
        None
    }

    /// `new` is `old` with `component` registered, enabled, as the view of
    /// `id` in `region`: in place of an earlier view of `id`, or at the end.
    pub open spec fn registered(old: Self, new: Self, id: ComponentId, component: C, region: RegionId) -> bool {
        let v = View { component, enabled: true, region };
        &&& has_id(old.entries(), id) ==> new.entries() == old.entries().update(
            id_pos(old.entries(), id),
            (id, v),
        )
        &&& !has_id(old.entries(), id) ==> new.entries() == old.entries().push((id, v))
    }

    /// Register `component` as the view of `id` in `region`, enabled; a view
    /// already registered under `id` is replaced in place.
    pub fn register(&mut self, id: ComponentId, component: C, region: RegionId)
        requires
            old(self).wf(),
        ensures
            final(self).wf(),
            Self::registered(*old(self), *final(self), id, component, region),
    {
        let view = View::new(component, region);
        match self.position(id) {
            Some(p) => {
                self.views.set(p, (id, view));
                proof {
                    assert forall|i: int, j: int|
                        0 <= i < j < self.views@.len() implies #[trigger] self.views@[i].0
                        != #[trigger] self.views@[j].0 by {
                        assert(old(self).views@[i].0 != old(self).views@[j].0);
                    }
                }
            },
            None => {
                self.views.push((id, view));
                proof {
                    assert forall|i: int, j: int|
                        0 <= i < j < self.views@.len() implies #[trigger] self.views@[i].0
                        != #[trigger] self.views@[j].0 by {
                        if j < old(self).views@.len() {
                            assert(old(self).views@[i].0 != old(self).views@[j].0);
                        } else {
                            assert(old(self).views@[i].0 == self.views@[i].0);
                        }
                    }
                }
            },
        }
    }

    fn apply_change(&mut self, id: ComponentId, change: EnabledChange) -> (found: bool)
        requires
            old(self).wf(),
        ensures
            final(self).wf(),
            Self::view_updated(*old(self), *final(self), id, found, change),
    {
        match self.position(id) {
            Some(p) => {
                let (k, mut view) = self.views.remove(p);
                match change {
                    EnabledChange::Enable => view.enable(),
                    EnabledChange::Disable => view.disable(),
                    EnabledChange::Toggle => view.toggle(),
                }
                self.views.insert(p, (k, view));
                proof {
                    assert(self.views@ =~= old(self).views@.update(
                        p as int,
                        (id, View { enabled: changed(change, old(self).views@[p as int].1.enabled), ..old(self).views@[p as int].1 }),
                    ));
                    assert forall|i: int, j: int|
                        0 <= i < j < self.views@.len() implies #[trigger] self.views@[i].0
                        != #[trigger] self.views@[j].0 by {
                        assert(old(self).views@[i].0 != old(self).views@[j].0);
                    }
                }
                true
            },
            None => false,
        }
    }

    /// Enable a view by component ID; returns whether it is registered.
    pub fn enable(&mut self, id: ComponentId) -> (found: bool)
        requires
            old(self).wf(),
        ensures
            final(self).wf(),
            Self::view_updated(*old(self), *final(self), id, found, EnabledChange::Enable),
    {
        self.apply_change(id, EnabledChange::Enable)
    }

    /// Disable a view by component ID; returns whether it is registered.
    pub fn disable(&mut self, id: ComponentId) -> (found: bool)
        requires
            old(self).wf(),
        ensures
            final(self).wf(),
            Self::view_updated(*old(self), *final(self), id, found, EnabledChange::Disable),
    {
        self.apply_change(id, EnabledChange::Disable)
    }

    /// Toggle a view's enabled state; returns whether it is registered.
    pub fn toggle(&mut self, id: ComponentId) -> (found: bool)
        requires
            old(self).wf(),
        ensures
            final(self).wf(),
            Self::view_updated(*old(self), *final(self), id, found, EnabledChange::Toggle),
    {
        self.apply_change(id, EnabledChange::Toggle)
    }

    /// Check if a view is registered and enabled.
    pub fn is_enabled(&self, id: ComponentId) -> (b: bool)
        requires
            self.wf(),
        ensures
            b == self.shows(id),
    {
        match self.position(id) {
            Some(p) => self.views[p].1.is_enabled(),
            None => false,
        }
    }

    fn collect_views(&self, region: RegionId, only_enabled: bool) -> (r: Vec<&View<C>>)
        ensures
            r@.len() == select_views(self.entries(), region, only_enabled).len(),
            forall|i: int|
                0 <= i < r@.len() ==> *r@[i] == select_views(self.entries(), region, only_enabled)[i],
    {
        let mut r: Vec<&View<C>> = Vec::new();
        let mut i: usize = 0;
        while i < self.views.len()
            invariant
                i <= self.views.len(),
                r@.len() == select_views(self.views@.take(i as int), region, only_enabled).len(),
                forall|k: int|
                    0 <= k < r@.len() ==> *r@[k] == select_views(
                        self.views@.take(i as int),
                        region,
                        only_enabled,
                    )[k],
            decreases self.views.len() - i,
        {
            let v = &self.views[i].1;
            proof {
                assert(self.views@.take(i + 1).drop_last() =~= self.views@.take(i as int));
                assert(self.views@.take(i + 1).last() == self.views@[i as int]);
            }
            if v.region == region && (v.enabled || !only_enabled) {
                r.push(v);
            }
            i = i + 1;
        }
        assert(self.views@.take(self.views@.len() as int) =~= self.views@);
        r
    }

    /// Get the enabled views of a region, in registration order.
    pub fn enabled_views(&self, region: RegionId) -> (r: Vec<&View<C>>)
        ensures
            r@.len() == select_views(self.entries(), region, true).len(),
            forall|i: int|
                0 <= i < r@.len() ==> *r@[i] == select_views(self.entries(), region, true)[i],
    {
        self.collect_views(region, true)
    }

    /// Get all views of a region, enabled or not, in registration order.
    pub fn region_views(&self, region: RegionId) -> (r: Vec<&View<C>>)
        ensures
            r@.len() == select_views(self.entries(), region, false).len(),
            forall|i: int|
                0 <= i < r@.len() ==> *r@[i] == select_views(self.entries(), region, false)[i],
    {
        self.collect_views(region, false)
    }

    /// Get a view by component ID.
    pub fn get_view(&self, id: ComponentId) -> (v: Option<&View<C>>)
        requires
            self.wf(),
        ensures
            v is None <==> !has_id(self.entries(), id),
            v matches Some(w) ==> *w == self.entries()[id_pos(self.entries(), id)].1,
    {
        match self.position(id) {
            Some(p) => Some(&self.views[p].1),
            None => None,
        }
    }

    /// Get all component IDs, in registration order.
    pub fn all_ids(&self) -> (ids: Vec<ComponentId>)
        ensures
            ids@ == self.entries().map_values(|e: (ComponentId, View<C>)| e.0),
    {
        let mut ids: Vec<ComponentId> = Vec::new();
        let mut i: usize = 0;
        while i < self.views.len()
            invariant
                i <= self.views.len(),
                ids@ == self.views@.take(i as int).map_values(|e: (ComponentId, View<C>)| e.0),
            decreases self.views.len() - i,
        {
            ids.push(self.views[i].0);
            proof {
                assert(self.views@.take(i + 1).map_values(|e: (ComponentId, View<C>)| e.0) =~= self.views@.take(
                    i as int,
                ).map_values(|e: (ComponentId, View<C>)| e.0).push(self.views@[i as int].0));
            }
            i = i + 1;
        }
        assert(self.views@.take(self.views@.len() as int) =~= self.views@);
        ids
    }
}

impl<C> Default for ViewRegistry<C> {
    fn default() -> (r: Self)
        ensures
            r.wf(),
            r.entries().len() == 0,
    {
        Self::new()
    }
}

/// A registered view is enabled and lies in the region it was registered
/// for; the other views are as they were.
pub proof fn law_register_shows<C>(
    r0: ViewRegistry<C>,
    r1: ViewRegistry<C>,
    id: ComponentId,
    component: C,
    region: RegionId,
)
    requires
        r0.wf(),
        r1.wf(),
        ViewRegistry::registered(r0, r1, id, component, region),
    ensures
        r1.shows(id),
        r1.entries()[id_pos(r1.entries(), id)].1.region == region,
        forall|other: ComponentId| other != id ==> (#[trigger] r1.shows(other) <==> r0.shows(other)),
{
    if has_id(r0.entries(), id) {
        let p = id_pos(r0.entries(), id);
        lemma_id_pos(r0.entries(), id, p);
        assert(r1.entries()[p].0 == id);
    } else {
        let n = r0.entries().len() as int;
        assert(r1.entries()[n].0 == id);
    }
    assert forall|other: ComponentId| other != id implies (#[trigger] r1.shows(other) <==> r0.shows(
        other,
    )) by {
        if has_id(r0.entries(), other) {
            let q = id_pos(r0.entries(), other);
            assert(r1.entries()[q] == r0.entries()[q]);
            assert(has_id(r1.entries(), other));
        }
        if has_id(r1.entries(), other) {
            let q = id_pos(r1.entries(), other);
            assert(r1.entries()[q].0 == other);
            assert(r0.entries()[q] == r1.entries()[q]);
            assert(has_id(r0.entries(), other));
        }
    }
    if has_id(r0.entries(), id) {
        lemma_id_pos(r1.entries(), id, id_pos(r0.entries(), id));
    } else {
        lemma_id_pos(r1.entries(), id, r0.entries().len() as int);
    }
}

/// After `enable` the view shows exactly when it is registered, and after
/// `disable` it does not show; no other view changes.
pub proof fn law_enable_disable<C>(
    r0: ViewRegistry<C>,
    r1: ViewRegistry<C>,
    id: ComponentId,
    found: bool,
    change: EnabledChange,
)
    requires
        r0.wf(),
        change != EnabledChange::Toggle,
        ViewRegistry::view_updated(r0, r1, id, found, change),
    ensures
        r1.shows(id) == (found && change == EnabledChange::Enable),
        forall|other: ComponentId| other != id ==> (#[trigger] r1.shows(other) <==> r0.shows(other)),
{
    lemma_updated_keeps_ids(r0, r1, id, found, change);
}

/// Toggling a registered view flips whether it shows; toggling twice gives
/// back the registry as it was.
pub proof fn law_toggle_twice<C>(
    r0: ViewRegistry<C>,
    r1: ViewRegistry<C>,
    r2: ViewRegistry<C>,
    id: ComponentId,
    f1: bool,
    f2: bool,
)
    requires
        r0.wf(),
        ViewRegistry::view_updated(r0, r1, id, f1, EnabledChange::Toggle),
        ViewRegistry::view_updated(r1, r2, id, f2, EnabledChange::Toggle),
    ensures
        f1 == f2,
        f1 ==> r1.shows(id) == !r0.shows(id),
        r2.entries() == r0.entries(),
{
    lemma_updated_keeps_ids(r0, r1, id, f1, EnabledChange::Toggle);
    if f1 {
        let p = id_pos(r0.entries(), id);
        lemma_id_pos(r0.entries(), id, p);
        lemma_id_pos(r1.entries(), id, p);
        assert(r2.entries() =~= r0.entries());
    }
}

proof fn lemma_updated_keeps_ids<C>(
    r0: ViewRegistry<C>,
    r1: ViewRegistry<C>,
    id: ComponentId,
    found: bool,
    change: EnabledChange,
)
    requires
        r0.wf(),
        ViewRegistry::view_updated(r0, r1, id, found, change),
    ensures
        r1.wf(),
        r1.entries().len() == r0.entries().len(),
        forall|i: int| 0 <= i < r0.entries().len() ==> #[trigger] r1.entries()[i].0 == r0.entries()[i].0,
        has_id(r1.entries(), id) == found,
        found ==> id_pos(r1.entries(), id) == id_pos(r0.entries(), id),
        found ==> r1.shows(id) == changed(change, r0.entries()[id_pos(r0.entries(), id)].1.enabled),
        forall|other: ComponentId| other != id ==> (#[trigger] r1.shows(other) <==> r0.shows(other)),
{
    if found {
        let p = id_pos(r0.entries(), id);
        lemma_id_pos(r0.entries(), id, p);
        assert forall|i: int, j: int|
            0 <= i < j < r1.entries().len() implies #[trigger] r1.entries()[i].0
            != #[trigger] r1.entries()[j].0 by {
            assert(r0.entries()[i].0 != r0.entries()[j].0);
        }
        lemma_id_pos(r1.entries(), id, p);
        assert forall|other: ComponentId| other != id implies (#[trigger] r1.shows(other) <==> r0.shows(
            other,
        )) by {
            if has_id(r0.entries(), other) {
                let q = id_pos(r0.entries(), other);
                lemma_id_pos(r0.entries(), other, q);
                lemma_id_pos(r1.entries(), other, q);
            }
            if has_id(r1.entries(), other) {
                let q = id_pos(r1.entries(), other);
                assert(r1.entries()[q].0 == other);
                assert(r0.entries()[q].0 == other);
                lemma_id_pos(r0.entries(), other, q);
            }
        }
    } else {
        assert(!has_id(r1.entries(), id));
    }
}

} // verus!
