//! Properties component: key-value details of the selected object.

use crate::components::{component_name, ComponentId, PropertiesAction};
use crate::seq_util::{any_match, first_match, lemma_first_match};
use crate::text::str_eq;
use vstd::prelude::*;

verus! {

/// Property key-value pair.
#[derive(Debug, Clone, PartialEq)]
pub struct Property {
    pub key: String,
    pub value: String,
}

/// The property carries the key `key`.
pub open spec fn key_is(key: Seq<char>) -> spec_fn(Property) -> bool {
    |p: Property| p.key@ == key
}

/// Properties component with internal property list.
#[derive(Debug, Clone)]
pub struct PropertiesComponent {
    properties: Vec<Property>,
    selected_object: Option<String>,
}

impl PropertiesComponent {
    /// The listed properties, in order.
    pub closed spec fn property_list(&self) -> Seq<Property> {
        self.properties@
    }

    /// The name of the selected object.
    pub closed spec fn selection(&self) -> Option<String> {
        self.selected_object
    }

    /// `new` is `old` with the value of the first property keyed `key` set to
    /// `value`, or unchanged when no property has that key.
    pub open spec fn property_updated(old: Self, new: Self, key: Seq<char>, value: String) -> bool {
        &&& new.selection() == old.selection()
        &&& if any_match(old.property_list(), key_is(key)) {
            let p = first_match(old.property_list(), key_is(key));
            new.property_list() == old.property_list().update(
                p,
                Property { key: old.property_list()[p].key, value },
            )
        } else {
            new.property_list() == old.property_list()
        }
    }

    /// Create a new properties component with nothing selected.
    pub fn new() -> (c: Self)
        ensures
            c.property_list().len() == 0,
            c.selection() is None,
    {
        PropertiesComponent { properties: Vec::new(), selected_object: None }
    }

    /// Identifies this component.
    pub fn id(&self) -> (id: ComponentId)
        ensures
            id == ComponentId::Properties,
    {
        ComponentId::Properties
    }

    /// Display name for tabs and menus.
    pub fn title(&self) -> (t: &'static str)
        ensures
            t@ == component_name(ComponentId::Properties),
    {
        ComponentId::Properties.name()
    }

    /// Get the current properties.
    pub fn properties(&self) -> (p: &[Property])
        ensures
            p@ == self.property_list(),
    {
        self.properties.as_slice()
    }

    /// Set the properties list.
    pub fn set_properties(&mut self, properties: Vec<Property>)
        ensures
            final(self).property_list() == properties@,
            final(self).selection() == old(self).selection(),
    {
        self.properties = properties;
    }

    /// Set the selected object name; deselecting clears the properties.
    pub fn set_selected_object(&mut self, object: Option<String>)
        ensures
            final(self).selection() == object,
            final(self).property_list() == if object is None {
                Seq::<Property>::empty()
            } else {
                old(self).property_list()
            },
    {
        let is_none = object.is_none();
        self.selected_object = object;
        if is_none {
            self.properties.clear();
        }
    }

    /// Get the selected object name.
    pub fn selected_object(&self) -> (s: Option<&str>)
        ensures
            s is None <==> self.selection() is None,
            s matches Some(t) ==> t@ == self.selection().unwrap()@,
    {
        match &self.selected_object {
            Some(o) => Some(o.as_str()),
            None => None,
        }
    }

    /// Add a property at the end of the list.
    pub fn add_property(&mut self, key: String, value: String)
        ensures
            final(self).property_list() == old(self).property_list().push(
                Property { key, value },
            ),
            final(self).selection() == old(self).selection(),
    {
        self.properties.push(Property { key, value });
    }

    /// Clear all properties.
    pub fn clear(&mut self)
        ensures
            final(self).property_list() == Seq::<Property>::empty(),
            final(self).selection() == old(self).selection(),
    {
        self.properties.clear();
    }

    /// Update the value of the first property with key `key`; returns whether
    /// one was found.
    pub fn update_property(&mut self, key: &str, value: String) -> (found: bool)
        ensures
            found == any_match(old(self).property_list(), key_is(key@)),
            Self::property_updated(*old(self), *final(self), key@, value),
    {
        let mut i: usize = 0;
        while i < self.properties.len()
            invariant
                i <= self.properties.len(),
                self.properties@ == old(self).properties@,
                self.selected_object == old(self).selected_object,
                forall|j: int| 0 <= j < i ==> !(key_is(key@))(#[trigger] self.properties@[j]),
            decreases self.properties.len() - i,
        {
            if str_eq(self.properties[i].key.as_str(), key) {
                proof {
                    lemma_first_match(self.properties@, key_is(key@), i as int);
                }
                let k = self.properties[i].key.clone();
                self.properties.set(i, Property { key: k, value });
                return true;
            }
            i = i + 1;
        }
        false
    }

    /// Update the component based on an action.
    pub fn update(&mut self, action: PropertiesAction)
        ensures
            match action {
                PropertiesAction::UpdateProperty(key, value) => Self::property_updated(
                    *old(self),
                    *final(self),
                    key@,
                    value,
                ),
            },
    {
        match action {
            PropertiesAction::UpdateProperty(key, value) => {
                self.update_property(key.as_str(), value);
            },
        }
    }
}

impl Default for PropertiesComponent {
    fn default() -> (c: Self)
        ensures
            c.property_list().len() == 0,
            c.selection() is None,
    {
        Self::new()
    }
}

} // verus!
