use vstd::prelude::*;

use crate::dynamic_property::{DynamicPropertyAny, PropertyUpdate, PropertyView};
use crate::error::DynError;
use crate::identifier::{pairs_view, ActivityIdentifier, IdentifierView};
use crate::text::{owned, str_eq};
use crate::value::{PropertyValue, ValueView};
use tokio::sync::mpsc::UnboundedSender;

verus! {

/// A subscriber of a property: told of each new value, on the dispatch side.
pub trait ValidDynamicClosure {
    fn call(&self, value: &PropertyValue);
}

/// A dynamic property bundled with its subscribers, in the order they
/// subscribed.
pub struct SubscribableProperty<S> {
    property: DynamicPropertyAny,
    subscribers: Vec<S>,
}

pub struct SlotView<S> {
    pub property: PropertyView,
    pub subscribers: Seq<S>,
}

impl<S> View for SubscribableProperty<S> {
    type V = SlotView<S>;

    closed spec fn view(&self) -> SlotView<S> {
        SlotView { property: self.property@, subscribers: self.subscribers@ }
    }
}

/// An activity: its identifier, the name and style class of the widget that
/// presents it, and its dynamic properties with their subscribers.
pub struct DynamicActivity<S> {
    property_dictionary: Vec<SubscribableProperty<S>>,
    prop_send: UnboundedSender<PropertyUpdate>,
    identifier: ActivityIdentifier,
    widget_name: String,
    css_class: Option<String>,
}

pub struct ActivityView<S> {
    pub identifier: IdentifierView,
    pub widget_name: Seq<char>,
    pub css_class: Option<Seq<char>>,
    pub properties: Seq<SlotView<S>>,
}

impl<S> ActivityView<S> {
    /// No two properties share a name, and each belongs to this activity.
    pub open spec fn wf(self) -> bool {
        &&& forall|i: int, j: int|
            0 <= i < self.properties.len() && 0 <= j < self.properties.len()
                && #[trigger] self.properties[i].property.name
                == #[trigger] self.properties[j].property.name ==> i == j
        &&& forall|i: int|
            0 <= i < self.properties.len() ==> #[trigger] self.properties[i].property.activity_id
                == self.identifier
    }

    pub open spec fn has_property(self, name: Seq<char>) -> bool {
        exists|i: int| 0 <= i < self.properties.len() && #[trigger] self.properties[i].property.name == name
    }

    /// The position of the property called `name`, when there is one.
    pub open spec fn property_index(self, name: Seq<char>) -> int {
        choose|i: int| 0 <= i < self.properties.len() && #[trigger] self.properties[i].property.name == name
    }

    /// The activity after the property at `index` took `value`, which it does
    /// only if the type is its own.
    pub open spec fn with_value(self, index: int, value: ValueView) -> ActivityView<S> {
        let slot = self.properties[index];
        if slot.property.value.type_tag() == value.type_tag() {
            ActivityView {
                properties: self.properties.update(
                    index,
                    SlotView { property: PropertyView { value, ..slot.property }, ..slot },
                ),
                ..self
            }
        } else {
            self
        }
    }

    /// The subscribers that an update of property `name` reaches: none when
    /// the activity has no such property.
    pub open spec fn subscribers_of(self, name: Seq<char>) -> Seq<S> {
        if self.has_property(name) {
            self.properties[self.property_index(name)].subscribers
        } else {
            Seq::empty()
        }
    }
}

impl<S> View for DynamicActivity<S> {
    type V = ActivityView<S>;

    closed spec fn view(&self) -> ActivityView<S> {
        ActivityView {
            identifier: self.identifier@,
            widget_name: self.widget_name@,
            css_class: match self.css_class {
                Some(c) => Some(c@),
                None => None,
            },
            properties: self.property_dictionary@.map_values(|p: SubscribableProperty<S>| p@),
        }
    }
}

/// The name of an activity in its identifier: `activity-window`, or just
/// `activity` without a window.
pub open spec fn full_activity_name(activity_name: Seq<char>, window_name: Option<Seq<char>>) -> Seq<
    char,
> {
    match window_name {
        Some(w) => activity_name + "-"@ + w,
        None => activity_name,
    }
}

pub open spec fn option_view(o: Option<&str>) -> Option<Seq<char>> {
    match o {
        Some(s) => Some(s@),
        None => None,
    }
}

impl<S> DynamicActivity<S> {
    /// A new activity without properties, whose widget is named
    /// `activity_name-module_name`.
    pub fn new(prop_send: UnboundedSender<PropertyUpdate>, module_name: &str, activity_name: &str) -> (r:
        DynamicActivity<S>)
        ensures
            r@ == (ActivityView::<S> {
                identifier: IdentifierView {
                    module: module_name@,
                    activity: activity_name@,
                    window_name: None,
                    metadata: Seq::empty(),
                },
                widget_name: activity_name@ + "-"@ + module_name@,
                css_class: None,
                properties: Seq::empty(),
            }),
            r@.wf(),
    {
        let widget_name = owned(activity_name).concat("-").concat(module_name);
        let r = DynamicActivity {
            property_dictionary: Vec::new(),
            prop_send,
            identifier: ActivityIdentifier::new(module_name, activity_name),
            widget_name,
            css_class: None,
        };
        assert(r@.properties =~= Seq::empty());
        r
    }

    /// A new activity without properties, with window name and metadata.
    ///
    /// The activity name in the identifier is `activity_name-window_name`, or
    /// `activity_name` without a window; the widget is named after it and the
    /// module (`name-module_name`) and gets `activity_name` as style class.
    pub fn new_with_metadata(
        prop_send: UnboundedSender<PropertyUpdate>,
        module_name: &str,
        activity_name: &str,
        window_name: Option<&str>,
        additional_metadata: Vec<(String, String)>,
    ) -> (r: DynamicActivity<S>)
        ensures
            r@ == (ActivityView::<S> {
                identifier: IdentifierView {
                    module: module_name@,
                    activity: full_activity_name(activity_name@, option_view(window_name)),
                    window_name: option_view(window_name),
                    metadata: pairs_view(additional_metadata@),
                },
                widget_name: full_activity_name(activity_name@, option_view(window_name)) + "-"@
                    + module_name@,
                css_class: Some(activity_name@),
                properties: Seq::empty(),
            }),
            r@.wf(),
    {
        let name = match window_name {
            Some(w) => owned(activity_name).concat("-").concat(w),
            None => owned(activity_name),
        };
        let mut id = ActivityIdentifier::new(module_name, name.as_str());
        match window_name {
            Some(w) => id.set_window_name(w),
            None => {},
        }
        let mut i: usize = 0;
        assert(pairs_view(additional_metadata@.subrange(0, 0)) =~= Seq::empty());
        while i < additional_metadata.len()
            invariant
                0 <= i <= additional_metadata@.len(),
                id@ == (IdentifierView {
                    module: module_name@,
                    activity: name@,
                    window_name: option_view(window_name),
                    metadata: pairs_view(additional_metadata@.subrange(0, i as int)),
                }),
            decreases additional_metadata@.len() - i,
        {
            let key = additional_metadata[i].0.clone();
            let value = additional_metadata[i].1.clone();
            id.set_additional_metadata(key, value);
            assert(pairs_view(additional_metadata@.subrange(0, i + 1)) =~= pairs_view(
                additional_metadata@.subrange(0, i as int),
            ).push((additional_metadata@[i as int].0@, additional_metadata@[i as int].1@)));
            i = i + 1;
        }
        assert(additional_metadata@.subrange(0, additional_metadata@.len() as int)
            =~= additional_metadata@);
        let widget_name = name.concat("-").concat(module_name);
        let r = DynamicActivity {
            property_dictionary: Vec::new(),
            prop_send,
            identifier: id,
            widget_name,
            css_class: Some(owned(activity_name)),
        };
        assert(r@.properties =~= Seq::empty());
        r
    }

    pub fn widget_name(&self) -> (r: &str)
        ensures
            r@ == self@.widget_name,
    {
        self.widget_name.as_str()
    }

    pub fn css_class(&self) -> (r: Option<&str>)
        ensures
            option_view(r) == self@.css_class,
    {
        match &self.css_class {
            Some(c) => Some(c.as_str()),
            None => None,
        }
    }

    pub fn identifier_ref(&self) -> (r: &ActivityIdentifier)
        ensures
            r@ == self@.identifier,
    {
        &self.identifier
    }

    pub fn get_identifier(&self) -> (r: ActivityIdentifier)
        ensures
            r@ == self@.identifier,
    {
        self.identifier.duplicate()
    }

    /// The position of the property called `name`.
    pub fn find_property(&self, name: &str) -> (r: Option<usize>)
        requires
            self@.wf(),
        ensures
            r is Some <==> self@.has_property(name@),
            r matches Some(i) ==> i == self@.property_index(name@) && i < self@.properties.len(),
    {
        let mut i: usize = 0;
        while i < self.property_dictionary.len()
            invariant
                0 <= i <= self.property_dictionary@.len(),
                self@.wf(),
                forall|j: int| 0 <= j < i ==> #[trigger] self@.properties[j].property.name != name@,
            decreases self.property_dictionary@.len() - i,
        {
            assert(self@.properties[i as int] == self.property_dictionary@[i as int]@);
            if str_eq(self.property_dictionary[i].property.name(), name) {
                assert(self@.properties[i as int].property.name == name@);
                assert(self@.has_property(name@));
                let ghost k = self@.property_index(name@);
                assert(self@.properties[k].property.name == name@);
                return Some(i);
            }
            i = i + 1;
        }
        None
    }

    /// Adds a property of the type of `initial_value`, which it keeps.
    pub fn add_dynamic_property(&mut self, name: &str, initial_value: PropertyValue) -> (r: Result<
        (),
        DynError,
    >)
        requires
            old(self)@.wf(),
        ensures
            final(self)@.wf(),
            old(self)@.has_property(name@) ==> r == Err::<(), DynError>(
                DynError::PropertyAlreadyExists,
            ) && final(self)@ == old(self)@,
            !old(self)@.has_property(name@) ==> r is Ok && final(self)@ == (ActivityView {
                properties: old(self)@.properties.push(
                    SlotView {
                        property: PropertyView {
                            activity_id: old(self)@.identifier,
                            name: name@,
                            value: initial_value@,
                        },
                        subscribers: Seq::empty(),
                    },
                ),
                ..old(self)@
            }),
    {
        if self.find_property(name).is_some() {
            return Err(DynError::PropertyAlreadyExists);
        }
        let prop = DynamicPropertyAny::new(
            self.prop_send.clone(),
            self.identifier.duplicate(),
            owned(name),
            initial_value,
        );
        let slot = SubscribableProperty { property: prop, subscribers: Vec::new() };
        assert(slot@.subscribers =~= Seq::empty());
        self.property_dictionary.push(slot);
        assert(self@.properties =~= old(self)@.properties.push(slot@));
        Ok(())
    }

    /// Appends `callback` to the subscribers of property `name`.
    pub fn subscribe_to_property(&mut self, name: &str, callback: S) -> (r: Result<(), DynError>)
        requires
            old(self)@.wf(),
        ensures
            final(self)@.wf(),
            !old(self)@.has_property(name@) ==> r == Err::<(), DynError>(DynError::PropertyNotFound)
                && final(self)@ == old(self)@,
            old(self)@.has_property(name@) ==> r is Ok && final(self)@ == (ActivityView {
                properties: old(self)@.properties.update(
                    old(self)@.property_index(name@),
                    SlotView {
                        subscribers: old(self)@.properties[old(self)@.property_index(
                            name@,
                        )].subscribers.push(callback),
                        ..old(self)@.properties[old(self)@.property_index(name@)]
                    },
                ),
                ..old(self)@
            }),
    {
        match self.find_property(name) {
            None => Err(DynError::PropertyNotFound),
            Some(i) => {
                let mut slot = self.property_dictionary.remove(i);
                slot.subscribers.push(callback);
                self.property_dictionary.insert(i, slot);
                assert(self@.properties =~= old(self)@.properties.update(i as int, slot@));
                Ok(())
            },
        }
    }

    /// The subscribers of property `name`, in the order they subscribed.
    pub fn get_subscribers(&self, name: &str) -> (r: Result<&[S], DynError>)
        requires
            self@.wf(),
        ensures
            !self@.has_property(name@) ==> r == Err::<&[S], DynError>(DynError::PropertyNotFound),
            self@.has_property(name@) ==> (r matches Ok(subs) && subs@ == self@.subscribers_of(
                name@,
            )),
    {
        match self.find_property(name) {
            None => Err(DynError::PropertyNotFound),
            Some(i) => Ok(self.property_dictionary[i].subscribers.as_slice()),
        }
    }

    /// The subscribers of the property at `index`.
    pub fn subscribers_at(&self, index: usize) -> (r: &[S])
        requires
            index < self@.properties.len(),
        ensures
            r@ == self@.properties[index as int].subscribers,
    {
        self.property_dictionary[index].subscribers.as_slice()
    }

    /// Sets property `name` to `value` and publishes the new value on the
    /// update channel (see `DynamicPropertyAny::set`). A value of another
    /// type is refused and leaves the activity as it was.
    pub fn set_property(&mut self, name: &str, value: PropertyValue) -> (r: Result<(), DynError>)
        requires
            old(self)@.wf(),
        ensures
            final(self)@.wf(),
            !old(self)@.has_property(name@) ==> r == Err::<(), DynError>(DynError::PropertyNotFound)
                && final(self)@ == old(self)@,
            old(self)@.has_property(name@) ==> final(self)@ == old(self)@.with_value(
                old(self)@.property_index(name@),
                value@,
            ),
            old(self)@.has_property(name@) && value@.type_tag() != old(self)@.properties[old(self)@.property_index(name@)].property.value.type_tag()
                ==> r == Err::<(), DynError>(DynError::TypeMismatch),
            old(self)@.has_property(name@) && value@.type_tag() == old(self)@.properties[old(self)@.property_index(name@)].property.value.type_tag()
                ==> (r is Ok || r == Err::<(), DynError>(DynError::ChannelClosed)),
    {
        match self.find_property(name) {
            None => Err(DynError::PropertyNotFound),
            Some(i) => {
                let ghost v = value@;
                let mut slot = self.property_dictionary.remove(i);
                assert(slot@ == old(self)@.properties[i as int]);
                let r = slot.property.set(value);
                self.property_dictionary.insert(i, slot);
                proof {
                    if v.type_tag() == old(self)@.properties[i as int].property.value.type_tag() {
                        assert(self@.properties =~= old(self)@.properties.update(i as int, slot@));
                    } else {
                        assert(self@.properties =~= old(self)@.properties);
                    }
                    assert(self@ == old(self)@.with_value(i as int, v));
                }
                r
            },
        }
    }

    /// Property `name` itself, as the activity holds it: what a later
    /// `set_property` stores is what it shows.
    pub fn get_property_any(&self, name: &str) -> (r: Result<&DynamicPropertyAny, DynError>)
        requires
            self@.wf(),
        ensures
            !self@.has_property(name@) ==> (r matches Err(e) && e == DynError::PropertyNotFound),
            self@.has_property(name@) ==> (r matches Ok(p) && p@ == self@.properties[self@.property_index(
                name@,
            )].property),
    {
        match self.find_property(name) {
            None => Err(DynError::PropertyNotFound),
            Some(i) => Ok(&self.property_dictionary[i].property),
        }
    }
}

} // verus!
