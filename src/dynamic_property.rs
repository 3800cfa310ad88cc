use vstd::prelude::*;

use crate::error::DynError;
use crate::identifier::{ActivityIdentifier, IdentifierView};
use crate::value::{PropertyValue, ValueView};
use tokio::sync::mpsc::UnboundedSender;

verus! {

/// tokio's `UnboundedSender`, the sending end of the update queue; opaque
/// here.
#[verifier::external_type_specification]
#[verifier::external_body]
#[verifier::reject_recursive_types(T)]
pub struct ExUnboundedSender<T>(tokio::sync::mpsc::UnboundedSender<T>);

/// Relies on tokio's `Clone` for `UnboundedSender`: it returns another
/// handle on the same channel, and nothing is promised of it here.
pub assume_specification<T>[ <tokio::sync::mpsc::UnboundedSender<T> as Clone>::clone ](
    s: &tokio::sync::mpsc::UnboundedSender<T>,
) -> tokio::sync::mpsc::UnboundedSender<T>;

/// A new value of a property, on its way to the subscribers.
#[derive(Debug)]
pub struct PropertyUpdate {
    activity_id: ActivityIdentifier,
    property_name: String,
    value: PropertyValue,
}

pub struct UpdateView {
    pub activity_id: IdentifierView,
    pub property_name: Seq<char>,
    pub value: ValueView,
}

impl View for PropertyUpdate {
    type V = UpdateView;

    closed spec fn view(&self) -> UpdateView {
        UpdateView {
            activity_id: self.activity_id@,
            property_name: self.property_name@,
            value: self.value@,
        }
    }
}

impl PropertyUpdate {
    pub fn new(activity_id: ActivityIdentifier, property_name: String, value: PropertyValue) -> (r:
        PropertyUpdate)
        ensures
            r@ == (UpdateView {
                activity_id: activity_id@,
                property_name: property_name@,
                value: value@,
            }),
    {
        PropertyUpdate { activity_id, property_name, value }
    }

    pub fn activity_id(&self) -> (r: &ActivityIdentifier)
        ensures
            r@ == self@.activity_id,
    {
        &self.activity_id
    }

    pub fn property_name(&self) -> (r: &str)
        ensures
            r@ == self@.property_name,
    {
        self.property_name.as_str()
    }

    pub fn value(&self) -> (r: &PropertyValue)
        ensures
            r@ == self@.value,
    {
        &self.value
    }
}

/// Relies on tokio's `UnboundedSender::send`: it does not block, and when the
/// receiving end is gone it hands the message back inside its error.
#[verifier::external_body]
fn send_update(channel: &UnboundedSender<PropertyUpdate>, update: PropertyUpdate) -> (r: Result<
    (),
    PropertyUpdate,
>)
    ensures
        r matches Err(back) ==> back == update,
{
    channel.send(update).map_err(|e| e.0)
}

/// One named, typed value slot of an activity.
///
/// Its type is fixed when it is created; `set` replaces the value and
/// publishes the new value on the update channel.
pub struct DynamicPropertyAny {
    backend_channel: UnboundedSender<PropertyUpdate>,
    activity_id: ActivityIdentifier,
    property_name: String,
    value: PropertyValue,
}

pub struct PropertyView {
    pub activity_id: IdentifierView,
    pub name: Seq<char>,
    pub value: ValueView,
}

impl View for DynamicPropertyAny {
    type V = PropertyView;

    closed spec fn view(&self) -> PropertyView {
        PropertyView { activity_id: self.activity_id@, name: self.property_name@, value: self.value@ }
    }
}

impl DynamicPropertyAny {
    pub fn new(
        backend_channel: UnboundedSender<PropertyUpdate>,
        activity_id: ActivityIdentifier,
        property_name: String,
        value: PropertyValue,
    ) -> (r: DynamicPropertyAny)
        ensures
            r@ == (PropertyView { activity_id: activity_id@, name: property_name@, value: value@ }),
    {
        DynamicPropertyAny { backend_channel, activity_id, property_name, value }
    }

    pub fn name(&self) -> (r: &str)
        ensures
            r@ == self@.name,
    {
        self.property_name.as_str()
    }

    /// The current value of the property.
    pub fn get(&self) -> (r: &PropertyValue)
        ensures
            r@ == self@.value,
    {
        &self.value
    }

    pub fn activity_id(&self) -> (r: &ActivityIdentifier)
        ensures
            r@ == self@.activity_id,
    {
        &self.activity_id
    }

    /// The update that announces the current value to the subscribers.
    pub fn current_update(&self) -> (r: PropertyUpdate)
        ensures
            r@ == (UpdateView {
                activity_id: self@.activity_id,
                property_name: self@.name,
                value: self@.value,
            }),
    {
        PropertyUpdate::new(
            self.activity_id.duplicate(),
            self.property_name.clone(),
            self.value.duplicate(),
        )
    }

    /// Replaces the value and publishes `current_update()` of the new state.
    ///
    /// A value of another type is refused and leaves the property as it was.
    /// When the update channel is closed the value is replaced all the same
    /// and `ChannelClosed` tells that nobody may have seen it.
    pub fn set(&mut self, value: PropertyValue) -> (r: Result<(), DynError>)
        ensures
            value@.type_tag() != old(self)@.value.type_tag() ==> r == Err::<(), DynError>(
                DynError::TypeMismatch,
            ) && final(self)@ == old(self)@,
            value@.type_tag() == old(self)@.value.type_tag() ==> final(self)@ == (PropertyView {
                value: value@,
                ..old(self)@
            }) && (r is Ok || r == Err::<(), DynError>(DynError::ChannelClosed)),
    {
        if !self.value.same_type(&value) {
            return Err(DynError::TypeMismatch);
        }
        self.value = value;
        let update = self.current_update();
        match send_update(&self.backend_channel, update) {
            Ok(()) => Ok(()),
            Err(_) => Err(DynError::ChannelClosed),
        }
    }
}

} // verus!
