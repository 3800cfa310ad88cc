use vstd::prelude::*;

use crate::activity_map::{ActivityMap, RegistryView};
use crate::dynamic_activity::{DynamicActivity, ValidDynamicClosure};
use crate::dynamic_property::PropertyUpdate;
use crate::error::DynError;
use crate::text::owned;
use crate::value::{PropertyValue, ValueView};
use tokio::sync::mpsc::UnboundedSender;

verus! {

/// The part of a module that keeps track of its activities: it registers and
/// unregisters them and routes property updates to their subscribers.
///
/// The registry is the module's own: while an activity is registered, the
/// module reaches it through its activity name, which is unique in the
/// registry (`set_property`, `subscribe_to_property`,
/// `registered_activities`). Unregistering hands the activity back whole, so
/// that the module can keep working on it and register it again.
pub struct BaseModule<S> {
    name: String,
    prop_send: UnboundedSender<PropertyUpdate>,
    registered_activities: ActivityMap<S>,
}

impl<S> BaseModule<S> {
    /// A module called `name` with no activity; `prop_send` feeds the
    /// module's update queue.
    pub fn new(name: &str, prop_send: UnboundedSender<PropertyUpdate>) -> (r: BaseModule<S>)
        ensures
            r.name_view() == name@,
            r.registry() == (RegistryView::<S> { activities: Seq::empty() }),
            r.registry().wf(),
    {
        BaseModule { name: owned(name), prop_send, registered_activities: ActivityMap::new() }
    }

    pub closed spec fn name_view(&self) -> Seq<char> {
        self.name@
    }

    pub closed spec fn registry(&self) -> RegistryView<S> {
        self.registered_activities@
    }

    /// The name of the module.
    pub fn name(&self) -> (r: &str)
        ensures
            r@ == self.name_view(),
    {
        self.name.as_str()
    }

    /// Another handle on the module's update queue, for activities and for
    /// updates sent by hand.
    pub fn prop_send(&self) -> UnboundedSender<PropertyUpdate> {
        self.prop_send.clone()
    }

    pub fn registered_activities(&self) -> (r: &ActivityMap<S>)
        ensures
            r@ == self.registry(),
    {
        &self.registered_activities
    }

    /// Registers `activity` once the presentation layer was told to show it.
    ///
    /// `presentation_notified` says whether that notice went out; without it
    /// nothing is registered. A notice that went out stays out even when the
    /// name turns out to be taken.
    pub fn register_activity(&mut self, activity: DynamicActivity<S>, presentation_notified: bool) -> (r:
        Result<(), DynError>)
        requires
            old(self).registry().wf(),
            activity@.wf(),
        ensures
            final(self).registry().wf(),
            final(self).name_view() == old(self).name_view(),
            !presentation_notified ==> r == Err::<(), DynError>(DynError::PresentationSyncFailure)
                && final(self).registry() == old(self).registry(),
            presentation_notified && old(self).registry().has_activity(
                activity@.identifier.activity,
            ) ==> r == Err::<(), DynError>(DynError::ActivityAlreadyRegistered) && final(self).registry() == old(self).registry(),
            presentation_notified && !old(self).registry().has_activity(
                activity@.identifier.activity,
            ) ==> r is Ok && final(self).registry() == old(self).registry().inserted(activity@),
    {
        if !presentation_notified {
            return Err(DynError::PresentationSyncFailure);
        }
        self.registered_activities.insert_activity(activity)
    }

    /// Unregisters the activity called `activity_name` and hands it back, so
    /// that its owner may register it again later. Nothing happens when no
    /// such activity is registered.
    pub fn unregister_activity(&mut self, activity_name: &str) -> (r: Option<DynamicActivity<S>>)
        requires
            old(self).registry().wf(),
        ensures
            final(self).registry().wf(),
            final(self).name_view() == old(self).name_view(),
            !old(self).registry().has_activity(activity_name@) ==> r is None && final(self).registry() == old(self).registry(),
            old(self).registry().has_activity(activity_name@) ==> (r matches Some(a) && a@
                == old(self).registry().activities[old(self).registry().activity_index(
                activity_name@,
            )]) && final(self).registry() == old(self).registry().removed(activity_name@),
    {
        let id = match self.registered_activities.get_activity(activity_name) {
            Err(_) => {
                return None;
            },
            Ok(a) => a.get_identifier(),
        };
        match self.registered_activities.remove_activity(&id) {
            Ok(a) => Some(a),
            Err(_) => None,
        }
    }

    /// Sets property `property_name` of the registered activity
    /// `activity_name` to `value` and publishes it (see
    /// `ActivityMap::set_property`).
    pub fn set_property(&mut self, activity_name: &str, property_name: &str, value: PropertyValue) -> (r:
        Result<(), DynError>)
        requires
            old(self).registry().wf(),
        ensures
            final(self).registry().wf(),
            final(self).name_view() == old(self).name_view(),
            !old(self).registry().has_activity(activity_name@) ==> r == Err::<(), DynError>(
                DynError::ActivityNotFound,
            ) && final(self).registry() == old(self).registry(),
            old(self).registry().has_activity(activity_name@) ==> ({
                let i = old(self).registry().activity_index(activity_name@);
                let a = old(self).registry().activities[i];
                &&& !a.has_property(property_name@) ==> r == Err::<(), DynError>(
                    DynError::PropertyNotFound,
                ) && final(self).registry() == old(self).registry()
                &&& a.has_property(property_name@) ==> final(self).registry() == old(self).registry().with_value_at(
                    (i, a.property_index(property_name@)),
                    value@,
                )
                &&& a.has_property(property_name@) && value@.type_tag()
                    != a.properties[a.property_index(property_name@)].property.value.type_tag()
                    ==> r == Err::<(), DynError>(DynError::TypeMismatch)
                &&& a.has_property(property_name@) && value@.type_tag()
                    == a.properties[a.property_index(property_name@)].property.value.type_tag()
                    ==> (r is Ok || r == Err::<(), DynError>(DynError::ChannelClosed))
            }),
    {
        self.registered_activities.set_property(activity_name, property_name, value)
    }

    /// Appends `callback` to the subscribers of property `property_name` of
    /// the registered activity `activity_name`.
    pub fn subscribe_to_property(
        &mut self,
        activity_name: &str,
        property_name: &str,
        callback: S,
    ) -> (r: Result<(), DynError>)
        requires
            old(self).registry().wf(),
        ensures
            final(self).registry().wf(),
            final(self).name_view() == old(self).name_view(),
            r is Err ==> final(self).registry() == old(self).registry(),
            !old(self).registry().has_activity(activity_name@) ==> r == Err::<(), DynError>(
                DynError::ActivityNotFound,
            ),
            old(self).registry().has_activity(activity_name@) ==> final(self).registry()
                == old(self).registry().subscribed(activity_name@, property_name@, callback) && (
            r is Ok <==> old(self).registry().activities[old(self).registry().activity_index(
                activity_name@,
            )].has_property(property_name@)) && (r is Err ==> r == Err::<(), DynError>(
                DynError::PropertyNotFound,
            )),
    {
        self.registered_activities.subscribe_to_property(activity_name, property_name, callback)
    }
}

impl<S: ValidDynamicClosure> BaseModule<S> {
    /// Serves one update from the queue: see `ActivityMap::dispatch`. An
    /// update for an activity that is not registered is dropped.
    pub fn dispatch_update(&self, update: &PropertyUpdate) -> (told: Ghost<Seq<(S, ValueView)>>)
        requires
            self.registry().wf(),
        ensures
            told@ == self.registry().subscribers_at(
                self.registry().targets(update@.activity_id.activity, update@.property_name),
            ).map_values(|s: S| (s, update@.value)),
    {
        self.registered_activities.dispatch(update)
    }
}

} // verus!
