use vstd::prelude::*;

use crate::dynamic_activity::{ActivityView, DynamicActivity, SlotView, ValidDynamicClosure};
use crate::dynamic_property::{DynamicPropertyAny, PropertyUpdate};
use crate::error::DynError;
use crate::identifier::ActivityIdentifier;
use crate::text::str_eq;
use crate::value::{PropertyValue, ValueView};

verus! {

/// The activity name that addresses an update to every registered activity.
pub open spec fn wildcard() -> Seq<char> {
    "*"@
}

/// The activities of a module, each registered under its activity name.
pub struct ActivityMap<S> {
    map: Vec<DynamicActivity<S>>,
}

/// The registered activities, in the order they were registered.
pub struct RegistryView<S> {
    pub activities: Seq<ActivityView<S>>,
}

impl<S> RegistryView<S> {
    /// Every activity is well formed and no two share an activity name.
    pub open spec fn wf(self) -> bool {
        &&& forall|i: int| 0 <= i < self.activities.len() ==> #[trigger] self.activities[i].wf()
        &&& forall|i: int, j: int|
            0 <= i < self.activities.len() && 0 <= j < self.activities.len()
                && #[trigger] self.activities[i].identifier.activity
                == #[trigger] self.activities[j].identifier.activity ==> i == j
    }

    pub open spec fn has_activity(self, name: Seq<char>) -> bool {
        exists|i: int| 0 <= i < self.activities.len() && #[trigger] self.activities[i].identifier.activity == name
    }

    /// The position of the activity called `name`, when there is one.
    pub open spec fn activity_index(self, name: Seq<char>) -> int {
        choose|i: int| 0 <= i < self.activities.len() && #[trigger] self.activities[i].identifier.activity == name
    }

    pub open spec fn names(self) -> Seq<Seq<char>> {
        self.activities.map_values(|a: ActivityView<S>| a.identifier.activity)
    }

    /// The registry after `activity` joins it.
    pub open spec fn inserted(self, activity: ActivityView<S>) -> RegistryView<S> {
        RegistryView { activities: self.activities.push(activity) }
    }

    /// The registry after the activity called `name` leaves it.
    pub open spec fn removed(self, name: Seq<char>) -> RegistryView<S> {
        RegistryView { activities: self.activities.remove(self.activity_index(name)) }
    }

    /// The registry after `callback` subscribes to property `prop` of the
    /// activity called `name`; unchanged when either is missing.
    pub open spec fn subscribed(self, name: Seq<char>, prop: Seq<char>, callback: S) -> RegistryView<
        S,
    > {
        let i = self.activity_index(name);
        let a = self.activities[i];
        if self.has_activity(name) && a.has_property(prop) {
            RegistryView {
                activities: self.activities.update(
                    i,
                    ActivityView {
                        properties: a.properties.update(
                            a.property_index(prop),
                            SlotView {
                                subscribers: a.properties[a.property_index(prop)].subscribers.push(
                                    callback,
                                ),
                                ..a.properties[a.property_index(prop)]
                            },
                        ),
                        ..a
                    },
                ),
            }
        } else {
            self
        }
    }

    /// The registry after the property at `t` took `value` (see
    /// `ActivityView::with_value`).
    pub open spec fn with_value_at(self, t: (int, int), value: ValueView) -> RegistryView<S> {
        RegistryView {
            activities: self.activities.update(t.0, self.activities[t.0].with_value(t.1, value)),
        }
    }

    /// The subscribers of the properties at positions `ts`, in that order,
    /// each property's in the order they subscribed.
    pub open spec fn subscribers_at(self, ts: Seq<(int, int)>) -> Seq<S>
        decreases ts.len(),
    {
        if ts.len() == 0 {
            Seq::empty()
        } else {
            self.subscribers_at(ts.drop_last()) + self.activities[ts.last().0].properties[ts.last().1].subscribers
        }
    }

    /// The (activity, property) positions that an update of property `prop`
    /// addressed to activity `name` reaches, in the order they are served.
    ///
    /// The wildcard name reaches every registered activity that has the
    /// property, in registration order; another name reaches that activity's
    /// property if both exist, and nothing otherwise.
    pub open spec fn targets(self, name: Seq<char>, prop: Seq<char>) -> Seq<(int, int)> {
        if name == wildcard() {
            wildcard_targets(self.activities, prop, self.activities.len() as int)
        } else if self.has_activity(name) && self.activities[self.activity_index(
            name,
        )].has_property(prop) {
            seq![
                (
                    self.activity_index(name),
                    self.activities[self.activity_index(name)].property_index(prop),
                ),
            ]
        } else {
            Seq::empty()
        }
    }
}

/// The wildcard targets among the first `n` activities.
pub open spec fn wildcard_targets<S>(acts: Seq<ActivityView<S>>, prop: Seq<char>, n: int) -> Seq<
    (int, int),
>
    decreases n,
{
    if n <= 0 {
        Seq::empty()
    } else if acts[n - 1].has_property(prop) {
        wildcard_targets(acts, prop, n - 1).push((n - 1, acts[n - 1].property_index(prop)))
    } else {
        wildcard_targets(acts, prop, n - 1)
    }
}

pub open spec fn targets_view(v: Seq<(usize, usize)>) -> Seq<(int, int)> {
    v.map_values(|t: (usize, usize)| (t.0 as int, t.1 as int))
}

impl<S> View for ActivityMap<S> {
    type V = RegistryView<S>;

    closed spec fn view(&self) -> RegistryView<S> {
        RegistryView { activities: self.map@.map_values(|a: DynamicActivity<S>| a@) }
    }
}

impl<S> ActivityMap<S> {
    pub fn new() -> (r: ActivityMap<S>)
        ensures
            r@.activities == Seq::<ActivityView<S>>::empty(),
            r@.wf(),
    {
        let r = ActivityMap { map: Vec::new() };
        assert(r@.activities =~= Seq::empty());
        r
    }

    fn find_activity(&self, activity_name: &str) -> (r: Option<usize>)
        requires
            self@.wf(),
        ensures
            r is Some <==> self@.has_activity(activity_name@),
            r matches Some(i) ==> i == self@.activity_index(activity_name@) && i
                < self@.activities.len(),
    {
        let mut i: usize = 0;
        while i < self.map.len()
            invariant
                0 <= i <= self.map@.len(),
                self@.wf(),
                forall|j: int|
                    0 <= j < i ==> #[trigger] self@.activities[j].identifier.activity
                        != activity_name@,
            decreases self.map@.len() - i,
        {
            assert(self@.activities[i as int] == self.map@[i as int]@);
            let id = self.map[i].get_identifier();
            if str_eq(id.activity(), activity_name) {
                assert(self@.activities[i as int].identifier.activity == activity_name@);
                let ghost k = self@.activity_index(activity_name@);
                assert(self@.activities[k].identifier.activity == activity_name@);
                return Some(i);
            }
            i = i + 1;
        }
        None
    }

    /// The activity registered as `activity_name`.
    pub fn get_activity(&self, activity_name: &str) -> (r: Result<&DynamicActivity<S>, DynError>)
        requires
            self@.wf(),
        ensures
            !self@.has_activity(activity_name@) ==> (r matches Err(e) && e
                == DynError::ActivityNotFound),
            self@.has_activity(activity_name@) ==> (r matches Ok(a) && a@ == self@.activities[self@.activity_index(
                activity_name@,
            )]),
    {
        match self.find_activity(activity_name) {
            None => Err(DynError::ActivityNotFound),
            Some(i) => Ok(&self.map[i]),
        }
    }

    /// Registers `activity` under its activity name, unless that name is
    /// taken.
    pub fn insert_activity(&mut self, activity: DynamicActivity<S>) -> (r: Result<(), DynError>)
        requires
            old(self)@.wf(),
            activity@.wf(),
        ensures
            final(self)@.wf(),
            old(self)@.has_activity(activity@.identifier.activity) ==> r == Err::<(), DynError>(
                DynError::ActivityAlreadyRegistered,
            ) && final(self)@ == old(self)@,
            !old(self)@.has_activity(activity@.identifier.activity) ==> r is Ok && final(self)@
                == old(self)@.inserted(activity@),
    {
        let id = activity.get_identifier();
        if self.find_activity(id.activity()).is_some() {
            return Err(DynError::ActivityAlreadyRegistered);
        }
        self.map.push(activity);
        assert(self@.activities =~= old(self)@.activities.push(activity@));
        Ok(())
    }

    /// Removes the activity that `activity_id` names, and hands it back.
    pub fn remove_activity(&mut self, activity_id: &ActivityIdentifier) -> (r: Result<
        DynamicActivity<S>,
        DynError,
    >)
        requires
            old(self)@.wf(),
        ensures
            final(self)@.wf(),
            !old(self)@.has_activity(activity_id@.activity) ==> (r matches Err(e) && e
                == DynError::ActivityNotRegistered) && final(self)@ == old(self)@,
            old(self)@.has_activity(activity_id@.activity) ==> (r matches Ok(a) && a@
                == old(self)@.activities[old(self)@.activity_index(activity_id@.activity)])
                && final(self)@ == old(self)@.removed(activity_id@.activity),
    {
        match self.find_activity(activity_id.activity()) {
            None => Err(DynError::ActivityNotRegistered),
            Some(i) => {
                let a = self.map.remove(i);
                assert(self@.activities =~= old(self)@.activities.remove(i as int));
                assert forall|x: int, y: int|
                    0 <= x < self@.activities.len() && 0 <= y < self@.activities.len()
                        && #[trigger] self@.activities[x].identifier.activity
                        == #[trigger] self@.activities[y].identifier.activity implies x == y by {
                    let ox = if x < i { x } else { x + 1 };
                    let oy = if y < i { y } else { y + 1 };
                    assert(old(self)@.activities[ox] == self@.activities[x]);
                    assert(old(self)@.activities[oy] == self@.activities[y]);
                }
                Ok(a)
            },
        }
    }

    /// The names of the registered activities, in registration order.
    pub fn list_activity_names(&self) -> (r: Vec<&str>)
        ensures
            r@.map_values(|s: &str| s@) == self@.names(),
    {
        let mut r: Vec<&str> = Vec::new();
        let mut i: usize = 0;
        while i < self.map.len()
            invariant
                0 <= i <= self.map@.len(),
                r@.map_values(|s: &str| s@) =~= self@.names().subrange(0, i as int),
            decreases self.map@.len() - i,
        {
            let name = self.map[i].identifier_ref().activity();
            let ghost prev = r@;
            r.push(name);
            assert(self@.names()[i as int] == self.map@[i as int]@.identifier.activity);
            assert(r@.map_values(|s: &str| s@) =~= prev.map_values(|s: &str| s@).push(name@));
            assert(r@.map_values(|s: &str| s@) =~= self@.names().subrange(0, i + 1));
            i = i + 1;
        }
        assert(self@.names().subrange(0, self.map@.len() as int) =~= self@.names());
        r
    }

    /// The identifiers of the registered activities, in registration order.
    pub fn list_activities(&self) -> (r: Vec<ActivityIdentifier>)
        ensures
            r@.len() == self@.activities.len(),
            forall|i: int|
                0 <= i < r@.len() ==> #[trigger] r@[i]@ == self@.activities[i].identifier,
    {
        let mut r: Vec<ActivityIdentifier> = Vec::new();
        let mut i: usize = 0;
        while i < self.map.len()
            invariant
                0 <= i <= self.map@.len(),
                r@.len() == i,
                forall|j: int| 0 <= j < i ==> #[trigger] r@[j]@ == self@.activities[j].identifier,
            decreases self.map@.len() - i,
        {
            r.push(self.map[i].get_identifier());
            i = i + 1;
        }
        r
    }

    /// Property `property_name` of activity `activity_name`, as the
    /// registry holds it.
    pub fn get_property_any(&self, activity_name: &str, property_name: &str) -> (r: Result<
        &DynamicPropertyAny,
        DynError,
    >)
        requires
            self@.wf(),
        ensures
            !self@.has_activity(activity_name@) ==> (r matches Err(e) && e
                == DynError::ActivityNotFound),
            self@.has_activity(activity_name@) && !self@.activities[self@.activity_index(
                activity_name@,
            )].has_property(property_name@) ==> (r matches Err(e) && e
                == DynError::PropertyNotFound),
            self@.has_activity(activity_name@) && self@.activities[self@.activity_index(
                activity_name@,
            )].has_property(property_name@) ==> (r matches Ok(p) && p@ == self@.activities[self@.activity_index(
                activity_name@,
            )].properties[self@.activities[self@.activity_index(
                activity_name@,
            )].property_index(property_name@)].property),
    {
        match self.find_activity(activity_name) {
            None => Err(DynError::ActivityNotFound),
            Some(i) => {
                assert(self@.activities[i as int] == self.map@[i as int]@);
                self.map[i].get_property_any(property_name)
            },
        }
    }

    /// Sets property `property_name` of activity `activity_name` to `value`
    /// and publishes it (see `DynamicActivity::set_property`).
    pub fn set_property(
        &mut self,
        activity_name: &str,
        property_name: &str,
        value: PropertyValue,
    ) -> (r: Result<(), DynError>)
        requires
            old(self)@.wf(),
        ensures
            final(self)@.wf(),
            !old(self)@.has_activity(activity_name@) ==> r == Err::<(), DynError>(
                DynError::ActivityNotFound,
            ) && final(self)@ == old(self)@,
            old(self)@.has_activity(activity_name@) ==> ({
                let i = old(self)@.activity_index(activity_name@);
                let a = old(self)@.activities[i];
                &&& !a.has_property(property_name@) ==> r == Err::<(), DynError>(
                    DynError::PropertyNotFound,
                ) && final(self)@ == old(self)@
                &&& a.has_property(property_name@) ==> final(self)@ == old(self)@.with_value_at(
                    (i, a.property_index(property_name@)),
                    value@,
                )
                &&& a.has_property(property_name@) && value@.type_tag()
                    != a.properties[a.property_index(property_name@)].property.value.type_tag()
                    ==> r == Err::<(), DynError>(DynError::TypeMismatch)
                &&& a.has_property(property_name@) && value@.type_tag()
                    == a.properties[a.property_index(property_name@)].property.value.type_tag()
                    ==> (r is Ok || r == Err::<(), DynError>(DynError::ChannelClosed))
            }),
    {
        match self.find_activity(activity_name) {
            None => Err(DynError::ActivityNotFound),
            Some(i) => {
                let mut a = self.map.remove(i);
                assert(a@ == old(self)@.activities[i as int]);
                let r = a.set_property(property_name, value);
                self.map.insert(i, a);
                assert(self@.activities =~= old(self)@.activities.update(i as int, a@));
                proof {
                    if !old(self)@.activities[i as int].has_property(property_name@) {
                        assert(self@.activities =~= old(self)@.activities);
                    }
                    assert forall|x: int, y: int|
                        0 <= x < self@.activities.len() && 0 <= y < self@.activities.len()
                            && #[trigger] self@.activities[x].identifier.activity
                            == #[trigger] self@.activities[y].identifier.activity implies x
                        == y by {
                        assert(old(self)@.activities[x].identifier == self@.activities[x].identifier);
                        assert(old(self)@.activities[y].identifier == self@.activities[y].identifier);
                    }
                    assert forall|x: int| 0 <= x < self@.activities.len() implies #[trigger] self@.activities[x].wf() by {
                        if x != i {
                            assert(old(self)@.activities[x].wf());
                        }
                    }
                }
                r
            },
        }
    }

    /// Appends `callback` to the subscribers of property `property_name` of
    /// activity `activity_name`.
    pub fn subscribe_to_property(
        &mut self,
        activity_name: &str,
        property_name: &str,
        callback: S,
    ) -> (r: Result<(), DynError>)
        requires
            old(self)@.wf(),
        ensures
            final(self)@.wf(),
            final(self)@ == old(self)@.subscribed(activity_name@, property_name@, callback),
            !old(self)@.has_activity(activity_name@) ==> r == Err::<(), DynError>(
                DynError::ActivityNotFound,
            ),
            old(self)@.has_activity(activity_name@) && !old(self)@.activities[old(self)@.activity_index(activity_name@)].has_property(property_name@) ==> r == Err::<
                (),
                DynError,
            >(DynError::PropertyNotFound),
            old(self)@.has_activity(activity_name@) && old(self)@.activities[old(self)@.activity_index(activity_name@)].has_property(property_name@) ==> r is Ok,
    {
        match self.find_activity(activity_name) {
            None => Err(DynError::ActivityNotFound),
            Some(i) => {
                let mut a = self.map.remove(i);
                assert(a@ == old(self)@.activities[i as int]);
                let r = a.subscribe_to_property(property_name, callback);
                self.map.insert(i, a);
                assert(self@.activities =~= old(self)@.activities.update(i as int, a@));
                proof {
                    if r is Err {
                        assert(self@.activities =~= old(self)@.activities);
                    }
                    assert forall|x: int, y: int|
                        0 <= x < self@.activities.len() && 0 <= y < self@.activities.len()
                            && #[trigger] self@.activities[x].identifier.activity
                            == #[trigger] self@.activities[y].identifier.activity implies x
                        == y by {
                        assert(old(self)@.activities[x].identifier == self@.activities[x].identifier);
                        assert(old(self)@.activities[y].identifier == self@.activities[y].identifier);
                    }
                    assert forall|x: int| 0 <= x < self@.activities.len() implies #[trigger] self@.activities[x].wf() by {
                        if x != i {
                            assert(old(self)@.activities[x].wf());
                        }
                    }
                }
                r
            },
        }
    }

    /// The (activity, property) positions that `update` reaches, in the
    /// order they are served.
    pub fn delivery_targets(&self, update: &PropertyUpdate) -> (r: Vec<(usize, usize)>)
        requires
            self@.wf(),
        ensures
            targets_view(r@) == self@.targets(
                update@.activity_id.activity,
                update@.property_name,
            ),
            forall|k: int|
                0 <= k < r@.len() ==> #[trigger] r@[k].0 < self@.activities.len() && r@[k].1
                    < self@.activities[r@[k].0 as int].properties.len(),
    {
        let name = update.activity_id().activity();
        let prop = update.property_name();
        let mut r: Vec<(usize, usize)> = Vec::new();
        if str_eq(name, "*") {
            let mut i: usize = 0;
            while i < self.map.len()
                invariant
                    0 <= i <= self.map@.len(),
                    self@.wf(),
                    targets_view(r@) =~= wildcard_targets(self@.activities, prop@, i as int),
                    forall|k: int|
                        0 <= k < r@.len() ==> #[trigger] r@[k].0 < self@.activities.len() && r@[k].1
                            < self@.activities[r@[k].0 as int].properties.len(),
                decreases self.map@.len() - i,
            {
                assert(self@.activities[i as int] == self.map@[i as int]@);
                match self.map[i].find_property(prop) {
                    Some(p) => {
                        r.push((i, p));
                    },
                    None => {},
                }
                i = i + 1;
            }
        } else {
            match self.find_activity(name) {
                None => {},
                Some(i) => {
                    assert(self@.activities[i as int] == self.map@[i as int]@);
                    match self.map[i].find_property(prop) {
                        Some(p) => {
                            r.push((i, p));
                        },
                        None => {},
                    }
                },
            }
            assert(targets_view(r@) =~= self@.targets(name@, prop@));
        }
        r
    }
}

impl<S: ValidDynamicClosure> ActivityMap<S> {
    /// Hands the value of `update` to every subscriber that it reaches: the
    /// targets of `delivery_targets` in order, and the subscribers of each in
    /// the order they subscribed. `told` lists each subscriber called with
    /// the value it was handed, in the order of the calls.
    pub fn dispatch(&self, update: &PropertyUpdate) -> (told: Ghost<Seq<(S, ValueView)>>)
        requires
            self@.wf(),
        ensures
            told@ == self@.subscribers_at(
                self@.targets(update@.activity_id.activity, update@.property_name),
            ).map_values(|s: S| (s, update@.value)),
    {
        let targets = self.delivery_targets(update);
        let ghost ts = targets_view(targets@);
        let ghost v = update@.value;
        let ghost mut told: Seq<(S, ValueView)> = Seq::empty();
        let mut k: usize = 0;
        assert(self@.subscribers_at(ts.subrange(0, 0)).map_values(|s: S| (s, v)) =~= Seq::empty());
        while k < targets.len()
            invariant
                0 <= k <= targets@.len(),
                ts == targets_view(targets@),
                v == update@.value,
                told == self@.subscribers_at(ts.subrange(0, k as int)).map_values(|s: S| (s, v)),
                forall|t: int|
                    0 <= t < targets@.len() ==> #[trigger] targets@[t].0 < self@.activities.len()
                        && targets@[t].1 < self@.activities[targets@[t].0 as int].properties.len(),
            decreases targets@.len() - k,
        {
            let (a, p) = targets[k];
            assert(targets@[k as int].0 < self@.activities.len());
            assert(self@.activities[a as int] == self.map@[a as int]@);
            let subscribers = self.map[a].subscribers_at(p);
            let value = update.value();
            let ghost before = told;
            let mut j: usize = 0;
            assert(before =~= before + subscribers@.subrange(0, 0).map_values(|s: S| (s, v)));
            while j < subscribers.len()
                invariant
                    0 <= j <= subscribers@.len(),
                    value@ == v,
                    told == before + subscribers@.subrange(0, j as int).map_values(|s: S| (s, v)),
                decreases subscribers@.len() - j,
            {
                proof {
                    told = told.push((subscribers@[j as int], value@));
                    assert(subscribers@.subrange(0, j + 1).map_values(|s: S| (s, v))
                        =~= subscribers@.subrange(0, j as int).map_values(|s: S| (s, v)).push(
                        (subscribers@[j as int], v),
                    ));
                    assert(told =~= before + subscribers@.subrange(0, j + 1).map_values(|s: S| (s, v)));
                }
                subscribers[j].call(value);
                j = j + 1;
            }
            proof {
                let prev = ts.subrange(0, k as int);
                let cur = ts.subrange(0, k + 1);
                assert(subscribers@.subrange(0, subscribers@.len() as int) =~= subscribers@);
                assert(cur.drop_last() =~= prev);
                assert(cur.last() == (a as int, p as int));
                assert(self@.subscribers_at(cur) == self@.subscribers_at(prev) + subscribers@);
                assert((self@.subscribers_at(prev) + subscribers@).map_values(|s: S| (s, v))
                    =~= self@.subscribers_at(prev).map_values(|s: S| (s, v)) + subscribers@.map_values(|s: S| (s, v)));
            }
            k = k + 1;
        }
        assert(ts.subrange(0, targets@.len() as int) =~= ts);
        Ghost(told)
    }
}

} // verus!

verus! {

/// Registering an activity under a free name, then another under the same
/// name, refuses the second; removing the name afterwards leaves no activity
/// under it, and the registry as it was before.
pub proof fn insert_twice_then_remove<S>(
    reg: RegistryView<S>,
    first: ActivityView<S>,
    second: ActivityView<S>,
)
    requires
        reg.wf(),
        first.wf(),
        !reg.has_activity(first.identifier.activity),
        second.identifier.activity == first.identifier.activity,
    ensures
        reg.inserted(first).wf(),
        reg.inserted(first).has_activity(second.identifier.activity),
        !reg.inserted(first).removed(first.identifier.activity).has_activity(
            first.identifier.activity,
        ),
        reg.inserted(first).removed(first.identifier.activity) == reg,
{
    let name = first.identifier.activity;
    let ins = reg.inserted(first);
    let n = reg.activities.len() as int;
    assert(ins.activities[n] == first);
    assert(ins.has_activity(name));
    assert forall|i: int, j: int|
        0 <= i < ins.activities.len() && 0 <= j < ins.activities.len()
            && #[trigger] ins.activities[i].identifier.activity
            == #[trigger] ins.activities[j].identifier.activity implies i == j by {
        if i < n && j == n {
            assert(reg.activities[i].identifier.activity == name);
        }
        if j < n && i == n {
            assert(reg.activities[j].identifier.activity == name);
        }
    }
    assert(forall|i: int| 0 <= i < ins.activities.len() ==> #[trigger] ins.activities[i].wf());
    let k = ins.activity_index(name);
    assert(ins.activities[k].identifier.activity == name);
    assert(k == n);
    assert(ins.activities.remove(n) =~= reg.activities);
}

proof fn wildcard_targets_facts<S>(acts: Seq<ActivityView<S>>, prop: Seq<char>, n: int)
    requires
        0 <= n <= acts.len(),
    ensures
        forall|k: int|
            0 <= k < wildcard_targets(acts, prop, n).len() ==> {
                let t = #[trigger] wildcard_targets(acts, prop, n)[k];
                &&& 0 <= t.0 < n
                &&& acts[t.0].has_property(prop)
                &&& t.1 == acts[t.0].property_index(prop)
            },
        forall|k1: int, k2: int|
            0 <= k1 < k2 < wildcard_targets(acts, prop, n).len() ==> (#[trigger] wildcard_targets(
                acts,
                prop,
                n,
            )[k1]).0 < (#[trigger] wildcard_targets(acts, prop, n)[k2]).0,
        forall|i: int|
            0 <= i < n && #[trigger] acts[i].has_property(prop) ==> wildcard_targets(
                acts,
                prop,
                n,
            ).contains((i, acts[i].property_index(prop))),
    decreases n,
{
    if n > 0 {
        wildcard_targets_facts(acts, prop, n - 1);
        let prev = wildcard_targets(acts, prop, n - 1);
        if acts[n - 1].has_property(prop) {
            let cur = wildcard_targets(acts, prop, n);
            assert(cur == prev.push((n - 1, acts[n - 1].property_index(prop))));
            assert forall|i: int|
                0 <= i < n && #[trigger] acts[i].has_property(prop) implies cur.contains(
                (i, acts[i].property_index(prop)),
            ) by {
                if i < n - 1 {
                    let k = choose|k: int| 0 <= k < prev.len() && prev[k] == (i, acts[i].property_index(prop));
                    assert(cur[k] == prev[k]);
                } else {
                    assert(cur[prev.len() as int] == (i, acts[i].property_index(prop)));
                }
            }
        } else {
            assert forall|i: int|
                0 <= i < n && #[trigger] acts[i].has_property(prop) implies wildcard_targets(
                acts,
                prop,
                n,
            ).contains((i, acts[i].property_index(prop))) by {
                assert(i < n - 1);
            }
        }
    }
}

/// An update addressed to every activity reaches, in registration order,
/// each registered activity that has the property, at that property, and
/// skips the activities without it.
pub proof fn wildcard_reaches_every_holder<S>(reg: RegistryView<S>, prop: Seq<char>)
    requires
        reg.wf(),
    ensures
        forall|i: int|
            0 <= i < reg.activities.len() && #[trigger] reg.activities[i].has_property(prop)
                ==> reg.targets(wildcard(), prop).contains(
                (i, reg.activities[i].property_index(prop)),
            ),
        forall|k: int|
            0 <= k < reg.targets(wildcard(), prop).len() ==> reg.activities[(#[trigger] reg.targets(
                wildcard(),
                prop,
            )[k]).0].has_property(prop),
        forall|k1: int, k2: int|
            0 <= k1 < k2 < reg.targets(wildcard(), prop).len() ==> (#[trigger] reg.targets(
                wildcard(),
                prop,
            )[k1]).0 < (#[trigger] reg.targets(wildcard(), prop)[k2]).0,
{
    wildcard_targets_facts(reg.activities, prop, reg.activities.len() as int);
}

} // verus!
