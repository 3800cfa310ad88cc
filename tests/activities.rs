use std::cell::RefCell;
use std::rc::Rc;

use dynisland_core::activity_map::ActivityMap;
use dynisland_core::base_module::BaseModule;
use dynisland_core::dynamic_activity::{DynamicActivity, ValidDynamicClosure};
use dynisland_core::dynamic_property::PropertyUpdate;
use dynisland_core::error::DynError;
use dynisland_core::identifier::ActivityIdentifier;
use dynisland_core::value::PropertyValue;
use tokio::sync::mpsc::{unbounded_channel, UnboundedReceiver, UnboundedSender};

#[derive(Clone)]
struct Recorder {
    tag: &'static str,
    log: Rc<RefCell<Vec<String>>>,
}

impl ValidDynamicClosure for Recorder {
    fn call(&self, value: &PropertyValue) {
        let shown = match value {
            PropertyValue::Text(s) => s.clone(),
            PropertyValue::Int(i) => i.to_string(),
            other => format!("{:?}", other),
        };
        self.log.borrow_mut().push(format!("{}={}", self.tag, shown));
    }
}

fn recorder(tag: &'static str, log: &Rc<RefCell<Vec<String>>>) -> Recorder {
    Recorder { tag, log: log.clone() }
}

fn channel() -> (UnboundedSender<PropertyUpdate>, UnboundedReceiver<PropertyUpdate>) {
    unbounded_channel::<PropertyUpdate>()
}

fn activity(tx: &UnboundedSender<PropertyUpdate>, name: &str) -> DynamicActivity<Recorder> {
    DynamicActivity::new(tx.clone(), "mod", name)
}

#[test]
fn new_activity_names_its_widget() {
    let (tx, _rx) = channel();
    let a = activity(&tx, "clock");
    assert_eq!(a.widget_name(), "clock-mod");
    assert_eq!(a.css_class(), None);
    assert_eq!(a.get_identifier().module(), "mod");
    assert_eq!(a.get_identifier().activity(), "clock");
}

#[test]
fn metadata_activity_joins_window_name() {
    let (tx, _rx) = channel();
    let meta = vec![("a".to_string(), "1".to_string()), ("b".to_string(), "2".to_string())];
    let a: DynamicActivity<Recorder> = DynamicActivity::new_with_metadata(tx.clone(), "mod", "music", Some("left"), meta);
    let id = a.get_identifier();
    assert_eq!(id.activity(), "music-left");
    assert_eq!(id.window_name(), Some("left".to_string()));
    assert_eq!(id.additional_metadata("a"), Some("1".to_string()));
    assert_eq!(id.additional_metadata("b"), Some("2".to_string()));
    assert_eq!(a.widget_name(), "music-left-mod");
    assert_eq!(a.css_class(), Some("music"));
    let b: DynamicActivity<Recorder> = DynamicActivity::new_with_metadata(tx, "mod", "music", None, vec![]);
    assert_eq!(b.get_identifier().activity(), "music");
    assert_eq!(b.get_identifier().window_name(), None);
    assert_eq!(b.widget_name(), "music-mod");
}

#[test]
fn duplicate_property_is_refused() {
    let (tx, _rx) = channel();
    let mut a = activity(&tx, "clock");
    assert_eq!(a.add_dynamic_property("time", PropertyValue::Text("00:00".to_string())), Ok(()));
    assert_eq!(
        a.add_dynamic_property("time", PropertyValue::Int(0)),
        Err(DynError::PropertyAlreadyExists)
    );
    match a.get_property_any("time").unwrap().get() {
        PropertyValue::Text(s) => assert_eq!(s, "00:00"),
        other => panic!("unexpected {:?}", other),
    }
}

#[test]
fn subscribing_needs_the_property() {
    let (tx, _rx) = channel();
    let log = Rc::new(RefCell::new(Vec::new()));
    let mut a = activity(&tx, "clock");
    assert_eq!(a.subscribe_to_property("time", recorder("r", &log)), Err(DynError::PropertyNotFound));
    assert!(matches!(a.get_subscribers("time"), Err(DynError::PropertyNotFound)));
    assert!(matches!(a.get_property_any("time"), Err(DynError::PropertyNotFound)));
    a.add_dynamic_property("time", PropertyValue::Int(0)).unwrap();
    assert_eq!(a.subscribe_to_property("time", recorder("first", &log)), Ok(()));
    assert_eq!(a.subscribe_to_property("time", recorder("second", &log)), Ok(()));
    let subs = a.get_subscribers("time").unwrap();
    assert_eq!(subs.len(), 2);
    assert_eq!(subs[0].tag, "first");
    assert_eq!(subs[1].tag, "second");
}

#[test]
fn insert_twice_then_remove_then_get() {
    let (tx, _rx) = channel();
    let mut map: ActivityMap<Recorder> = ActivityMap::new();
    assert_eq!(map.insert_activity(activity(&tx, "A")), Ok(()));
    assert_eq!(map.insert_activity(activity(&tx, "A")), Err(DynError::ActivityAlreadyRegistered));
    let removed = map.remove_activity(&ActivityIdentifier::new("mod", "A"));
    assert_eq!(removed.unwrap().get_identifier().activity(), "A");
    assert!(matches!(map.get_activity("A"), Err(DynError::ActivityNotFound)));
    assert!(matches!(
        map.remove_activity(&ActivityIdentifier::new("mod", "A")),
        Err(DynError::ActivityNotRegistered)
    ));
}

#[test]
fn registry_lists_in_registration_order() {
    let (tx, _rx) = channel();
    let mut map: ActivityMap<Recorder> = ActivityMap::new();
    assert!(map.list_activity_names().is_empty());
    map.insert_activity(activity(&tx, "b")).unwrap();
    map.insert_activity(activity(&tx, "a")).unwrap();
    map.insert_activity(activity(&tx, "c")).unwrap();
    assert_eq!(map.list_activity_names(), vec!["b", "a", "c"]);
    let ids: Vec<String> = map.list_activities().iter().map(|i| i.to_display_string()).collect();
    assert_eq!(ids, vec!["b@mod", "a@mod", "c@mod"]);
}

#[test]
fn registry_property_lookup_errors() {
    let (tx, _rx) = channel();
    let mut map: ActivityMap<Recorder> = ActivityMap::new();
    let mut a = activity(&tx, "a");
    a.add_dynamic_property("x", PropertyValue::Int(5)).unwrap();
    map.insert_activity(a).unwrap();
    assert!(matches!(map.get_property_any("b", "x"), Err(DynError::ActivityNotFound)));
    assert!(matches!(map.get_property_any("a", "y"), Err(DynError::PropertyNotFound)));
    let p = map.get_property_any("a", "x").unwrap();
    assert_eq!(p.name(), "x");
    assert!(matches!(p.get(), PropertyValue::Int(5)));
}

#[test]
fn wildcard_update_reaches_every_holder() {
    let (tx, mut rx) = channel();
    let log = Rc::new(RefCell::new(Vec::new()));
    let mut module: BaseModule<Recorder> = BaseModule::new("mod", tx.clone());
    for (name, has_x) in [("a1", true), ("skip", false), ("a2", true)] {
        let mut a = activity(&tx, name);
        if has_x {
            a.add_dynamic_property("x", PropertyValue::Int(0)).unwrap();
            a.subscribe_to_property("x", recorder(name, &log)).unwrap();
        } else {
            a.add_dynamic_property("y", PropertyValue::Int(0)).unwrap();
            a.subscribe_to_property("y", recorder(name, &log)).unwrap();
        }
        module.register_activity(a, true).unwrap();
    }
    let any = ActivityIdentifier::new("mod", "*");
    tx.send(PropertyUpdate::new(any.duplicate(), "x".to_string(), PropertyValue::Int(1))).unwrap();
    tx.send(PropertyUpdate::new(any, "x".to_string(), PropertyValue::Int(2))).unwrap();
    while let Ok(update) = rx.try_recv() {
        let targets = module.registered_activities().delivery_targets(&update);
        assert_eq!(targets, vec![(0, 0), (2, 0)]);
        module.dispatch_update(&update);
    }
    assert_eq!(*log.borrow(), vec!["a1=1", "a2=1", "a1=2", "a2=2"]);
}

#[test]
fn update_for_missing_activity_is_dropped() {
    let (tx, _rx) = channel();
    let log = Rc::new(RefCell::new(Vec::new()));
    let mut module: BaseModule<Recorder> = BaseModule::new("mod", tx.clone());
    let mut a = activity(&tx, "a");
    a.add_dynamic_property("x", PropertyValue::Int(0)).unwrap();
    a.subscribe_to_property("x", recorder("a", &log)).unwrap();
    module.register_activity(a, true).unwrap();
    let gone = PropertyUpdate::new(ActivityIdentifier::new("mod", "b"), "x".to_string(), PropertyValue::Int(1));
    assert!(module.registered_activities().delivery_targets(&gone).is_empty());
    module.dispatch_update(&gone);
    let no_prop = PropertyUpdate::new(ActivityIdentifier::new("mod", "a"), "y".to_string(), PropertyValue::Int(1));
    module.dispatch_update(&no_prop);
    assert!(log.borrow().is_empty());
    let wrong_type = PropertyUpdate::new(ActivityIdentifier::new("mod", "a"), "x".to_string(), PropertyValue::Bool(true));
    module.dispatch_update(&wrong_type);
    assert_eq!(*log.borrow(), vec!["a=Bool(true)"]);
    assert!(matches!(module.registered_activities().get_property_any("a", "x").unwrap().get(), PropertyValue::Int(0)));
}

#[test]
fn register_needs_the_presentation_notice() {
    let (tx, _rx) = channel();
    let mut module: BaseModule<Recorder> = BaseModule::new("mod", tx.clone());
    assert_eq!(module.name(), "mod");
    assert_eq!(module.register_activity(activity(&tx, "a"), false), Err(DynError::PresentationSyncFailure));
    assert!(module.registered_activities().list_activity_names().is_empty());
    assert_eq!(module.register_activity(activity(&tx, "a"), true), Ok(()));
    assert_eq!(module.register_activity(activity(&tx, "a"), true), Err(DynError::ActivityAlreadyRegistered));
    assert!(module.unregister_activity("zzz").is_none());
    let back = module.unregister_activity("a").unwrap();
    assert_eq!(back.get_identifier().activity(), "a");
    assert!(module.registered_activities().list_activity_names().is_empty());
    assert_eq!(module.register_activity(back, true), Ok(()));
}

#[test]
fn module_level_subscription() {
    let (tx, _rx) = channel();
    let log = Rc::new(RefCell::new(Vec::new()));
    let mut module: BaseModule<Recorder> = BaseModule::new("mod", tx.clone());
    let mut a = activity(&tx, "a");
    a.add_dynamic_property("x", PropertyValue::Int(0)).unwrap();
    module.register_activity(a, true).unwrap();
    assert_eq!(module.subscribe_to_property("b", "x", recorder("s", &log)), Err(DynError::ActivityNotFound));
    assert_eq!(module.subscribe_to_property("a", "y", recorder("s", &log)), Err(DynError::PropertyNotFound));
    assert_eq!(module.subscribe_to_property("a", "x", recorder("s", &log)), Ok(()));
    let up = PropertyUpdate::new(ActivityIdentifier::new("mod", "a"), "x".to_string(), PropertyValue::Int(9));
    module.dispatch_update(&up);
    assert_eq!(*log.borrow(), vec!["s=9"]);
}

#[test]
fn set_property_is_seen_by_later_lookups() {
    let (tx, mut rx) = channel();
    let mut a = activity(&tx, "a");
    a.add_dynamic_property("x", PropertyValue::Int(1)).unwrap();
    assert_eq!(a.set_property("y", PropertyValue::Int(2)), Err(DynError::PropertyNotFound));
    assert_eq!(a.set_property("x", PropertyValue::Bool(true)), Err(DynError::TypeMismatch));
    assert!(matches!(a.get_property_any("x").unwrap().get(), PropertyValue::Int(1)));
    assert_eq!(a.set_property("x", PropertyValue::Int(2)), Ok(()));
    assert!(matches!(a.get_property_any("x").unwrap().get(), PropertyValue::Int(2)));
    let update = rx.try_recv().unwrap();
    assert_eq!(update.activity_id().activity(), "a");
    assert_eq!(update.property_name(), "x");
    assert!(matches!(update.value(), PropertyValue::Int(2)));
    assert!(rx.try_recv().is_err());
}

#[test]
fn registry_set_property_checks_names_and_type() {
    let (tx, mut rx) = channel();
    let mut module: BaseModule<Recorder> = BaseModule::new("mod", tx.clone());
    let mut a = activity(&tx, "a");
    a.add_dynamic_property("x", PropertyValue::Int(1)).unwrap();
    module.register_activity(a, true).unwrap();
    assert_eq!(module.set_property("b", "x", PropertyValue::Int(2)), Err(DynError::ActivityNotFound));
    assert_eq!(module.set_property("a", "y", PropertyValue::Int(2)), Err(DynError::PropertyNotFound));
    assert_eq!(module.set_property("a", "x", PropertyValue::UInt(2)), Err(DynError::TypeMismatch));
    assert!(rx.try_recv().is_err());
    assert_eq!(module.set_property("a", "x", PropertyValue::Int(7)), Ok(()));
    let seen = module.registered_activities().get_property_any("a", "x").unwrap();
    assert!(matches!(seen.get(), PropertyValue::Int(7)));
    assert!(matches!(rx.try_recv().unwrap().value(), PropertyValue::Int(7)));
}

#[test]
fn clock_end_to_end() {
    let (tx, mut rx) = channel();
    let log = Rc::new(RefCell::new(Vec::new()));
    let mut module: BaseModule<Recorder> = BaseModule::new("M", tx.clone());
    let mut clock: DynamicActivity<Recorder> = DynamicActivity::new(module.prop_send(), "M", "clock");
    clock.add_dynamic_property("time", PropertyValue::Text("00:00".to_string())).unwrap();
    clock.subscribe_to_property("time", recorder("ui", &log)).unwrap();
    module.register_activity(clock, true).unwrap();

    assert_eq!(module.set_property("clock", "time", PropertyValue::Text("00:01".to_string())), Ok(()));
    while let Ok(update) = rx.try_recv() {
        module.dispatch_update(&update);
    }
    assert_eq!(*log.borrow(), vec!["ui=00:01"]);
    match module.registered_activities().get_property_any("clock", "time").unwrap().get() {
        PropertyValue::Text(s) => assert_eq!(s, "00:01"),
        other => panic!("unexpected {:?}", other),
    }

    let mut clock = module.unregister_activity("clock").unwrap();
    assert_eq!(clock.set_property("time", PropertyValue::Text("00:02".to_string())), Ok(()));
    match clock.get_property_any("time").unwrap().get() {
        PropertyValue::Text(s) => assert_eq!(s, "00:02"),
        other => panic!("unexpected {:?}", other),
    }
    while let Ok(update) = rx.try_recv() {
        module.dispatch_update(&update);
    }
    assert_eq!(*log.borrow(), vec!["ui=00:01"]);
    assert!(matches!(module.registered_activities().get_activity("clock"), Err(DynError::ActivityNotFound)));
}
