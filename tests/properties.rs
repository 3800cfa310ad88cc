use dynisland_core::dynamic_property::{DynamicPropertyAny, PropertyUpdate};
use dynisland_core::error::DynError;
use dynisland_core::identifier::ActivityIdentifier;
use dynisland_core::value::PropertyValue;

fn text(s: &str) -> PropertyValue {
    PropertyValue::Text(s.to_string())
}

fn text_of(v: &PropertyValue) -> String {
    match v {
        PropertyValue::Text(s) => s.clone(),
        other => panic!("not text: {:?}", other),
    }
}

#[test]
fn same_type_compares_tags_only() {
    assert!(PropertyValue::Int(1).same_type(&PropertyValue::Int(-7)));
    assert!(!PropertyValue::Int(1).same_type(&PropertyValue::UInt(1)));
    assert!(text("a").same_type(&text("b")));
    assert!(!text("a").same_type(&PropertyValue::Char('a')));
    let a = PropertyValue::Custom("Battery".to_string(), vec![1, 2]);
    let b = PropertyValue::Custom("Battery".to_string(), vec![]);
    let c = PropertyValue::Custom("Volume".to_string(), vec![1, 2]);
    assert!(a.same_type(&b));
    assert!(!a.same_type(&c));
}

#[test]
fn duplicate_copies_the_value() {
    let a = PropertyValue::Custom("Battery".to_string(), vec![3, 4, 5]);
    match a.duplicate() {
        PropertyValue::Custom(name, data) => {
            assert_eq!(name, "Battery");
            assert_eq!(data, vec![3, 4, 5]);
        }
        other => panic!("unexpected {:?}", other),
    }
}

#[test]
fn identifier_keeps_names_and_metadata() {
    let mut id = ActivityIdentifier::new("music", "player");
    assert_eq!(id.module(), "music");
    assert_eq!(id.activity(), "player");
    assert_eq!(id.window_name(), None);
    id.set_window_name("top");
    assert_eq!(id.window_name(), Some("top".to_string()));
    id.set_additional_metadata("k".to_string(), "1".to_string());
    id.set_additional_metadata("j".to_string(), "2".to_string());
    id.set_additional_metadata("k".to_string(), "3".to_string());
    assert_eq!(id.additional_metadata("k"), Some("3".to_string()));
    assert_eq!(id.additional_metadata("j"), Some("2".to_string()));
    assert_eq!(id.additional_metadata("x"), None);
    assert_eq!(id.to_display_string(), "player@music");
}

#[test]
fn identity_ignores_metadata() {
    let a = ActivityIdentifier::new("m", "a");
    let mut b = ActivityIdentifier::new("m", "a");
    b.set_window_name("w");
    b.set_additional_metadata("test".to_string(), "test".to_string());
    assert!(a.same_activity(&b));
    assert!(!a.same_activity(&ActivityIdentifier::new("m", "b")));
    assert!(!a.same_activity(&ActivityIdentifier::new("n", "a")));
    let c = b.duplicate();
    assert_eq!(c.window_name(), Some("w".to_string()));
    assert_eq!(c.additional_metadata("test"), Some("test".to_string()));
}

#[test]
fn set_same_type_updates_and_publishes() {
    let (tx, mut rx) = tokio::sync::mpsc::unbounded_channel::<PropertyUpdate>();
    let mut p = DynamicPropertyAny::new(tx, ActivityIdentifier::new("m", "clock"), "time".to_string(), text("00:00"));
    assert_eq!(p.name(), "time");
    assert_eq!(p.set(text("00:01")), Ok(()));
    assert_eq!(text_of(p.get()), "00:01");
    assert_eq!(p.set(text("00:02")), Ok(()));
    assert_eq!(text_of(p.get()), "00:02");
    let first = rx.try_recv().unwrap();
    assert_eq!(first.activity_id().activity(), "clock");
    assert_eq!(first.property_name(), "time");
    assert_eq!(text_of(first.value()), "00:01");
    let second = rx.try_recv().unwrap();
    assert_eq!(text_of(second.value()), "00:02");
    assert!(rx.try_recv().is_err());
}

#[test]
fn set_other_type_is_refused() {
    let (tx, mut rx) = tokio::sync::mpsc::unbounded_channel::<PropertyUpdate>();
    let mut p = DynamicPropertyAny::new(tx, ActivityIdentifier::new("m", "a"), "level".to_string(), PropertyValue::Int(3));
    assert_eq!(p.set(text("3")), Err(DynError::TypeMismatch));
    assert_eq!(p.set(PropertyValue::UInt(3)), Err(DynError::TypeMismatch));
    match p.get() {
        PropertyValue::Int(v) => assert_eq!(*v, 3),
        other => panic!("unexpected {:?}", other),
    }
    assert!(rx.try_recv().is_err());
}

#[test]
fn set_on_closed_channel_still_updates() {
    let (tx, rx) = tokio::sync::mpsc::unbounded_channel::<PropertyUpdate>();
    drop(rx);
    let mut p = DynamicPropertyAny::new(tx, ActivityIdentifier::new("m", "a"), "on".to_string(), PropertyValue::Bool(false));
    assert_eq!(p.set(PropertyValue::Bool(true)), Err(DynError::ChannelClosed));
    match p.get() {
        PropertyValue::Bool(v) => assert!(*v),
        other => panic!("unexpected {:?}", other),
    }
}

#[test]
fn current_update_describes_the_property() {
    let (tx, _rx) = tokio::sync::mpsc::unbounded_channel::<PropertyUpdate>();
    let p = DynamicPropertyAny::new(tx, ActivityIdentifier::new("m", "a"), "c".to_string(), PropertyValue::Char('z'));
    let u = p.current_update();
    assert_eq!(u.activity_id().module(), "m");
    assert_eq!(u.property_name(), "c");
    match u.value() {
        PropertyValue::Char(c) => assert_eq!(*c, 'z'),
        other => panic!("unexpected {:?}", other),
    }
}
