use vm_bridge::registry::{ClassMap, ClassMetadata, ClassRegistry};
use vm_bridge::scope::Isolate;

#[test]
fn class_map_stores_and_returns_metadata() {
    let mut m = ClassMap::new();
    assert!(m.get(1).is_none());
    m.set(1, ClassMetadata { template: 501 });
    assert_eq!(m.get(1), Some(&ClassMetadata { template: 501 }));
    m.set(1, ClassMetadata { template: 502 });
    assert_eq!(m.get(1), Some(&ClassMetadata { template: 502 }));
    assert!(m.get(2).is_none());
}

#[test]
fn registry_creates_an_isolate_map_lazily() {
    let iso = Isolate::from_raw(3);
    let mut r = ClassRegistry::new();
    assert!(r.get(iso, 1).is_none());
    r.set(iso, 1, ClassMetadata { template: 600 });
    assert_eq!(r.get(iso, 1), Some(ClassMetadata { template: 600 }));
}

#[test]
fn registry_keeps_isolates_apart() {
    let one = Isolate::from_raw(1);
    let other = Isolate::from_raw(2);
    let mut r = ClassRegistry::new();
    r.set(one, 9, ClassMetadata { template: 700 });
    assert!(r.get(other, 9).is_none());
    r.set(other, 9, ClassMetadata { template: 701 });
    assert_eq!(r.get(one, 9), Some(ClassMetadata { template: 700 }));
    assert_eq!(r.get(other, 9), Some(ClassMetadata { template: 701 }));
}
