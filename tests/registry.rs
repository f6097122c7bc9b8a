use now_server::registry::{Capability, Descriptor, Registry};

fn descriptor(name: &str, description: Option<&str>, schema: &str) -> Descriptor {
    Descriptor {
        name: name.to_string(),
        description: description.map(|d| d.to_string()),
        schema: schema.to_string(),
    }
}

fn capability(name: &str, behavior: u32) -> Capability<u32> {
    Capability { descriptor: descriptor(name, Some("about it"), "{}"), behavior }
}

#[test]
fn lookup_returns_the_registered_record() {
    let mut reg: Registry<u32> = Registry::new();
    assert!(reg.register(capability("a", 1)).is_ok());
    assert!(reg.register(capability("b", 2)).is_ok());
    let a = reg.lookup(&"a".to_string()).unwrap();
    assert_eq!(a.descriptor.name, "a");
    assert_eq!(a.descriptor.description.as_deref(), Some("about it"));
    assert_eq!(a.descriptor.schema, "{}");
    assert_eq!(a.behavior, 1);
    let b = reg.lookup(&"b".to_string()).unwrap();
    assert_eq!(b.behavior, 2);
}

#[test]
fn lookup_of_unregistered_name_is_absent() {
    let mut reg: Registry<u32> = Registry::new();
    assert!(reg.lookup(&"a".to_string()).is_none());
    assert!(reg.register(capability("a", 1)).is_ok());
    assert!(reg.lookup(&"b".to_string()).is_none());
    assert!(reg.lookup(&"".to_string()).is_none());
    assert!(reg.lookup(&"A".to_string()).is_none());
}

#[test]
fn duplicate_name_is_rejected_and_registry_unchanged() {
    let mut reg: Registry<u32> = Registry::new();
    assert!(reg.register(capability("a", 1)).is_ok());
    let err = reg.register(capability("a", 7)).err().unwrap();
    assert_eq!(err.name, "a");
    assert_eq!(reg.len(), 1);
    assert_eq!(reg.lookup(&"a".to_string()).unwrap().behavior, 1);
}

#[test]
fn list_gives_one_descriptor_per_registration_in_order() {
    let mut reg: Registry<u32> = Registry::new();
    assert!(reg.list().is_empty());
    assert!(reg.register(capability("b", 1)).is_ok());
    assert!(reg.register(Capability { descriptor: descriptor("a", None, "[]"), behavior: 2 }).is_ok());
    assert!(reg.register(capability("c", 3)).is_ok());
    let list = reg.list();
    assert_eq!(list.len(), 3);
    let names: Vec<&str> = list.iter().map(|d| d.name.as_str()).collect();
    assert_eq!(names, vec!["b", "a", "c"]);
    assert_eq!(list[1].description, None);
    assert_eq!(list[1].schema, "[]");
    assert_eq!(list[0].description.as_deref(), Some("about it"));
}

#[test]
fn repeated_lookups_in_any_order_agree() {
    let mut reg: Registry<u32> = Registry::new();
    let names = ["n0", "n1", "n2", "n3", "n4"];
    for (i, n) in names.iter().enumerate() {
        assert!(reg.register(capability(n, i as u32)).is_ok());
    }
    let order = [3usize, 0, 4, 4, 1, 2, 0, 3, 1, 2];
    for round in 0..20 {
        for k in order.iter() {
            let i = (k + round) % names.len();
            assert_eq!(reg.lookup(&names[i].to_string()).unwrap().behavior, i as u32);
        }
    }
    assert_eq!(reg.len(), 5);
}

#[test]
fn duplicate_keeps_every_field_of_descriptor() {
    let d = descriptor("x", Some("y"), "{\"type\":\"object\"}");
    let c = d.duplicate();
    assert_eq!(c.name, "x");
    assert_eq!(c.description.as_deref(), Some("y"));
    assert_eq!(c.schema, "{\"type\":\"object\"}");
}

