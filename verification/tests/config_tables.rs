use restate_opendal::config::{ConfigMap, ProfileTable};

fn map(pairs: &[(&str, &str)]) -> ConfigMap {
    let mut m = ConfigMap::new();
    for (k, v) in pairs {
        m.set(k.to_string(), v.to_string());
    }
    m
}

#[test]
fn lookup_finds_what_was_set() {
    let m = map(&[("type", "memory"), ("root", "/data")]);
    assert_eq!(m.get("type").unwrap(), "memory");
    assert_eq!(m.get("root").unwrap(), "/data");
    assert!(m.get("missing").is_none());
}

#[test]
fn setting_a_key_again_replaces_its_value() {
    let mut m = map(&[("root", "/old")]);
    m.set("root".to_string(), "/new".to_string());
    assert_eq!(m.get("root").unwrap(), "/new");
}

#[test]
fn removed_erases_only_the_given_key() {
    let m = map(&[("type", "memory"), ("root", "/data"), ("x", "1")]);
    let r = m.removed("type");
    assert!(r.get("type").is_none());
    assert_eq!(r.get("root").unwrap(), "/data");
    assert_eq!(r.get("x").unwrap(), "1");
    // the original is untouched
    assert_eq!(m.get("type").unwrap(), "memory");
}

#[test]
fn removed_of_an_absent_key_copies_the_map() {
    let m = map(&[("a", "1")]);
    let r = m.removed("b");
    assert_eq!(r.get("a").unwrap(), "1");
    assert!(r.get("b").is_none());
}

#[test]
fn profile_table_lookup() {
    let mut t = ProfileTable::new();
    t.set("data".to_string(), map(&[("type", "memory")]));
    t.set("other".to_string(), map(&[("type", "fs"), ("root", "/tmp")]));
    assert_eq!(t.get("data").unwrap().get("type").unwrap(), "memory");
    assert_eq!(t.get("other").unwrap().get("root").unwrap(), "/tmp");
    assert!(t.get("nope").is_none());
}

#[test]
fn profile_table_replaces_profiles_by_name() {
    let mut t = ProfileTable::new();
    t.set("data".to_string(), map(&[("type", "memory")]));
    t.set("data".to_string(), map(&[("type", "fs")]));
    assert_eq!(t.get("data").unwrap().get("type").unwrap(), "fs");
}
