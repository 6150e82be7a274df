//! Attribute operations: ordered insert and delete by index.

use mdevctl::environment::EnvPaths;
use mdevctl::errors::ErrorKind;
use mdevctl::errors::MdevError;
use mdevctl::mdev::MDev;

fn env() -> EnvPaths {
    EnvPaths::new(
        String::from("/dev"),
        String::from("/parents"),
        String::from("/persist"),
        String::from("/hooks"),
        String::from("/notifiers"),
    )
}

fn pair(k: &str, v: &str) -> (String, String) {
    (String::from(k), String::from(v))
}

#[test]
fn add_appends_without_an_index() {
    let mut dev = MDev::new(&env(), 7);
    dev.add_attribute(String::from("a"), String::from("1"), None).unwrap();
    dev.add_attribute(String::from("b"), String::from("2"), None).unwrap();
    assert_eq!(dev.attrs, vec![pair("a", "1"), pair("b", "2")]);
}

#[test]
fn add_inserts_at_the_index() {
    let mut dev = MDev::new(&env(), 7);
    dev.add_attribute(String::from("a"), String::from("1"), None).unwrap();
    dev.add_attribute(String::from("c"), String::from("3"), None).unwrap();
    dev.add_attribute(String::from("b"), String::from("2"), Some(1)).unwrap();
    assert_eq!(dev.attrs, vec![pair("a", "1"), pair("b", "2"), pair("c", "3")]);
    // inserting at the length appends
    dev.add_attribute(String::from("d"), String::from("4"), Some(3)).unwrap();
    assert_eq!(dev.attrs.len(), 4);
    assert_eq!(dev.attrs[3], pair("d", "4"));
}

#[test]
fn add_then_delete_restores_the_sequence() {
    let mut dev = MDev::new(&env(), 7);
    dev.add_attribute(String::from("a"), String::from("1"), None).unwrap();
    dev.add_attribute(String::from("c"), String::from("3"), None).unwrap();
    let before = dev.attrs.clone();
    for i in 0..=2u32 {
        dev.add_attribute(String::from("x"), String::from("9"), Some(i)).unwrap();
        dev.delete_attribute(Some(i)).unwrap();
        assert_eq!(dev.attrs, before);
    }
}

#[test]
fn out_of_range_index_is_a_validation_error_and_changes_nothing() {
    let mut dev = MDev::new(&env(), 7);
    dev.add_attribute(String::from("a"), String::from("1"), None).unwrap();
    let before = dev.attrs.clone();
    let e = dev.add_attribute(String::from("x"), String::from("9"), Some(2)).unwrap_err();
    assert!(matches!(e, MdevError::AttrIndexOutOfRange { index: 2 }));
    assert_eq!(e.kind(), ErrorKind::Validation);
    assert_eq!(e.message(), "Attribute index 2 is invalid");
    assert_eq!(dev.attrs, before);
    let e = dev.delete_attribute(Some(1)).unwrap_err();
    assert!(matches!(e, MdevError::AttrIndexOutOfRange { index: 1 }));
    assert_eq!(dev.attrs, before);
}

#[test]
fn delete_removes_at_the_index_or_the_last() {
    let mut dev = MDev::new(&env(), 7);
    dev.add_attribute(String::from("a"), String::from("1"), None).unwrap();
    dev.add_attribute(String::from("b"), String::from("2"), None).unwrap();
    dev.add_attribute(String::from("c"), String::from("3"), None).unwrap();
    dev.delete_attribute(Some(1)).unwrap();
    assert_eq!(dev.attrs, vec![pair("a", "1"), pair("c", "3")]);
    dev.delete_attribute(None).unwrap();
    assert_eq!(dev.attrs, vec![pair("a", "1")]);
}

#[test]
fn delete_from_an_empty_list_is_a_validation_error() {
    let mut dev = MDev::new(&env(), 7);
    let e = dev.delete_attribute(None).unwrap_err();
    assert!(matches!(e, MdevError::NoAttrsToDelete));
    assert_eq!(e.kind(), ErrorKind::Validation);
}

#[test]
fn duplicate_names_are_kept() {
    let mut dev = MDev::new(&env(), 7);
    dev.add_attribute(String::from("a"), String::from("1"), None).unwrap();
    dev.add_attribute(String::from("a"), String::from("2"), None).unwrap();
    assert_eq!(dev.attrs, vec![pair("a", "1"), pair("a", "2")]);
}
