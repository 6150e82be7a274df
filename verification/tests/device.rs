//! Device entity: identity, paths, loading, serialization, lifecycle.

use mdevctl::config::parse_config;
use mdevctl::config::ConfigDoc;
use mdevctl::environment::EnvPaths;
use mdevctl::errors::ErrorKind;
use mdevctl::errors::MdevError;
use mdevctl::mdev::FormatType;
use mdevctl::mdev::LiveInfo;
use mdevctl::mdev::MDev;
use mdevctl::mdev::MDevType;

fn env() -> EnvPaths {
    EnvPaths::new(
        String::from("/sys/bus/mdev/devices"),
        String::from("/sys/class/mdev_bus"),
        String::from("/etc/mdevctl.d"),
        String::from("/etc/mdevctl.d/scripts.d/callouts"),
        String::from("/etc/mdevctl.d/scripts.d/notifiers"),
    )
}

const UUID: u128 = 0x123456789abcdef0123456789abcdef0;
const UUID_STR: &str = "12345678-9abc-def0-1234-56789abcdef0";

#[test]
fn uuid_rendering_is_hyphenated() {
    let dev = MDev::new(&env(), UUID);
    assert_eq!(dev.uuid_str(), UUID_STR);
    let zero = MDev::new(&env(), 0);
    assert_eq!(zero.uuid_str(), "00000000-0000-0000-0000-000000000000");
}

#[test]
fn paths_are_derived_from_roots() {
    let mut dev = MDev::new(&env(), UUID);
    assert_eq!(dev.path(), format!("/sys/bus/mdev/devices/{}", UUID_STR));
    assert!(dev.persist_path().is_none());
    dev.parent = Some(String::from("pci0"));
    assert_eq!(
        dev.persist_path().unwrap(),
        format!("/etc/mdevctl.d/pci0/{}", UUID_STR)
    );
    assert_eq!(
        dev.remove_path(),
        format!("/sys/bus/mdev/devices/{}/remove", UUID_STR)
    );
    assert_eq!(
        dev.attr_path("fps"),
        format!("/sys/bus/mdev/devices/{}/fps", UUID_STR)
    );
    dev.mdev_type = Some(String::from("vgpu-1"));
    assert_eq!(dev.types_path(), "/sys/class/mdev_bus/pci0/mdev_supported_types");
    assert_eq!(dev.type_path(), "/sys/class/mdev_bus/pci0/mdev_supported_types/vgpu-1");
    assert_eq!(
        dev.available_instances_path(),
        "/sys/class/mdev_bus/pci0/mdev_supported_types/vgpu-1/available_instances"
    );
    assert_eq!(
        dev.create_path(),
        "/sys/class/mdev_bus/pci0/mdev_supported_types/vgpu-1/create"
    );
}

#[test]
fn missing_parent_and_type_errors() {
    let dev = MDev::new(&env(), UUID);
    let e = dev.parent().unwrap_err();
    assert!(matches!(&e, MdevError::MissingParent { uuid } if uuid == UUID_STR));
    assert_eq!(e.kind(), ErrorKind::Validation);
    assert_eq!(e.message(), format!("Device {} is missing a parent", UUID_STR));
    let e = dev.mdev_type().unwrap_err();
    assert!(matches!(&e, MdevError::MissingType { uuid } if uuid == UUID_STR));
    assert_eq!(e.message(), format!("Device {} is missing a mdev_type", UUID_STR));
}

#[test]
fn is_defined_needs_parent_and_file() {
    let mut dev = MDev::new(&env(), UUID);
    assert!(!dev.is_defined(true));
    dev.parent = Some(String::from("pci0"));
    assert!(dev.is_defined(true));
    assert!(!dev.is_defined(false));
}

#[test]
fn sysfs_load_takes_live_values_on_match() {
    let mut dev = MDev::new(&env(), UUID);
    let live = LiveInfo {
        parent: String::from("pci0"),
        mdev_type: String::from("vgpu-1"),
    };
    dev.load_from_sysfs(Some(&live));
    assert_eq!(dev.parent.as_deref(), Some("pci0"));
    assert_eq!(dev.mdev_type.as_deref(), Some("vgpu-1"));
    assert!(dev.active);
}

#[test]
fn sysfs_load_without_entry_is_a_noop() {
    let mut dev = MDev::new(&env(), UUID);
    dev.load_from_sysfs(None);
    assert!(!dev.active);
    assert!(dev.parent.is_none());
}

#[test]
fn sysfs_load_skips_a_different_logical_device() {
    let mut dev = MDev::new(&env(), UUID);
    dev.parent = Some(String::from("pci1"));
    let live = LiveInfo {
        parent: String::from("pci0"),
        mdev_type: String::from("vgpu-1"),
    };
    dev.load_from_sysfs(Some(&live));
    assert!(!dev.active);
    assert_eq!(dev.parent.as_deref(), Some("pci1"));
    assert!(dev.mdev_type.is_none());
    assert!(dev.parent_mismatch("pci0"));
    assert!(!dev.parent_mismatch("pci1"));
}

#[test]
fn json_load_requires_type_and_start() {
    let mut dev = MDev::new(&env(), UUID);
    let doc = ConfigDoc {
        mdev_type: None,
        start: Some(String::from("auto")),
        attrs: Vec::new(),
    };
    let e = dev.load_from_json(String::from("pci0"), &doc).unwrap_err();
    assert!(matches!(e, MdevError::InvalidJson));
    // a validation error leaves the entity entirely unchanged
    assert!(dev.parent.is_none());
    assert!(dev.mdev_type.is_none());
    let doc = ConfigDoc {
        mdev_type: Some(String::from("vgpu-1")),
        start: None,
        attrs: Vec::new(),
    };
    let e = dev.load_from_json(String::from("pci0"), &doc).unwrap_err();
    assert!(matches!(e, MdevError::InvalidJson));
    assert!(dev.parent.is_none());
    assert!(dev.mdev_type.is_none());
}

#[test]
fn json_load_signals_overwrites() {
    let mut dev = MDev::new(&env(), UUID);
    dev.parent = Some(String::from("pci1"));
    dev.mdev_type = Some(String::from("vgpu-2"));
    let doc = ConfigDoc {
        mdev_type: Some(String::from("vgpu-1")),
        start: Some(String::from("manual")),
        attrs: Vec::new(),
    };
    // the newer values win, and each overwrite is signalled
    let w = dev.load_from_json(String::from("pci0"), &doc).unwrap();
    assert!(w.parent_overwritten);
    assert!(w.type_overwritten);
    assert_eq!(dev.parent.as_deref(), Some("pci0"));
    assert_eq!(dev.mdev_type.as_deref(), Some("vgpu-1"));
    // loading identical values signals nothing
    let mut dev = MDev::new(&env(), UUID);
    dev.parent = Some(String::from("pci0"));
    dev.mdev_type = Some(String::from("vgpu-1"));
    let w = dev.load_from_json(String::from("pci0"), &doc).unwrap();
    assert!(!w.parent_overwritten);
    assert!(!w.type_overwritten);
}

#[test]
fn json_load_populates_the_device() {
    let mut dev = MDev::new(&env(), UUID);
    let doc = ConfigDoc {
        mdev_type: Some(String::from("vgpu-1")),
        start: Some(String::from("auto")),
        attrs: vec![
            (String::from("resolution"), String::from("1080p")),
            (String::from("fps"), String::from("60")),
        ],
    };
    let w = dev.load_from_json(String::from("pci0"), &doc).unwrap();
    assert!(!w.parent_overwritten && !w.type_overwritten);
    assert_eq!(dev.parent.as_deref(), Some("pci0"));
    assert_eq!(dev.mdev_type.as_deref(), Some("vgpu-1"));
    assert!(dev.autostart);
    assert_eq!(
        dev.attrs,
        vec![
            (String::from("resolution"), String::from("1080p")),
            (String::from("fps"), String::from("60")),
        ]
    );
    // "manual" start means no autostart
    let mut dev2 = MDev::new(&env(), UUID);
    let doc2 = ConfigDoc {
        mdev_type: Some(String::from("vgpu-1")),
        start: Some(String::from("manual")),
        attrs: Vec::new(),
    };
    dev2.load_from_json(String::from("pci0"), &doc2).unwrap();
    assert!(!dev2.autostart);
}

#[test]
fn definition_text_round_trips() {
    let mut dev = MDev::new(&env(), UUID);
    dev.parent = Some(String::from("pci0"));
    dev.mdev_type = Some(String::from("vgpu-1"));
    dev.autostart = true;
    dev.attrs = vec![
        (String::from("resolution"), String::from("1080p")),
        (String::from("fps"), String::from("60")),
    ];
    let text = dev.define().unwrap();
    let mut loaded = MDev::new(&env(), UUID);
    loaded.parent = Some(String::from("pci0"));
    loaded.load_definition(&text).unwrap();
    assert_eq!(loaded.mdev_type, dev.mdev_type);
    assert_eq!(loaded.autostart, dev.autostart);
    assert_eq!(loaded.attrs, dev.attrs);
}

#[test]
fn config_doc_round_trips_structurally() {
    let mut dev = MDev::new(&env(), UUID);
    dev.mdev_type = Some(String::from("vgpu-1"));
    dev.autostart = false;
    dev.attrs = vec![(String::from("a"), String::from("1"))];
    let doc = dev.to_config().unwrap();
    assert_eq!(doc.mdev_type.as_deref(), Some("vgpu-1"));
    assert_eq!(doc.start.as_deref(), Some("manual"));
    let mut loaded = MDev::new(&env(), UUID);
    loaded.load_from_json(String::from("pci0"), &doc).unwrap();
    assert_eq!(loaded.mdev_type, dev.mdev_type);
    assert_eq!(loaded.autostart, dev.autostart);
    assert_eq!(loaded.attrs, dev.attrs);
}

#[test]
fn device_json_encodes_the_projection() {
    let mut dev = MDev::new(&env(), UUID);
    dev.mdev_type = Some(String::from("vgpu-1"));
    dev.autostart = true;
    dev.attrs = vec![(String::from("fps"), String::from("60"))];
    let text = dev.to_json(false).unwrap();
    let v: serde_json::Value = serde_json::from_str(&text).unwrap();
    assert_eq!(v["mdev_type"], "vgpu-1");
    assert_eq!(v["start"], "auto");
    assert_eq!(v["attrs"][0]["fps"], "60");
    let full = dev.to_json(true).unwrap();
    let v: serde_json::Value = serde_json::from_str(&full).unwrap();
    assert_eq!(v[UUID_STR]["mdev_type"], "vgpu-1");
    let e = MDev::new(&env(), UUID).to_json(false).unwrap_err();
    assert!(matches!(e, MdevError::MissingType { .. }));
}

#[test]
fn parse_config_reads_fields_and_attrs_in_order() {
    let text = r#"{ "mdev_type": "vgpu-1", "start": "manual",
        "attrs": [ {"b": "2"}, {"a": "1"} ] }"#;
    let doc = parse_config(text).unwrap();
    assert_eq!(doc.mdev_type.as_deref(), Some("vgpu-1"));
    assert_eq!(doc.start.as_deref(), Some("manual"));
    assert_eq!(
        doc.attrs,
        vec![(String::from("b"), String::from("2")), (String::from("a"), String::from("1"))]
    );
    let doc = parse_config("{}").unwrap();
    assert!(doc.mdev_type.is_none());
    assert!(doc.start.is_none());
    assert!(doc.attrs.is_empty());
    let e = parse_config("not json").unwrap_err();
    assert!(matches!(e, MdevError::MalformedJson { .. }));
    assert_eq!(e.kind(), ErrorKind::Validation);
    let e = parse_config(r#"{ "attrs": [3] }"#).unwrap_err();
    assert!(matches!(e, MdevError::MalformedJson { .. }));
}

#[test]
fn to_text_lists_the_device() {
    let mut dev = MDev::new(&env(), UUID);
    dev.parent = Some(String::from("pci0"));
    dev.mdev_type = Some(String::from("vgpu-1"));
    dev.autostart = true;
    dev.active = true;
    let text = dev.to_text(FormatType::Defined, false, true).unwrap();
    assert_eq!(text, format!("{} pci0 vgpu-1 auto (active)\n", UUID_STR));
    dev.autostart = false;
    dev.active = false;
    dev.attrs = vec![(String::from("fps"), String::from("60"))];
    let text = dev.to_text(FormatType::Defined, true, true).unwrap();
    assert_eq!(
        text,
        format!(
            "{} pci0 vgpu-1 manual\n  Attrs:\n    @{{0}}: {{\"fps\":\"60\"}}\n",
            UUID_STR
        )
    );
    let e = dev.to_text(FormatType::Defined, false, false).unwrap_err();
    assert!(matches!(e, MdevError::NotDefined));
    let e = dev.to_text(FormatType::Active, false, true).unwrap_err();
    assert!(matches!(e, MdevError::NotActive));
}

#[test]
fn stop_applies_the_removal_outcome() {
    let mut dev = MDev::new(&env(), UUID);
    dev.active = true;
    dev.stop(Ok(())).unwrap();
    assert!(!dev.active);
    dev.active = true;
    let e = dev.stop(Err(String::from("busy"))).unwrap_err();
    assert!(dev.active);
    assert!(matches!(&e, MdevError::RemoveFailed { cause, .. } if cause == "busy"));
    assert_eq!(e.kind(), ErrorKind::Io);
}

#[test]
fn create_conflict_checks_are_ordered() {
    let mut dev = MDev::new(&env(), UUID);
    let live = LiveInfo {
        parent: String::from("pci0"),
        mdev_type: String::from("vgpu-1"),
    };
    assert!(matches!(
        dev.create_conflicts(Some(&live)).unwrap_err(),
        MdevError::MissingParent { .. }
    ));
    dev.parent = Some(String::from("pci0"));
    assert!(matches!(
        dev.create_conflicts(Some(&live)).unwrap_err(),
        MdevError::MissingType { .. }
    ));
    dev.mdev_type = Some(String::from("vgpu-1"));
    // no live entry: the probe is clear
    dev.create_conflicts(None).unwrap();
    // identical parent and type: already exists
    let e = dev.create_conflicts(Some(&live)).unwrap_err();
    assert!(matches!(e, MdevError::AlreadyExists));
    assert_eq!(e.kind(), ErrorKind::Conflict);
    // differing parent wins over differing type
    let other = LiveInfo {
        parent: String::from("pci9"),
        mdev_type: String::from("vgpu-2"),
    };
    assert!(matches!(
        dev.create_conflicts(Some(&other)).unwrap_err(),
        MdevError::ExistsDifferentParent
    ));
    let same_parent = LiveInfo {
        parent: String::from("pci0"),
        mdev_type: String::from("vgpu-2"),
    };
    assert!(matches!(
        dev.create_conflicts(Some(&same_parent)).unwrap_err(),
        MdevError::ExistsDifferentType
    ));
}

#[test]
fn create_support_and_capacity_checks() {
    let mut dev = MDev::new(&env(), UUID);
    dev.parent = Some(String::from("pci0"));
    dev.mdev_type = Some(String::from("vgpu-1"));
    let e = dev.create_support_check(false, false).unwrap_err();
    assert!(matches!(&e, MdevError::ParentNotRegistered { parent } if parent == "pci0"));
    let e = dev.create_support_check(true, false).unwrap_err();
    assert!(matches!(e, MdevError::TypeNotSupported { .. }));
    dev.create_support_check(true, true).unwrap();
    dev.create_capacity_check(" 3\n").unwrap();
    let e = dev.create_capacity_check("0\n").unwrap_err();
    assert!(matches!(e, MdevError::NoAvailableInstances { .. }));
    assert_eq!(e.kind(), ErrorKind::ResourceExhausted);
    assert_eq!(
        e.message(),
        "No available instances of vgpu-1 on pci0"
    );
    let e = dev.create_capacity_check("many\n").unwrap_err();
    assert!(matches!(e, MdevError::BadCapacityValue { .. }));
    // a negative capacity parses, and only exactly zero is exhausted
    dev.create_capacity_check("-1").unwrap();
}

#[test]
fn create_commit_applies_the_write_outcome() {
    let mut dev = MDev::new(&env(), UUID);
    dev.create_commit(Ok(())).unwrap();
    assert!(dev.active);
    let mut dev = MDev::new(&env(), UUID);
    let e = dev.create_commit(Err(String::from("denied"))).unwrap_err();
    assert!(!dev.active);
    assert!(matches!(&e, MdevError::CreateWriteFailed { cause, .. } if cause == "denied"));
}

#[test]
fn undefine_needs_a_resolvable_path() {
    let mut dev = MDev::new(&env(), UUID);
    let e = dev.undefine().unwrap_err();
    assert!(matches!(e, MdevError::UndefineNoPath { .. }));
    assert_eq!(e.message(), format!("Failed to undefine {}", UUID_STR));
    dev.parent = Some(String::from("pci0"));
    assert_eq!(dev.undefine().unwrap(), format!("/etc/mdevctl.d/pci0/{}", UUID_STR));
}

#[test]
fn mdevtype_json_lists_optional_fields_only_when_set() {
    let mut t = MDevType::new();
    t.typename = String::from("vgpu-1");
    t.available_instances = 4;
    t.device_api = String::from("vfio-pci");
    let v: serde_json::Value = serde_json::from_str(&t.to_json().unwrap()).unwrap();
    assert_eq!(v["vgpu-1"]["available_instances"], 4);
    assert_eq!(v["vgpu-1"]["device_api"], "vfio-pci");
    assert!(v["vgpu-1"].get("name").is_none());
    t.name = String::from("big gpu");
    t.description = String::from("half the card");
    let v: serde_json::Value = serde_json::from_str(&t.to_json().unwrap()).unwrap();
    assert_eq!(v["vgpu-1"]["name"], "big gpu");
    assert_eq!(v["vgpu-1"]["description"], "half the card");
}
