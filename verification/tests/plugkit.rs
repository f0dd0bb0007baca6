use mnu::plugkit::package::{about_file_path, join_path_bytes, parse_about_toml, PackageRegistry};
use mnu::plugkit::{DeviceBus, MatchRule};

const ABOUT: &str = r#"# Example driver package
[driver]
id = "virtio-blk"          # the package id
name = "Virtio block"
version = 3
description = "Block storage \"fast\"\tpath"
developer = Acme
entry = "bin/driver.elf"

[plugkit]
api = "2"
driver_class = "block"

[capabilities]
requires = ["dma", io_port , "irq#1" , ]

[provides]
interfaces = []

[[match]]
bus = "pci"
vendor_id = 0x1AF4
device_id = "4098"

[[match]]
bus = virtio

[[match]]
unknown = 1
"#;

fn parse(text: &str) -> Option<mnu::plugkit::package::PackageManifest> {
    parse_about_toml(text.as_bytes(), b"/pkg/virtio-blk/", b"/pkg/virtio-blk/about.toml")
}

#[test]
fn about_toml_fields_are_read() {
    let m = parse(ABOUT).expect("manifest");
    assert_eq!(m.package_id, b"virtio-blk".to_vec());
    assert_eq!(m.package_name, b"Virtio block".to_vec());
    assert_eq!(m.package_root, b"/pkg/virtio-blk/".to_vec());
    assert_eq!(m.about_path, b"/pkg/virtio-blk/about.toml".to_vec());
    assert_eq!(m.entry_path, b"/pkg/virtio-blk/bin/driver.elf".to_vec());
    let d = &m.driver;
    assert_eq!(d.id, b"virtio-blk".to_vec());
    assert_eq!(d.version, b"3".to_vec());
    assert_eq!(d.description, Some(b"Block storage \"fast\"\tpath".to_vec()));
    assert_eq!(d.developer, Some(b"Acme".to_vec()));
    assert_eq!(d.api_version, 2);
    assert_eq!(d.driver_class, Some(b"block".to_vec()));
    assert_eq!(d.capabilities, vec![b"dma".to_vec(), b"io_port".to_vec(), b"irq#1".to_vec()]);
    assert!(d.provides.is_empty());
    assert_eq!(
        d.matches,
        vec![
            MatchRule { bus: Some(DeviceBus::Pci), vendor_id: Some(0x1af4), device_id: Some(4098) },
            MatchRule { bus: Some(DeviceBus::Virtio), vendor_id: None, device_id: None },
        ]
    );
}

#[test]
fn about_toml_requires_id_name_version_and_entry() {
    let text = "[driver]\nid = a\nname = b\nversion = 1\n";
    assert!(parse(text).is_none());
    let text = "[driver]\nid = a\nname = b\nversion = 1\nentry = e\n";
    let m = parse(text).expect("manifest");
    assert_eq!(m.driver.api_version, 1);
    assert_eq!(m.entry_path, b"/pkg/virtio-blk/e".to_vec());
}

#[test]
fn about_toml_malformed_api_or_array_rejects_the_file() {
    let base = "[driver]\nid = a\nname = b\nversion = 1\nentry = e\n";
    assert!(parse(&format!("{base}[plugkit]\napi = \"2\\\"\n")).is_none());
    assert!(parse(&format!("{base}[capabilities]\nrequires = dma\n")).is_none());
    assert!(parse(&format!("{base}[provides]\ninterfaces = [x\n")).is_none());
    // An api that is not a number leaves the default of 1 unset: none.
    let m = parse(&format!("{base}[plugkit]\napi = two\n")).expect("manifest");
    assert_eq!(m.driver.api_version, 1);
    // A malformed id value is dropped, and then the id is missing.
    assert!(parse("[driver]\nid = \"a\\\nname = b\nversion = 1\nentry = e\n").is_none());
}

#[test]
fn about_toml_keys_outside_their_table_are_ignored() {
    let text = "id = x\n[plugkit]\nid = y\n[driver]\nid = a\r\nname = b\nversion = 1\nentry = e\nnot a key\n[other]\n";
    let m = parse(text).expect("manifest");
    assert_eq!(m.package_id, b"a".to_vec());
}

#[test]
fn match_ids_accept_hex_decimal_and_quoted() {
    let base = "[driver]\nid = a\nname = b\nversion = 1\nentry = e\n[[match]]\n";
    let m = parse(&format!("{base}vendor_id = \" 0X10 \"\ndevice_id = 4294967296\n")).unwrap();
    assert_eq!(m.driver.matches, vec![MatchRule { bus: None, vendor_id: Some(16), device_id: None }]);
    let m = parse(&format!("{base}bus = \"\"usb\"\"\ndevice_id = +7\n")).unwrap();
    assert_eq!(m.driver.matches, vec![MatchRule { bus: Some(DeviceBus::Usb), vendor_id: None, device_id: Some(7) }]);
    let m = parse(&format!("{base}bus = nvme\n")).unwrap();
    assert!(m.driver.matches.is_empty());
}

#[test]
fn paths_are_joined_with_one_slash() {
    assert_eq!(join_path_bytes(b"/pkg///", b"x"), b"/pkg/x".to_vec());
    assert_eq!(join_path_bytes(b"", b"x"), b"/x".to_vec());
    assert_eq!(about_file_path(b"/pkg/a"), b"/pkg/a/about.toml".to_vec());
}

fn manifest_with_id(id: &str, name: &str) -> mnu::plugkit::package::PackageManifest {
    let text = format!("[driver]\nid = {id}\nname = {name}\nversion = 1\nentry = e\n");
    parse_about_toml(text.as_bytes(), b"/p", b"/p/about.toml").unwrap()
}

#[test]
fn registry_lists_packages_by_id_and_replaces_same_id() {
    let mut registry = PackageRegistry::new();
    assert!(registry.register_package(manifest_with_id("net", "first")));
    assert!(registry.register_package(manifest_with_id("blk", "block")));
    assert!(registry.register_package(manifest_with_id("netx", "other")));
    assert!(registry.register_package(manifest_with_id("net", "second")));
    let ids: Vec<Vec<u8>> = registry.package_manifests().into_iter().map(|m| m.package_id).collect();
    assert_eq!(ids, vec![b"blk".to_vec(), b"net".to_vec(), b"netx".to_vec()]);
    let net = registry.package_manifest(b"net").expect("net");
    assert_eq!(net.package_name, b"second".to_vec());
    assert!(registry.package_manifest(b"ne").is_none());
}

#[test]
fn load_package_rejects_invalid_text() {
    let mut registry = PackageRegistry::new();
    assert!(!registry.load_package(&[0xff, 0x0a], b"/p", b"/p/about.toml"));
    assert!(!registry.load_package(b"[driver]\nid = a\n", b"/p", b"/p/about.toml"));
    assert!(registry.package_manifests().is_empty());
    assert!(registry.load_package(ABOUT.as_bytes(), b"/p", b"/p/about.toml"));
    assert_eq!(registry.package_manifests().len(), 1);
}
