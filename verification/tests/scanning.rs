//! Scanner, descriptor decoding, metadata decoding, registry and cache.
use egdata_client::cache::MetadataCache;
use egdata_client::descriptor::parse_descriptor;
use egdata_client::metadata::parse_metadata;
use egdata_client::models::{GameInfo, GameMetadata};
use egdata_client::registry::Registry;
use egdata_client::scan::{scan_listing, DescriptorFile};

fn descriptor(app_name: &str, guid: &str, hash: &str) -> String {
    format!(
        "{{\"FormatVersion\":0,\"bIsIncompleteInstall\":false,\"LaunchCommand\":\"-run\",\
         \"LaunchExecutable\":\"bin/game.exe\",\"ManifestLocation\":\"C:\\\\PD\\\\m\",\
         \"ManifestHash\":\"{}\",\"bIsApplication\":true,\"bIsExecutable\":false,\
         \"DisplayName\":\"Display {}\",\"InstallationGuid\":\"{}\",\
         \"InstallLocation\":\"C:\\\\Games\\\\{}\",\"InstallSize\":123456,\
         \"CatalogNamespace\":\"ns1\",\"CatalogItemId\":\"cat-{}\",\"AppName\":\"{}\",\
         \"AppVersionString\":\"2.1\"}}",
        hash, app_name, guid, app_name, app_name, app_name
    )
}

fn record(app_name: &str, guid: &str, hash: &str) -> GameInfo {
    let manifest = parse_descriptor(&descriptor(app_name, guid, hash)).expect("decodes");
    egdata_client::descriptor::record_from_manifest(manifest)
}

#[test]
fn descriptor_fields_are_decoded() {
    let m = parse_descriptor(&descriptor("fortnite", "G1", "H1")).expect("decodes");
    assert_eq!(m.format_version, 0);
    assert!(!m.is_incomplete_install);
    assert_eq!(m.launch_command, "-run");
    assert_eq!(m.launch_executable, "bin/game.exe");
    assert_eq!(m.manifest_location, "C:\\PD\\m");
    assert_eq!(m.manifest_hash, "H1");
    assert!(m.is_application);
    assert!(!m.is_executable);
    assert_eq!(m.display_name, "Display fortnite");
    assert_eq!(m.installation_guid, "G1");
    assert_eq!(m.install_location, "C:\\Games\\fortnite");
    assert_eq!(m.install_size, 123456);
    assert_eq!(m.catalog_namespace, "ns1");
    assert_eq!(m.catalog_item_id, "cat-fortnite");
    assert_eq!(m.app_name, "fortnite");
    assert_eq!(m.app_version_string, "2.1");
}

#[test]
fn descriptor_with_missing_field_is_rejected() {
    assert!(parse_descriptor("{\"DisplayName\":\"G\"}").is_err());
    assert!(parse_descriptor("not json").is_err());
    assert!(parse_descriptor("{\"InstallSize\":\"big\"}").is_err());
}

#[test]
fn record_is_mapped_from_the_manifest() {
    let g = record("app1", "G1", "H1");
    assert_eq!(g.display_name, "Display app1");
    assert_eq!(g.app_name, "app1");
    assert_eq!(g.install_location, "C:\\Games\\app1");
    assert_eq!(g.install_size, 123456);
    assert_eq!(g.version, "2.1");
    assert_eq!(g.catalog_namespace, "ns1");
    assert_eq!(g.catalog_item_id, "cat-app1");
    assert_eq!(g.installation_guid, "G1");
    assert_eq!(g.manifest_hash, "H1");
    assert!(g.metadata.is_none());
}

#[test]
fn absent_directory_fails_the_scan_and_leaves_the_registry_unchanged() {
    let mut registry = Registry::new();
    registry.replace_all(vec![record("app1", "G1", "H1")]);
    assert_eq!(registry.len(), 1);
    let r = scan_listing(None);
    assert!(r.is_err());
    // The failed cycle never reaches the registry; the old snapshot stands.
    assert_eq!(registry.len(), 1);
    assert!(registry.get("app1").is_some());
}

#[test]
fn one_bad_descriptor_among_three_is_skipped() {
    let files = vec![
        DescriptorFile {
            name: "a.item".to_string(),
            content: Some(descriptor("appA", "GA", "HA")),
        },
        DescriptorFile {
            name: "b.item".to_string(),
            content: Some("{broken json".to_string()),
        },
        DescriptorFile {
            name: "c.item".to_string(),
            content: Some(descriptor("appC", "GC", "HC")),
        },
    ];
    let out = scan_listing(Some(files)).expect("the directory exists");
    assert_eq!(out.records.len(), 2);
    assert_eq!(out.skipped, 1);
    assert_eq!(out.records[0].app_name, "appA");
    assert_eq!(out.records[1].app_name, "appC");
}

#[test]
fn non_descriptor_files_are_ignored() {
    let files = vec![
        DescriptorFile {
            name: "readme.txt".to_string(),
            content: Some("hello".to_string()),
        },
        DescriptorFile {
            name: ".item".to_string(),
            content: Some(descriptor("appX", "GX", "HX")),
        },
        DescriptorFile {
            name: "x.item".to_string(),
            content: Some(descriptor("appX", "GX", "HX")),
        },
    ];
    let out = scan_listing(Some(files)).unwrap();
    assert_eq!(out.records.len(), 1);
    assert_eq!(out.skipped, 0);
}

#[test]
fn unreadable_descriptor_counts_as_a_skip() {
    let files = vec![DescriptorFile {
        name: "a.item".to_string(),
        content: None,
    }];
    let out = scan_listing(Some(files)).unwrap();
    assert_eq!(out.records.len(), 0);
    assert_eq!(out.skipped, 1);
}

#[test]
fn empty_listing_is_an_empty_snapshot() {
    let out = scan_listing(Some(Vec::new())).unwrap();
    assert_eq!(out.records.len(), 0);
    assert_eq!(out.skipped, 0);
}

#[test]
fn replace_swaps_the_whole_snapshot() {
    let mut registry = Registry::new();
    let old_len = registry.replace_all(vec![
        record("app1", "G1", "H1"),
        record("app2", "G2", "H2"),
    ]);
    assert_eq!(old_len, 0);
    assert_eq!(registry.len(), 2);
    // A new scan found a different set; nothing of the old one survives.
    let old_len = registry.replace_all(vec![record("app3", "G3", "H3")]);
    assert_eq!(old_len, 2);
    assert_eq!(registry.len(), 1);
    assert!(registry.get("app1").is_none());
    assert!(registry.get("app2").is_none());
    assert_eq!(registry.get("app3").unwrap().installation_guid, "G3");
}

#[test]
fn later_records_win_their_key() {
    let mut registry = Registry::new();
    registry.replace_all(vec![
        record("app1", "G1", "H1"),
        record("app1", "G9", "H9"),
    ]);
    assert_eq!(registry.len(), 1);
    assert_eq!(registry.get("app1").unwrap().installation_guid, "G9");
}

#[test]
fn single_record_lookup_needs_both_identifiers() {
    let mut registry = Registry::new();
    registry.replace_all(vec![
        record("app1", "G1", "H1"),
        record("app2", "G2", "H2"),
    ]);
    let found = registry.find_by_ids("cat-app2", "G2").unwrap();
    assert_eq!(found.app_name, "app2");
    assert!(registry.find_by_ids("cat-app2", "G1").is_none());
    assert!(registry.find_by_ids("cat-app9", "G2").is_none());
}

#[test]
fn snapshot_copies_every_record() {
    let mut registry = Registry::new();
    registry.replace_all(vec![
        record("app1", "G1", "H1"),
        record("app2", "G2", "H2"),
    ]);
    let copy = registry.snapshot();
    assert_eq!(copy.len(), 2);
    assert_eq!(copy[0].app_name, "app1");
    assert_eq!(copy[1].app_name, "app2");
    assert_eq!(copy[1].manifest_hash, "H2");
}

fn metadata_doc() -> &'static str {
    "{\"id\":\"cat1\",\"title\":\"A Game\",\"description\":\"Fun.\",\
     \"keyImages\":[{\"type\":\"Thumbnail\",\"url\":\"https://img/1\",\"md5\":\"m1\"},\
     {\"type\":\"Wide\",\"url\":\"https://img/2\",\"md5\":\"m2\"}],\
     \"developer\":\"Studio\",\"developerId\":\"dev9\"}"
}

#[test]
fn metadata_body_is_decoded() {
    let m = parse_metadata(metadata_doc()).expect("well-formed");
    assert_eq!(m.id, "cat1");
    assert_eq!(m.title, "A Game");
    assert_eq!(m.description, "Fun.");
    assert_eq!(m.key_images.len(), 2);
    assert_eq!(m.key_images[0].image_type, "Thumbnail");
    assert_eq!(m.key_images[0].url, "https://img/1");
    assert_eq!(m.key_images[0].md5, "m1");
    assert_eq!(m.key_images[1].image_type, "Wide");
    assert_eq!(m.developer.as_deref(), Some("Studio"));
    assert_eq!(m.developer_id.as_deref(), Some("dev9"));
}

#[test]
fn metadata_without_optional_fields_still_decodes() {
    let m = parse_metadata(
        "{\"id\":\"c\",\"title\":\"t\",\"description\":\"d\",\"keyImages\":[]}",
    )
    .expect("well-formed");
    assert!(m.developer.is_none());
    assert!(m.developer_id.is_none());
    assert!(m.key_images.is_empty());
}

#[test]
fn malformed_metadata_degrades_to_none() {
    assert!(parse_metadata("no json").is_none());
    assert!(parse_metadata("{\"id\":\"c\",\"title\":\"t\"}").is_none());
    assert!(parse_metadata(
        "{\"id\":\"c\",\"title\":\"t\",\"description\":\"d\",\
         \"keyImages\":[{\"type\":\"T\",\"url\":\"u\"}]}"
    )
    .is_none());
}

#[test]
fn cache_memoizes_and_overwrites() {
    let mut cache = MetadataCache::new();
    assert!(cache.lookup("cat1").is_none());
    let m: GameMetadata = parse_metadata(metadata_doc()).unwrap();
    cache.insert("cat1".to_string(), m);
    assert_eq!(cache.len(), 1);
    assert_eq!(cache.lookup("cat1").unwrap().title, "A Game");
    assert!(cache.lookup("cat2").is_none());
    // A racing fetch for the same key: the last write wins, no growth.
    let mut second = parse_metadata(metadata_doc()).unwrap();
    second.title = "A Game (updated)".to_string();
    cache.insert("cat1".to_string(), second);
    assert_eq!(cache.len(), 1);
    assert_eq!(cache.lookup("cat1").unwrap().title, "A Game (updated)");
}

#[test]
fn metadata_is_attached_to_a_record() {
    let g = record("app1", "G1", "H1");
    let m = parse_metadata(metadata_doc()).unwrap();
    let g = g.with_metadata(Some(m));
    assert_eq!(g.metadata.as_ref().unwrap().id, "cat1");
    assert_eq!(g.app_name, "app1");
}
