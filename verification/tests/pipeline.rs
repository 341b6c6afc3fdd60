//! Upload pipeline, dedup set and persistence behaviour.
use egdata_client::dedup::DedupSet;
use egdata_client::models::UploadStatus;
use egdata_client::upload::{
    begin_upload, blob_path, classify_response, failure_status, finish_upload, item_path,
    upload_endpoint, Platform, UploadStep,
};

const DUP_PHRASE: &str = "A manifest file with identical content already exists";

fn item_text(hash: &str) -> String {
    format!(
        "{{\"FormatVersion\":0,\"bIsIncompleteInstall\":false,\"LaunchCommand\":\"\",\
         \"LaunchExecutable\":\"x.exe\",\"ManifestLocation\":\"m\",\"ManifestHash\":\"{}\",\
         \"bIsApplication\":true,\"bIsExecutable\":true,\"DisplayName\":\"G\",\
         \"InstallationGuid\":\"guid1\",\"InstallLocation\":\"C:\\\\Games\\\\G\",\
         \"InstallSize\":42,\"CatalogNamespace\":\"ns\",\"CatalogItemId\":\"cat1\",\
         \"AppName\":\"g\",\"AppVersionString\":\"1.0\"}}",
        hash
    )
}

#[test]
fn paths_are_derived_from_the_record() {
    assert_eq!(
        item_path("C:/ProgramData/Manifests", "ABC123"),
        "C:/ProgramData/Manifests/ABC123.item"
    );
    assert_eq!(
        blob_path("C:\\Games\\Example", "ABC123"),
        "C:/Games/Example/.egstore/ABC123.manifest"
    );
    assert_eq!(
        upload_endpoint(),
        "https://egdata-builds-api.snpm.workers.dev/upload-manifest"
    );
}

#[test]
fn begin_prepares_the_multipart_request() {
    let dedup = DedupSet::new();
    let text = item_text("deadbeef");
    let step = begin_upload(
        Ok(text.clone()),
        Ok(vec![1u8, 2, 3]),
        "guid1",
        Platform::Windows,
        &dedup,
    );
    match step {
        UploadStep::Send(req) => {
            assert_eq!(req.item_text, text);
            assert_eq!(req.os_tag, "Windows");
            assert_eq!(req.blob, vec![1u8, 2, 3]);
            assert_eq!(req.blob_filename, "guid1.manifest");
            assert_eq!(req.manifest_hash, "deadbeef");
        }
        _ => panic!("expected a prepared request"),
    }
}

#[test]
fn begin_reports_mac_tag() {
    let dedup = DedupSet::new();
    let step = begin_upload(
        Ok(item_text("h")),
        Ok(vec![]),
        "g",
        Platform::Mac,
        &dedup,
    );
    match step {
        UploadStep::Send(req) => assert_eq!(req.os_tag, "Mac"),
        _ => panic!("expected a prepared request"),
    }
}

#[test]
fn begin_aborts_on_read_failures() {
    let dedup = DedupSet::new();
    let step = begin_upload(
        Err("no such file".to_string()),
        Ok(vec![]),
        "g",
        Platform::Windows,
        &dedup,
    );
    match step {
        UploadStep::Fail(m) => assert_eq!(m, "Failed to read .item file: no such file"),
        _ => panic!("expected a failure"),
    }
    let step = begin_upload(
        Ok(item_text("h")),
        Err("gone".to_string()),
        "g",
        Platform::Windows,
        &dedup,
    );
    match step {
        UploadStep::Fail(m) => assert_eq!(m, "Failed to read .manifest file: gone"),
        _ => panic!("expected a failure"),
    }
}

#[test]
fn begin_aborts_on_bad_descriptors() {
    let dedup = DedupSet::new();
    let step = begin_upload(
        Ok("not json at all".to_string()),
        Ok(vec![]),
        "g",
        Platform::Windows,
        &dedup,
    );
    match step {
        UploadStep::Fail(m) => assert_eq!(m, "Failed to parse .item file"),
        _ => panic!("expected a failure"),
    }
    let step = begin_upload(
        Ok("{\"DisplayName\":\"G\"}".to_string()),
        Ok(vec![]),
        "g",
        Platform::Windows,
        &dedup,
    );
    match step {
        UploadStep::Fail(m) => assert_eq!(m, "ManifestHash not found in .item file"),
        _ => panic!("expected a failure"),
    }
}

#[test]
fn classify_success_is_uploaded() {
    let st = classify_response(true, "stored".to_string(), "h1");
    assert_eq!(st.status, "uploaded");
    assert_eq!(st.message.as_deref(), Some("stored"));
    assert_eq!(st.manifest_hash.as_deref(), Some("h1"));
}

#[test]
fn duplicate_phrase_classifies_as_already_uploaded_and_records_the_hash() {
    let mut dedup = DedupSet::new();
    let body = format!("error: {} (id 7)", DUP_PHRASE);
    let r = finish_upload("h2".to_string(), Ok((false, body)), &mut dedup);
    let st = r.expect("a rejection is still a classified status");
    assert_eq!(st.status, "already_uploaded");
    assert_eq!(
        st.message.as_deref(),
        Some("Manifest with identical content already exists")
    );
    assert_eq!(st.manifest_hash.as_deref(), Some("h2"));
    assert!(dedup.contains("h2"));
}

#[test]
fn other_rejections_classify_as_failed_and_record_nothing() {
    let mut dedup = DedupSet::new();
    let r = finish_upload(
        "h3".to_string(),
        Ok((false, "internal error".to_string())),
        &mut dedup,
    );
    let st = r.unwrap();
    assert_eq!(st.status, "failed");
    assert_eq!(st.message.as_deref(), Some("internal error"));
    assert!(!dedup.contains("h3"));
}

#[test]
fn network_failure_surfaces_as_error_and_records_nothing() {
    let mut dedup = DedupSet::new();
    let r = finish_upload(
        "h4".to_string(),
        Err("connection refused".to_string()),
        &mut dedup,
    );
    match r {
        Err(m) => assert_eq!(m, "Failed to send upload request: connection refused"),
        Ok(_) => panic!("a network failure is not a status"),
    }
    assert!(!dedup.contains("h4"));
}

#[test]
fn second_attempt_for_an_uploaded_hash_makes_no_network_call() {
    let mut dedup = DedupSet::new();
    let text = item_text("samehash");
    // First attempt: sent and acknowledged.
    let step = begin_upload(
        Ok(text.clone()),
        Ok(vec![9u8]),
        "g",
        Platform::Windows,
        &dedup,
    );
    let req = match step {
        UploadStep::Send(req) => req,
        _ => panic!("first attempt must send"),
    };
    let st = finish_upload(
        req.manifest_hash.clone(),
        Ok((true, "ok".to_string())),
        &mut dedup,
    )
    .unwrap();
    assert_eq!(st.status, "uploaded");
    // Second attempt for the same content: skipped before any network work.
    let step = begin_upload(Ok(text), Ok(vec![9u8]), "g", Platform::Windows, &dedup);
    match step {
        UploadStep::Skip(st) => {
            assert_eq!(st.status, "already_uploaded");
            assert_eq!(st.manifest_hash.as_deref(), Some("samehash"));
        }
        UploadStep::Send(_) => panic!("a second network call was prepared"),
        UploadStep::Fail(_) => panic!("the record did not fail"),
    }
}

#[test]
fn batch_isolates_the_one_failing_record() {
    // Three records; the middle one's blob is missing. The driver loop, as
    // the binary runs it, collects one status per record and never aborts.
    let mut dedup = DedupSet::new();
    let records = vec![
        ("guidA", item_text("hashA"), Ok(vec![1u8])),
        (
            "guidB",
            item_text("hashB"),
            Err("missing blob".to_string()),
        ),
        ("guidC", item_text("hashC"), Ok(vec![3u8])),
    ];
    let mut statuses: Vec<UploadStatus> = Vec::new();
    for (guid, text, blob) in records {
        let step = begin_upload(Ok(text), blob, guid, Platform::Windows, &dedup);
        let st = match step {
            UploadStep::Fail(m) => failure_status(m),
            UploadStep::Skip(st) => st,
            UploadStep::Send(req) => {
                // Simulated successful POST.
                finish_upload(req.manifest_hash, Ok((true, "ok".to_string())), &mut dedup)
                    .unwrap_or_else(failure_status)
            }
        };
        statuses.push(st);
    }
    assert_eq!(statuses.len(), 3);
    let failed: Vec<&UploadStatus> = statuses.iter().filter(|s| s.status == "failed").collect();
    assert_eq!(failed.len(), 1);
    assert_eq!(
        failed[0].message.as_deref(),
        Some("Failed to read .manifest file: missing blob")
    );
    assert_eq!(statuses[0].status, "uploaded");
    assert_eq!(statuses[2].status, "uploaded");
}

#[test]
fn dedup_insert_and_contains() {
    let mut d = DedupSet::new();
    assert_eq!(d.len(), 0);
    assert!(!d.contains("a"));
    assert!(d.insert("a".to_string()));
    assert!(d.contains("a"));
    assert!(!d.insert("a".to_string()));
    assert_eq!(d.len(), 1);
    assert!(d.insert("b".to_string()));
    assert_eq!(d.len(), 2);
}

#[test]
fn persisted_set_reloads_and_still_skips() {
    let mut d = DedupSet::new();
    d.insert("hash1".to_string());
    d.insert("hash2".to_string());
    let text = d.persist_text().expect("plain hashes persist");
    assert_eq!(text, "[\"hash1\",\"hash2\"]");
    let reloaded = DedupSet::from_persist_text(&text).expect("a stored document decodes");
    assert!(reloaded.contains("hash1"));
    assert!(reloaded.contains("hash2"));
    assert!(!reloaded.contains("hash3"));
    assert_eq!(reloaded.len(), 2);
    // The reloaded set answers a repeated upload without a network call.
    let step = begin_upload(
        Ok(item_text("hash1")),
        Ok(vec![0u8]),
        "g",
        Platform::Windows,
        &reloaded,
    );
    assert!(matches!(step, UploadStep::Skip(_)));
}

#[test]
fn empty_set_round_trips() {
    let d = DedupSet::new();
    let text = d.persist_text().unwrap();
    assert_eq!(text, "[]");
    let reloaded = DedupSet::from_persist_text(&text).unwrap();
    assert_eq!(reloaded.len(), 0);
}

#[test]
fn unstorable_hash_is_not_persisted() {
    let mut d = DedupSet::new();
    d.insert("with\"quote".to_string());
    assert!(d.persist_text().is_none());
}

#[test]
fn malformed_stored_documents_are_rejected() {
    assert!(DedupSet::from_persist_text("").is_none());
    assert!(DedupSet::from_persist_text("{}").is_none());
    assert!(DedupSet::from_persist_text("[\"unterminated").is_none());
    assert!(DedupSet::from_persist_text("[\"a\",]").is_none());
    assert!(DedupSet::from_persist_text("[\"a\"").is_none());
    assert!(DedupSet::from_persist_text("[\"a\"]x").is_none());
}

#[test]
fn failure_status_carries_the_message() {
    let st = failure_status("why it failed".to_string());
    assert_eq!(st.status, "failed");
    assert_eq!(st.message.as_deref(), Some("why it failed"));
    assert!(st.manifest_hash.is_none());
}
