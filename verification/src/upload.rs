//! Upload Pipeline: everything one record's upload decides and computes.
//!
//! The surrounding binary only moves bytes: it reads the two files whose
//! paths this module derives, performs the one POST this module prepares,
//! and hands the response back. The pipeline extracts the content hash
//! from the descriptor, consults the dedup set before any network call,
//! classifies the response, and records acknowledged hashes.
use vstd::prelude::*;

use crate::dedup::DedupSet;
use crate::json::{json_wf, read_str_field, str_field_of, text_is_json};
use crate::models::UploadStatus;
use crate::strutil::{contains_str, replace_backslashes, spec_contains, spec_slashed};

verus! {

/// Where a record's upload goes: a multipart POST to the fixed
/// collection-service endpoint.
pub fn upload_endpoint() -> (r: String)
    ensures
        r@ == "https://egdata-builds-api.snpm.workers.dev/upload-manifest"@,
{
    String::from_str("https://egdata-builds-api.snpm.workers.dev/upload-manifest")
}

/// The descriptor file of a record: `<dir>/<guid>.item` under the manifest
/// directory.
pub fn item_path(manifests_dir: &str, guid: &str) -> (r: String)
    ensures
        r@ == manifests_dir@ + "/"@ + guid@ + ".item"@,
{
    let mut s = String::from_str(manifests_dir);
    s.append("/");
    s.append(guid);
    s.append(".item");
    s
}

/// The binary manifest blob of a record: `<install root>/.egstore/
/// <guid>.manifest`, with the install location's backslashes normalized to
/// forward slashes first.
pub fn blob_path(install_location: &str, guid: &str) -> (r: String)
    ensures
        r@ == spec_slashed(install_location@) + "/.egstore/"@ + guid@ + ".manifest"@,
{
    let mut s = replace_backslashes(install_location);
    s.append("/.egstore/");
    s.append(guid);
    s.append(".manifest");
    s
}

/// The platform tag carried in the upload form: one of two fixed values.
pub enum Platform {
    Mac,
    Windows,
}

/// The three parts of the multipart POST, ready to send: the raw
/// descriptor text, the platform tag, and the blob with its generated
/// filename. The extracted content hash rides along for the response step.
pub struct UploadRequest {
    pub item_text: String,
    pub os_tag: String,
    pub blob: Vec<u8>,
    pub blob_filename: String,
    pub manifest_hash: String,
}

/// What the pipeline decided for one record before any network activity.
pub enum UploadStep {
    /// The record is aborted: a file could not be read or the descriptor
    /// could not be decoded. The message is the record's error text.
    Fail(String),
    /// The hash is already acknowledged: report this status and make no
    /// network call.
    Skip(UploadStatus),
    /// Perform the POST and hand the response to [`finish_upload`].
    Send(UploadRequest),
}

fn prefixed(prefix: &str, rest: &str) -> (r: String)
    ensures
        r@ == prefix@ + rest@,
{
    let mut s = String::from_str(prefix);
    s.append(rest);
    s
}

/// Decide one record's upload from the two file reads. Read failures and
/// undecodable descriptors abort the record with its error text; a hash
/// already in the dedup set is reported `already_uploaded` with no network
/// call; otherwise the multipart request is prepared, carrying the raw
/// descriptor text, the platform tag and the blob under its generated
/// filename.
pub fn begin_upload(
    item_read: Result<String, String>,
    blob_read: Result<Vec<u8>, String>,
    guid: &str,
    platform: Platform,
    dedup: &DedupSet,
) -> (r: UploadStep)
    ensures
        item_read matches Err(e) ==> (r matches UploadStep::Fail(m) && m@
            == "Failed to read .item file: "@ + e@),
        item_read is Ok && blob_read is Err ==> (r matches UploadStep::Fail(m) && m@
            == "Failed to read .manifest file: "@ + blob_read->Err_0@),
        item_read is Ok && blob_read is Ok && !json_wf(item_read->Ok_0@) ==> (
        r matches UploadStep::Fail(m) && m@ == "Failed to parse .item file"@),
        item_read is Ok && blob_read is Ok && json_wf(item_read->Ok_0@) && str_field_of(
            item_read->Ok_0@,
            "ManifestHash"@,
        ) is None ==> (r matches UploadStep::Fail(m) && m@
            == "ManifestHash not found in .item file"@),
        item_read is Ok && blob_read is Ok && str_field_of(item_read->Ok_0@, "ManifestHash"@)
            is Some && dedup@.contains(str_field_of(item_read->Ok_0@, "ManifestHash"@)->Some_0)
            ==> (r matches UploadStep::Skip(st) && {
            &&& st.status@ == "already_uploaded"@
            &&& st.message matches Some(m) && m@ == "Content hash already uploaded"@
            &&& st.manifest_hash matches Some(sh) && sh@ == str_field_of(
                item_read->Ok_0@,
                "ManifestHash"@,
            )->Some_0
        }),
        item_read is Ok && blob_read is Ok && str_field_of(item_read->Ok_0@, "ManifestHash"@)
            is Some && !dedup@.contains(str_field_of(item_read->Ok_0@, "ManifestHash"@)->Some_0)
            ==> (r matches UploadStep::Send(req) && {
            &&& req.item_text == item_read->Ok_0
            &&& req.os_tag@ == if platform is Mac {
                "Mac"@
            } else {
                "Windows"@
            }
            &&& req.blob == blob_read->Ok_0
            &&& req.blob_filename@ == guid@ + ".manifest"@
            &&& req.manifest_hash@ == str_field_of(item_read->Ok_0@, "ManifestHash"@)->Some_0
        }),
{
    let text = match item_read {
        Ok(t) => t,
        Err(e) => {
            return UploadStep::Fail(prefixed("Failed to read .item file: ", e.as_str()));
        },
    };
    let blob = match blob_read {
        Ok(b) => b,
        Err(e) => {
            return UploadStep::Fail(prefixed("Failed to read .manifest file: ", e.as_str()));
        },
    };
    let hash = match read_str_field(text.as_str(), "ManifestHash") {
        Some(h) => h,
        None => {
            if !text_is_json(text.as_str()) {
                return UploadStep::Fail(String::from_str("Failed to parse .item file"));
            }
            return UploadStep::Fail(String::from_str("ManifestHash not found in .item file"));
        },
    };
    if dedup.contains(hash.as_str()) {
        return UploadStep::Skip(
            UploadStatus {
                status: String::from_str("already_uploaded"),
                message: Some(String::from_str("Content hash already uploaded")),
                manifest_hash: Some(hash),
            },
        );
    }
    let os_tag = match platform {
        Platform::Mac => String::from_str("Mac"),
        Platform::Windows => String::from_str("Windows"),
    };
    let mut blob_filename = String::from_str(guid);
    blob_filename.append(".manifest");
    UploadStep::Send(
        UploadRequest { item_text: text, os_tag, blob, blob_filename, manifest_hash: hash },
    )
}

/// The literal phrase whose presence in a rejecting response's body means
/// the service already holds identical content. Preserved exactly for wire
/// compatibility.
pub open spec fn dup_phrase() -> Seq<char> {
    "A manifest file with identical content already exists"@
}

/// How one response is classified against the record's content hash.
pub open spec fn classified_as(success: bool, body: Seq<char>, hash: Seq<char>, st: UploadStatus) -> bool {
    &&& st.manifest_hash matches Some(h) && h@ == hash
    &&& if success {
        &&& st.status@ == "uploaded"@
        &&& st.message matches Some(m) && m@ == body
    } else if spec_contains(body, dup_phrase()) {
        &&& st.status@ == "already_uploaded"@
        &&& st.message matches Some(m) && m@ == "Manifest with identical content already exists"@
    } else {
        &&& st.status@ == "failed"@
        &&& st.message matches Some(m) && m@ == body
    }
}

/// Classify the service's response: HTTP success is `uploaded`; a failure
/// whose body holds the duplicate-content phrase is `already_uploaded`;
/// any other failure is `failed`, with the raw body preserved as the
/// message for diagnosis.
pub fn classify_response(success: bool, body: String, hash: &str) -> (st: UploadStatus)
    ensures
        classified_as(success, body@, hash@, st),
{
    let hash_owned = String::from_str(hash);
    if success {
        UploadStatus {
            status: String::from_str("uploaded"),
            message: Some(body),
            manifest_hash: Some(hash_owned),
        }
    } else if contains_str(body.as_str(), "A manifest file with identical content already exists") {
        UploadStatus {
            status: String::from_str("already_uploaded"),
            message: Some(String::from_str("Manifest with identical content already exists")),
            manifest_hash: Some(hash_owned),
        }
    } else {
        UploadStatus {
            status: String::from_str("failed"),
            message: Some(body),
            manifest_hash: Some(hash_owned),
        }
    }
}

/// Finish one record after its POST. A network-level failure surfaces as
/// an error and records nothing, so a future cycle retries. A response is
/// classified; after `uploaded` or `already_uploaded` the hash is recorded
/// in the dedup set (and must then be persisted by the caller), while
/// `failed` records nothing.
pub fn finish_upload(
    hash: String,
    outcome: Result<(bool, String), String>,
    dedup: &mut DedupSet,
) -> (r: Result<UploadStatus, String>)
    requires
        old(dedup).wf(),
    ensures
        final(dedup).wf(),
        outcome matches Err(e) ==> (r matches Err(m) && m@ == "Failed to send upload request: "@
            + e@ && final(dedup)@ == old(dedup)@),
        outcome matches Ok(p) ==> (r matches Ok(st) && {
            &&& classified_as(p.0, p.1@, hash@, st)
            &&& if p.0 || spec_contains(p.1@, dup_phrase()) {
                final(dedup)@ == if old(dedup)@.contains(hash@) {
                    old(dedup)@
                } else {
                    old(dedup)@.push(hash@)
                }
            } else {
                final(dedup)@ == old(dedup)@
            }
        }),
{
    let (success, body) = match outcome {
        Ok(p) => p,
        Err(e) => {
            return Err(prefixed("Failed to send upload request: ", e.as_str()));
        },
    };
    let acknowledged = success || contains_str(
        body.as_str(),
        "A manifest file with identical content already exists",
    );
    let st = classify_response(success, body, hash.as_str());
    if acknowledged {
        dedup.insert(hash);
    }
    Ok(st)
}

/// The batch entry for a record whose pipeline step ended in an error: a
/// `failed` status carrying the error text, with no hash recorded, exactly
/// as the batch driver reports read, decode and network failures.
pub fn failure_status(message: String) -> (st: UploadStatus)
    ensures
        st.status@ == "failed"@,
        st.message matches Some(m) && m == message,
        st.manifest_hash is None,
{
    UploadStatus {
        status: String::from_str("failed"),
        message: Some(message),
        manifest_hash: None,
    }
}

/// Law (idempotence): once one attempt for a content hash has ended
/// `uploaded` or `already_uploaded`, [`finish_upload`] has left the hash in
/// the dedup set; [`begin_upload`] therefore answers every later attempt
/// for that hash with `Skip`, and no second network call is ever prepared.
pub proof fn lemma_upload_idempotent(before: Seq<Seq<char>>, after: Seq<Seq<char>>, h: Seq<char>)
    requires
        after == if before.contains(h) {
            before
        } else {
            before.push(h)
        },
    ensures
        after.contains(h),
{
    if !before.contains(h) {
        assert(after[after.len() - 1] == h);
    }
}

} // verus!
