//! Data model of the engine: the package records produced by the scanner,
//! the remote metadata attached to them, the shared settings and the upload
//! status reported for each record.
use vstd::prelude::*;

verus! {

/// A structured log message surfaced to the collaborator layer.
pub struct LogEvent {
    pub level: String,
    pub message: String,
    pub timestamp: String,
}

impl LogEvent {
    /// Pair a severity and a message with the timestamp the caller read.
    pub fn new(level: String, message: String, timestamp: String) -> (e: LogEvent)
        ensures
            e.level == level,
            e.message == message,
            e.timestamp == timestamp,
    {
        LogEvent { level, message, timestamp }
    }
}

/// The fields of one vendor manifest descriptor file, as decoded from its
/// structured text.
pub struct EpicGameManifest {
    pub format_version: i32,
    pub is_incomplete_install: bool,
    pub launch_command: String,
    pub launch_executable: String,
    pub manifest_location: String,
    pub manifest_hash: String,
    pub is_application: bool,
    pub is_executable: bool,
    pub display_name: String,
    pub installation_guid: String,
    pub install_location: String,
    pub install_size: u64,
    pub catalog_namespace: String,
    pub catalog_item_id: String,
    pub app_name: String,
    pub app_version_string: String,
}

/// One image descriptor of a package's remote metadata.
pub struct KeyImage {
    pub image_type: String,
    pub url: String,
    pub md5: String,
}

impl Clone for KeyImage {
    fn clone(&self) -> (r: Self)
        ensures
            r == *self,
    {
        KeyImage {
            image_type: self.image_type.clone(),
            url: self.url.clone(),
            md5: self.md5.clone(),
        }
    }
}

/// Remote metadata for one catalog item; immutable once fetched.
pub struct GameMetadata {
    pub id: String,
    pub title: String,
    pub description: String,
    pub key_images: Vec<KeyImage>,
    pub developer: Option<String>,
    pub developer_id: Option<String>,
}

fn clone_opt_string(o: &Option<String>) -> (r: Option<String>)
    ensures
        r == *o,
{
    match o {
        Some(s) => Some(s.clone()),
        None => None,
    }
}

fn clone_images(v: &Vec<KeyImage>) -> (r: Vec<KeyImage>)
    ensures
        r@ == v@,
{
    let mut out: Vec<KeyImage> = Vec::new();
    for i in 0..v.len()
        invariant
            out@ =~= v@.subrange(0, i as int),
    {
        out.push(v[i].clone());
        proof {
            assert(out@ =~= v@.subrange(0, i + 1));
        }
    }
    proof {
        assert(out@ =~= v@);
    }
    out
}

/// Two metadata values agree on every field.
pub open spec fn meta_eqv(a: GameMetadata, b: GameMetadata) -> bool {
    &&& a.id == b.id
    &&& a.title == b.title
    &&& a.description == b.description
    &&& a.key_images@ == b.key_images@
    &&& a.developer == b.developer
    &&& a.developer_id == b.developer_id
}

/// Two optional metadata values agree: both absent, or present and equal.
pub open spec fn opt_meta_eqv(a: Option<GameMetadata>, b: Option<GameMetadata>) -> bool {
    match (a, b) {
        (Some(x), Some(y)) => meta_eqv(x, y),
        (None, None) => true,
        _ => false,
    }
}

impl Clone for GameMetadata {
    fn clone(&self) -> (r: Self)
        ensures
            meta_eqv(r, *self),
    {
        GameMetadata {
            id: self.id.clone(),
            title: self.title.clone(),
            description: self.description.clone(),
            key_images: clone_images(&self.key_images),
            developer: clone_opt_string(&self.developer),
            developer_id: clone_opt_string(&self.developer_id),
        }
    }
}

/// One installed package as the registry holds it. Created whole by the
/// scanner, keyed by `app_name`, never mutated in place.
pub struct GameInfo {
    pub display_name: String,
    pub app_name: String,
    pub install_location: String,
    pub install_size: u64,
    pub version: String,
    pub catalog_namespace: String,
    pub catalog_item_id: String,
    pub metadata: Option<GameMetadata>,
    pub installation_guid: String,
    pub manifest_hash: String,
}

/// Two package records agree on every field.
pub open spec fn record_eqv(a: GameInfo, b: GameInfo) -> bool {
    &&& a.display_name == b.display_name
    &&& a.app_name == b.app_name
    &&& a.install_location == b.install_location
    &&& a.install_size == b.install_size
    &&& a.version == b.version
    &&& a.catalog_namespace == b.catalog_namespace
    &&& a.catalog_item_id == b.catalog_item_id
    &&& opt_meta_eqv(a.metadata, b.metadata)
    &&& a.installation_guid == b.installation_guid
    &&& a.manifest_hash == b.manifest_hash
}

impl Clone for GameInfo {
    fn clone(&self) -> (r: Self)
        ensures
            record_eqv(r, *self),
    {
        GameInfo {
            display_name: self.display_name.clone(),
            app_name: self.app_name.clone(),
            install_location: self.install_location.clone(),
            install_size: self.install_size,
            version: self.version.clone(),
            catalog_namespace: self.catalog_namespace.clone(),
            catalog_item_id: self.catalog_item_id.clone(),
            metadata: match &self.metadata {
                Some(m) => Some(m.clone()),
                None => None,
            },
            installation_guid: self.installation_guid.clone(),
            manifest_hash: self.manifest_hash.clone(),
        }
    }
}

impl GameInfo {
    /// The same record with the given metadata attached.
    pub fn with_metadata(self, metadata: Option<GameMetadata>) -> (r: GameInfo)
        ensures
            r.metadata == metadata,
            r.display_name == self.display_name,
            r.app_name == self.app_name,
            r.install_location == self.install_location,
            r.install_size == self.install_size,
            r.version == self.version,
            r.catalog_namespace == self.catalog_namespace,
            r.catalog_item_id == self.catalog_item_id,
            r.installation_guid == self.installation_guid,
            r.manifest_hash == self.manifest_hash,
    {
        GameInfo { metadata, ..self }
    }
}

/// A package record paired with the metadata that was fetched for it.
pub struct EnrichedGameInfo {
    pub game_info: GameInfo,
    pub metadata: Option<GameMetadata>,
}

/// Shared configuration read by both scheduler loops on every tick.
pub struct Settings {
    pub concurrency: u32,
    pub upload_speed_limit: u32,
    pub allowed_environments: Vec<String>,
    pub upload_interval: u64,
    pub scan_interval_minutes: u64,
}

fn clone_strings(v: &Vec<String>) -> (r: Vec<String>)
    ensures
        r@ == v@,
{
    let mut out: Vec<String> = Vec::new();
    for i in 0..v.len()
        invariant
            out@ =~= v@.subrange(0, i as int),
    {
        out.push(v[i].clone());
        proof {
            assert(out@ =~= v@.subrange(0, i + 1));
        }
    }
    proof {
        assert(out@ =~= v@);
    }
    out
}

impl Clone for Settings {
    fn clone(&self) -> (r: Self)
        ensures
            r.concurrency == self.concurrency,
            r.upload_speed_limit == self.upload_speed_limit,
            r.allowed_environments@ == self.allowed_environments@,
            r.upload_interval == self.upload_interval,
            r.scan_interval_minutes == self.scan_interval_minutes,
    {
        Settings {
            concurrency: self.concurrency,
            upload_speed_limit: self.upload_speed_limit,
            allowed_environments: clone_strings(&self.allowed_environments),
            upload_interval: self.upload_interval,
            scan_interval_minutes: self.scan_interval_minutes,
        }
    }
}

impl Settings {
    /// The hard-coded defaults used when no stored settings can be read:
    /// three workers, unlimited upload speed, the two production
    /// environments, uploads every hour and scans every minute.
    pub fn defaults() -> (s: Settings)
        ensures
            s.concurrency == 3,
            s.upload_speed_limit == 0,
            s.allowed_environments@.len() == 2,
            s.allowed_environments@[0]@ == "Live"@,
            s.allowed_environments@[1]@ == "Production"@,
            s.upload_interval == 60,
            s.scan_interval_minutes == 1,
    {
        let mut envs: Vec<String> = Vec::new();
        envs.push(String::from_str("Live"));
        envs.push(String::from_str("Production"));
        Settings {
            concurrency: 3,
            upload_speed_limit: 0,
            allowed_environments: envs,
            upload_interval: 60,
            scan_interval_minutes: 1,
        }
    }
}

/// The classified outcome of one record's upload attempt.
pub struct UploadStatus {
    pub status: String,
    pub message: Option<String>,
    pub manifest_hash: Option<String>,
}

impl Clone for UploadStatus {
    fn clone(&self) -> (r: Self)
        ensures
            r == *self,
    {
        UploadStatus {
            status: self.status.clone(),
            message: clone_opt_string(&self.message),
            manifest_hash: clone_opt_string(&self.manifest_hash),
        }
    }
}

} // verus!
