//! Manifest Reader: decodes one vendor descriptor document into an
//! [`EpicGameManifest`] and maps it onto a package record.
//!
//! The field names are fixed, case-sensitive and vendor-defined. A document
//! is accepted exactly when it parses as JSON and every required field is
//! present with the required type; otherwise the caller gets a parse error
//! and skips the file.
use vstd::prelude::*;

use crate::json::{
    bool_field_of, i64_field_of, read_bool_field, read_i64_field, read_str_field, read_u64_field,
    str_field_of, u64_field_of,
};
use crate::models::{EpicGameManifest, GameInfo};

verus! {

/// A descriptor file that could not be decoded: not valid JSON, or missing
/// a required field.
#[derive(Debug)]
pub struct ParseError {}

/// The text holds every field a descriptor must carry, with the right type;
/// the format version must also fit a 32-bit integer.
pub open spec fn descriptor_ok(s: Seq<char>) -> bool {
    &&& match i64_field_of(s, "FormatVersion"@) {
        Some(v) => i32::MIN <= v <= i32::MAX,
        None => false,
    }
    &&& bool_field_of(s, "bIsIncompleteInstall"@) is Some
    &&& str_field_of(s, "LaunchCommand"@) is Some
    &&& str_field_of(s, "LaunchExecutable"@) is Some
    &&& str_field_of(s, "ManifestLocation"@) is Some
    &&& str_field_of(s, "ManifestHash"@) is Some
    &&& bool_field_of(s, "bIsApplication"@) is Some
    &&& bool_field_of(s, "bIsExecutable"@) is Some
    &&& str_field_of(s, "DisplayName"@) is Some
    &&& str_field_of(s, "InstallationGuid"@) is Some
    &&& str_field_of(s, "InstallLocation"@) is Some
    &&& u64_field_of(s, "InstallSize"@) is Some
    &&& str_field_of(s, "CatalogNamespace"@) is Some
    &&& str_field_of(s, "CatalogItemId"@) is Some
    &&& str_field_of(s, "AppName"@) is Some
    &&& str_field_of(s, "AppVersionString"@) is Some
}

/// The manifest value carries exactly the fields of the text.
pub open spec fn manifest_matches(m: EpicGameManifest, s: Seq<char>) -> bool {
    &&& i64_field_of(s, "FormatVersion"@) == Some(m.format_version as i64)
    &&& bool_field_of(s, "bIsIncompleteInstall"@) == Some(m.is_incomplete_install)
    &&& str_field_of(s, "LaunchCommand"@) == Some(m.launch_command@)
    &&& str_field_of(s, "LaunchExecutable"@) == Some(m.launch_executable@)
    &&& str_field_of(s, "ManifestLocation"@) == Some(m.manifest_location@)
    &&& str_field_of(s, "ManifestHash"@) == Some(m.manifest_hash@)
    &&& bool_field_of(s, "bIsApplication"@) == Some(m.is_application)
    &&& bool_field_of(s, "bIsExecutable"@) == Some(m.is_executable)
    &&& str_field_of(s, "DisplayName"@) == Some(m.display_name@)
    &&& str_field_of(s, "InstallationGuid"@) == Some(m.installation_guid@)
    &&& str_field_of(s, "InstallLocation"@) == Some(m.install_location@)
    &&& u64_field_of(s, "InstallSize"@) == Some(m.install_size)
    &&& str_field_of(s, "CatalogNamespace"@) == Some(m.catalog_namespace@)
    &&& str_field_of(s, "CatalogItemId"@) == Some(m.catalog_item_id@)
    &&& str_field_of(s, "AppName"@) == Some(m.app_name@)
    &&& str_field_of(s, "AppVersionString"@) == Some(m.app_version_string@)
}

/// Decode one descriptor document. Succeeds exactly when the text parses
/// and every required field is present, and then returns its fields.
pub fn parse_descriptor(text: &str) -> (r: Result<EpicGameManifest, ParseError>)
    ensures
        r is Ok <==> descriptor_ok(text@),
        r matches Ok(m) ==> manifest_matches(m, text@),
{
    let format_version_wide = match read_i64_field(text, "FormatVersion") {
        Some(v) => v,
        None => {
            return Err(ParseError {});
        },
    };
    if format_version_wide < i32::MIN as i64 || format_version_wide > i32::MAX as i64 {
        return Err(ParseError {});
    }
    let format_version: i32 = format_version_wide as i32;
    let is_incomplete_install = match read_bool_field(text, "bIsIncompleteInstall") {
        Some(v) => v,
        None => {
            return Err(ParseError {});
        },
    };
    let launch_command = match read_str_field(text, "LaunchCommand") {
        Some(v) => v,
        None => {
            return Err(ParseError {});
        },
    };
    let launch_executable = match read_str_field(text, "LaunchExecutable") {
        Some(v) => v,
        None => {
            return Err(ParseError {});
        },
    };
    let manifest_location = match read_str_field(text, "ManifestLocation") {
        Some(v) => v,
        None => {
            return Err(ParseError {});
        },
    };
    let manifest_hash = match read_str_field(text, "ManifestHash") {
        Some(v) => v,
        None => {
            return Err(ParseError {});
        },
    };
    let is_application = match read_bool_field(text, "bIsApplication") {
        Some(v) => v,
        None => {
            return Err(ParseError {});
        },
    };
    let is_executable = match read_bool_field(text, "bIsExecutable") {
        Some(v) => v,
        None => {
            return Err(ParseError {});
        },
    };
    let display_name = match read_str_field(text, "DisplayName") {
        Some(v) => v,
        None => {
            return Err(ParseError {});
        },
    };
    let installation_guid = match read_str_field(text, "InstallationGuid") {
        Some(v) => v,
        None => {
            return Err(ParseError {});
        },
    };
    let install_location = match read_str_field(text, "InstallLocation") {
        Some(v) => v,
        None => {
            return Err(ParseError {});
        },
    };
    let install_size = match read_u64_field(text, "InstallSize") {
        Some(v) => v,
        None => {
            return Err(ParseError {});
        },
    };
    let catalog_namespace = match read_str_field(text, "CatalogNamespace") {
        Some(v) => v,
        None => {
            return Err(ParseError {});
        },
    };
    let catalog_item_id = match read_str_field(text, "CatalogItemId") {
        Some(v) => v,
        None => {
            return Err(ParseError {});
        },
    };
    let app_name = match read_str_field(text, "AppName") {
        Some(v) => v,
        None => {
            return Err(ParseError {});
        },
    };
    let app_version_string = match read_str_field(text, "AppVersionString") {
        Some(v) => v,
        None => {
            return Err(ParseError {});
        },
    };
    Ok(
        EpicGameManifest {
            format_version,
            is_incomplete_install,
            launch_command,
            launch_executable,
            manifest_location,
            manifest_hash,
            is_application,
            is_executable,
            display_name,
            installation_guid,
            install_location,
            install_size,
            catalog_namespace,
            catalog_item_id,
            app_name,
            app_version_string,
        },
    )
}

/// The record the scanner builds from a decoded manifest, before any
/// metadata is attached.
pub open spec fn record_of_manifest(g: GameInfo, m: EpicGameManifest) -> bool {
    &&& g.display_name == m.display_name
    &&& g.app_name == m.app_name
    &&& g.install_location == m.install_location
    &&& g.install_size == m.install_size
    &&& g.version == m.app_version_string
    &&& g.catalog_namespace == m.catalog_namespace
    &&& g.catalog_item_id == m.catalog_item_id
    &&& g.metadata is None
    &&& g.installation_guid == m.installation_guid
    &&& g.manifest_hash == m.manifest_hash
}

/// Map a decoded manifest onto a package record, without metadata.
pub fn record_from_manifest(m: EpicGameManifest) -> (g: GameInfo)
    ensures
        record_of_manifest(g, m),
{
    GameInfo {
        display_name: m.display_name,
        app_name: m.app_name,
        install_location: m.install_location,
        install_size: m.install_size,
        version: m.app_version_string,
        catalog_namespace: m.catalog_namespace,
        catalog_item_id: m.catalog_item_id,
        metadata: None,
        installation_guid: m.installation_guid,
        manifest_hash: m.manifest_hash,
    }
}

} // verus!
