//! Scanner: turns a directory listing of descriptor files into a complete
//! snapshot of installed packages.
//!
//! The surrounding binary resolves the platform-specific manifest directory
//! and reads the candidate files; the engine gets the listing as plain
//! values. A missing directory is the only whole-scan failure; a file that
//! cannot be read or decoded is skipped and counted, and never aborts the
//! scan.
use vstd::prelude::*;

use crate::descriptor::{descriptor_ok, parse_descriptor, record_from_manifest, record_of_manifest};
use crate::models::GameInfo;
use crate::strutil::{ends_with_str, spec_ends_with};

verus! {

/// The fixed manifest directory scanned on Windows.
pub fn windows_manifests_dir() -> (r: String)
    ensures
        r@ == "C:\\ProgramData\\Epic\\EpicGamesLauncher\\Data\\Manifests"@,
{
    String::from_str("C:\\ProgramData\\Epic\\EpicGamesLauncher\\Data\\Manifests")
}

/// The manifest directory scanned on macOS, under the given home directory.
pub fn mac_manifests_dir(home: &str) -> (r: String)
    ensures
        r@ == home@ + "/Library/Application Support/Epic/EpicGamesLauncher/Data/Manifests"@,
{
    let mut s = String::from_str(home);
    s.append("/Library/Application Support/Epic/EpicGamesLauncher/Data/Manifests");
    s
}

/// One directory entry handed to the scanner: the entry's file name and its
/// content, or nothing where the file could not be read.
pub struct DescriptorFile {
    pub name: String,
    pub content: Option<String>,
}

/// The whole scan failed: the manifest directory does not exist. Distinct
/// from a directory with no descriptors, which is an empty snapshot.
#[derive(Debug)]
pub struct DirectoryMissing {}

/// What one scan produced: the snapshot records, in input order, and how
/// many candidate files were skipped.
pub struct ScanOutcome {
    pub records: Vec<GameInfo>,
    pub skipped: usize,
}

/// A file the scanner attempts: named like a descriptor (a non-empty stem
/// followed by the fixed descriptor extension).
pub open spec fn is_descriptor_name(name: Seq<char>) -> bool {
    name.len() > ".item"@.len() && spec_ends_with(name, ".item"@)
}

/// A candidate file that contributes a record: it was read and decodes.
pub open spec fn file_yields_record(f: DescriptorFile) -> bool {
    &&& is_descriptor_name(f.name@)
    &&& match f.content {
        Some(c) => descriptor_ok(c@),
        None => false,
    }
}

/// A candidate file that is skipped: named like a descriptor but unreadable
/// or undecodable.
pub open spec fn file_is_skipped(f: DescriptorFile) -> bool {
    &&& is_descriptor_name(f.name@)
    &&& !file_yields_record(f)
}

/// The contents, in order, of the files a scan of this listing keeps.
pub open spec fn kept_contents(files: Seq<DescriptorFile>) -> Seq<Seq<char>>
    decreases files.len(),
{
    if files.len() == 0 {
        Seq::empty()
    } else {
        let rest = kept_contents(files.drop_last());
        if file_yields_record(files.last()) {
            rest.push(files.last().content->Some_0@)
        } else {
            rest
        }
    }
}

/// How many candidate files a scan of this listing skips.
pub open spec fn skip_count(files: Seq<DescriptorFile>) -> nat
    decreases files.len(),
{
    if files.len() == 0 {
        0
    } else {
        skip_count(files.drop_last()) + if file_is_skipped(files.last()) {
            1nat
        } else {
            0nat
        }
    }
}

/// The record was decoded from this descriptor text, with no metadata yet.
pub open spec fn record_matches_content(g: GameInfo, s: Seq<char>) -> bool {
    exists|m: crate::models::EpicGameManifest|
        #[trigger] record_of_manifest(g, m) && crate::descriptor::manifest_matches(m, s)
}

/// Scan a directory listing: keep every descriptor-named file whose content
/// decodes, in input order, and count the rest of the candidates as skips.
/// `None` stands for an absent manifest directory and fails the whole scan;
/// an empty listing is a successful, empty snapshot.
pub fn scan_listing(listing: Option<Vec<DescriptorFile>>) -> (r: Result<
    ScanOutcome,
    DirectoryMissing,
>)
    ensures
        r is Ok <==> listing is Some,
        r matches Ok(out) ==> {
            let files = listing->Some_0@;
            &&& out.records@.len() == kept_contents(files).len()
            &&& forall|j: int|
                0 <= j < out.records@.len() ==> record_matches_content(
                    #[trigger] out.records@[j],
                    kept_contents(files)[j],
                )
            &&& out.skipped == skip_count(files)
        },
{
    let files = match listing {
        Some(files) => files,
        None => {
            return Err(DirectoryMissing {});
        },
    };
    proof {
        reveal_strlit(".item");
    }
    let mut records: Vec<GameInfo> = Vec::new();
    let mut skipped: usize = 0;
    let n = files.len();
    for i in 0..n
        invariant
            n == files@.len(),
            records@.len() == kept_contents(files@.subrange(0, i as int)).len(),
            forall|j: int|
                0 <= j < records@.len() ==> record_matches_content(
                    #[trigger] records@[j],
                    kept_contents(files@.subrange(0, i as int))[j],
                ),
            skipped == skip_count(files@.subrange(0, i as int)),
            skipped <= i,
    {
        proof {
            reveal_strlit(".item");
            assert(files@.subrange(0, i + 1).drop_last() =~= files@.subrange(0, i as int));
            assert(files@.subrange(0, i + 1).last() == files@[i as int]);
        }
        let file = &files[i];
        // The extension ".item" is five characters; a descriptor name also
        // needs a non-empty stem before it.
        if ends_with_str(file.name.as_str(), ".item") && file.name.unicode_len() > 5 {
            match &file.content {
                Some(content) => {
                    match parse_descriptor(content.as_str()) {
                        Ok(manifest) => {
                            let ghost gm = manifest;
                            let record = record_from_manifest(manifest);
                            proof {
                                assert(file_yields_record(files@[i as int]));
                                assert(kept_contents(files@.subrange(0, i + 1)) =~= kept_contents(
                                    files@.subrange(0, i as int),
                                ).push(files@[i as int].content->Some_0@));
                                assert(record_of_manifest(record, gm));
                            }
                            records.push(record);
                        },
                        Err(_) => {
                            skipped = skipped + 1;
                        },
                    }
                },
                None => {
                    skipped = skipped + 1;
                },
            }
        }
    }
    proof {
        assert(files@.subrange(0, n as int) =~= files@);
    }
    Ok(ScanOutcome { records, skipped })
}

} // verus!
