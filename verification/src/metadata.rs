//! Decoder for the remote metadata endpoint's response body.
//!
//! A well-formed body yields a [`GameMetadata`]; anything else — including
//! a missing required field or a malformed image entry — yields nothing,
//! and the caller degrades to "no metadata", which is never fatal to a
//! scan.
use vstd::prelude::*;

use crate::json::{
    list_len_of, list_str_field_of, read_list_len, read_list_str_field, read_str_field,
    str_field_of,
};
use crate::models::{GameMetadata, KeyImage};

verus! {

/// Where one catalog item's metadata is fetched from: the fixed metadata
/// service, keyed by the catalog item id.
pub fn metadata_endpoint(catalog_item_id: &str) -> (r: String)
    ensures
        r@ == "https://api.egdata.app/items/"@ + catalog_item_id@,
{
    let mut s = String::from_str("https://api.egdata.app/items/");
    s.append(catalog_item_id);
    s
}

/// The body holds every field a metadata document must carry: id, title
/// and description strings, and an image list whose every element has a
/// type, a URL and a checksum.
pub open spec fn metadata_ok(s: Seq<char>) -> bool {
    &&& str_field_of(s, "id"@) is Some
    &&& str_field_of(s, "title"@) is Some
    &&& str_field_of(s, "description"@) is Some
    &&& match list_len_of(s, "keyImages"@) {
        Some(n) => forall|k: usize|
            k < n ==> {
                &&& #[trigger] list_str_field_of(s, "keyImages"@, k, "type"@) is Some
                &&& list_str_field_of(s, "keyImages"@, k, "url"@) is Some
                &&& list_str_field_of(s, "keyImages"@, k, "md5"@) is Some
            },
        None => false,
    }
}

/// The metadata value carries exactly the fields of the body.
pub open spec fn metadata_matches(m: GameMetadata, s: Seq<char>) -> bool {
    &&& str_field_of(s, "id"@) == Some(m.id@)
    &&& str_field_of(s, "title"@) == Some(m.title@)
    &&& str_field_of(s, "description"@) == Some(m.description@)
    &&& list_len_of(s, "keyImages"@) == Some(m.key_images@.len() as usize)
    &&& forall|k: usize|
        k < m.key_images@.len() ==> {
            &&& #[trigger] list_str_field_of(s, "keyImages"@, k, "type"@) == Some(
                m.key_images@[k as int].image_type@,
            )
            &&& list_str_field_of(s, "keyImages"@, k, "url"@) == Some(
                m.key_images@[k as int].url@,
            )
            &&& list_str_field_of(s, "keyImages"@, k, "md5"@) == Some(
                m.key_images@[k as int].md5@,
            )
        }
    &&& match str_field_of(s, "developer"@) {
        Some(d) => m.developer matches Some(x) && x@ == d,
        None => m.developer is None,
    }
    &&& match str_field_of(s, "developerId"@) {
        Some(d) => m.developer_id matches Some(x) && x@ == d,
        None => m.developer_id is None,
    }
}

/// Decode one metadata body. Succeeds exactly when the body is
/// well-formed, and then returns its fields; the developer name and id are
/// optional and absent fields stay absent.
pub fn parse_metadata(text: &str) -> (r: Option<GameMetadata>)
    ensures
        r is Some <==> metadata_ok(text@),
        r matches Some(m) ==> metadata_matches(m, text@),
{
    let id = match read_str_field(text, "id") {
        Some(v) => v,
        None => {
            return None;
        },
    };
    let title = match read_str_field(text, "title") {
        Some(v) => v,
        None => {
            return None;
        },
    };
    let description = match read_str_field(text, "description") {
        Some(v) => v,
        None => {
            return None;
        },
    };
    let image_count = match read_list_len(text, "keyImages") {
        Some(n) => n,
        None => {
            return None;
        },
    };
    let mut key_images: Vec<KeyImage> = Vec::new();
    let mut k: usize = 0;
    while k < image_count
        invariant
            k <= image_count,
            list_len_of(text@, "keyImages"@) == Some(image_count),
            key_images@.len() == k,
            forall|j: usize|
                j < k ==> {
                    &&& #[trigger] list_str_field_of(text@, "keyImages"@, j, "type"@) == Some(
                        key_images@[j as int].image_type@,
                    )
                    &&& list_str_field_of(text@, "keyImages"@, j, "url"@) == Some(
                        key_images@[j as int].url@,
                    )
                    &&& list_str_field_of(text@, "keyImages"@, j, "md5"@) == Some(
                        key_images@[j as int].md5@,
                    )
                },
        decreases image_count - k,
    {
        let image_type = match read_list_str_field(text, "keyImages", k, "type") {
            Some(v) => v,
            None => {
                return None;
            },
        };
        let url = match read_list_str_field(text, "keyImages", k, "url") {
            Some(v) => v,
            None => {
                return None;
            },
        };
        let md5 = match read_list_str_field(text, "keyImages", k, "md5") {
            Some(v) => v,
            None => {
                return None;
            },
        };
        key_images.push(KeyImage { image_type, url, md5 });
        k = k + 1;
    }
    let developer = read_str_field(text, "developer");
    let developer_id = read_str_field(text, "developerId");
    Some(GameMetadata { id, title, description, key_images, developer, developer_id })
}

} // verus!
