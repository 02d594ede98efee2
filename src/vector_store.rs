use vstd::prelude::*;

use crate::scanner::{extension_of, file_extension, FileRecord};

verus! {

/// Relies on `uuid::Uuid::new_v4` and the `Display` impl of `Uuid`: a random
/// version-4 identifier, written in the hyphenated lower-case form, 36
/// characters with dashes at 8, 13, 18 and 23 and the version digit at 14.
/// `new_v4` panics only when the system's random source fails.
#[verifier::external_body]
fn fresh_point_id() -> (r: String)
    ensures
        r@.len() == 36,
        r@[8] == '-' && r@[13] == '-' && r@[18] == '-' && r@[23] == '-',
        r@[14] == '4',
{
    uuid::Uuid::new_v4().to_string()
}

/// The metadata stored beside the vector of a file.
pub struct PointMetadata {
    pub file_path: String,
    /// Full text of the file, from which snippets are cut at search time.
    pub content: String,
    pub file_name: String,
    /// Extension of the file name; empty when it has none.
    pub file_extension: String,
}

/// A point about to be written: a fresh identifier and the file's metadata.
pub struct NewPoint {
    pub id: String,
    pub metadata: PointMetadata,
}

/// The metadata recorded for a file.
pub fn point_metadata(rec: &FileRecord) -> (r: PointMetadata)
    ensures
        r.file_path@ == rec.path@,
        r.content@ == rec.content@,
        r.file_name@ == rec.file_name@,
        r.file_extension@ == extension_of(rec.file_name@),
{
    PointMetadata {
        file_path: rec.path.clone(),
        content: rec.content.clone(),
        file_name: rec.file_name.clone(),
        file_extension: file_extension(rec.file_name.as_str()),
    }
}

/// A new point for a file, under a freshly generated identifier: writing a
/// file again adds a second point rather than replacing the first.
pub fn new_point(rec: &FileRecord) -> (r: NewPoint)
    ensures
        r.id@.len() == 36,
        r.metadata.file_path@ == rec.path@,
        r.metadata.content@ == rec.content@,
        r.metadata.file_name@ == rec.file_name@,
        r.metadata.file_extension@ == extension_of(rec.file_name@),
{
    NewPoint { id: fresh_point_id(), metadata: point_metadata(rec) }
}

/// A point found by a similarity search, as read back from the store.
pub struct SearchResult {
    pub file_path: String,
    /// Full text of the file.
    pub content: String,
    /// Bit pattern of the similarity score, an IEEE 754 single-precision number
    /// in the store's native scale.
    pub score_bits: u32,
}

impl SearchResult {
    /// A result from the payload fields a hit carried: a missing path reads
    /// `"unknown"`, a missing content reads empty.
    pub fn from_payload(file_path: Option<String>, content: Option<String>, score_bits: u32) -> (r:
        SearchResult)
        ensures
            r.file_path@ == match file_path {
                Some(p) => p@,
                None => "unknown"@,
            },
            r.content@ == match content {
                Some(c) => c@,
                None => Seq::<char>::empty(),
            },
            r.score_bits == score_bits,
    {
        let file_path = match file_path {
            Some(p) => p,
            None => "unknown".to_owned(),
        };
        let content = match content {
            Some(c) => c,
            None => String::new(),
        };
        SearchResult { file_path, content, score_bits }
    }
}

} // verus!
