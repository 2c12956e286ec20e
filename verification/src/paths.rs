//! Where documents and collections live in the repository.

use crate::text::{join2, join3};
use vstd::prelude::*;

verus! {

/// The directory of a collection: `collections/{collection}`.
pub open spec fn collection_dir(collection: Seq<char>) -> Seq<char> {
    "collections/"@ + collection
}

/// The file of a document: `collections/{collection}/{id}.json`.
pub open spec fn document_path(collection: Seq<char>, doc_id: Seq<char>) -> Seq<char> {
    collection_dir(collection) + "/"@ + doc_id + ".json"@
}

/// The placeholder that keeps the directory of a collection:
/// `collections/{collection}/.gitkeep`.
pub open spec fn gitkeep_path(collection: Seq<char>) -> Seq<char> {
    collection_dir(collection) + "/.gitkeep"@
}

/// The metadata of a collection: `collections/{collection}/collection.json`.
pub open spec fn collection_metadata_path(collection: Seq<char>) -> Seq<char> {
    collection_dir(collection) + "/collection.json"@
}

/// The directory of a collection.
pub fn collection_dir_of(collection: &str) -> (path: String)
    ensures
        path@ == collection_dir(collection@),
{
    join2("collections/", collection)
}

/// The file of a document.
pub fn document_path_of(collection: &str, doc_id: &str) -> (path: String)
    ensures
        path@ == document_path(collection@, doc_id@),
{
    let dir = collection_dir_of(collection);
    let mut path = join3(dir.as_str(), "/", doc_id);
    path.append(".json");
    path
}

/// The placeholder that keeps the directory of a collection.
pub fn gitkeep_path_of(collection: &str) -> (path: String)
    ensures
        path@ == gitkeep_path(collection@),
{
    let dir = collection_dir_of(collection);
    join2(dir.as_str(), "/.gitkeep")
}

/// The metadata of a collection.
pub fn collection_metadata_path_of(collection: &str) -> (path: String)
    ensures
        path@ == collection_metadata_path(collection@),
{
    let dir = collection_dir_of(collection);
    join2(dir.as_str(), "/collection.json")
}

} // verus!
