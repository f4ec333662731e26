//! Creating and editing collections.
use vstd::prelude::*;

use crate::headers::{Header, collection_header_rows, collection_rows};
use crate::models::NewCollection;

verus! {

/// The form that creates a collection; `headers` is a JSON list of key/value
/// pairs, the collection's default headers.
#[derive(Debug, Clone)]
pub struct JsonData {
    pub name: String,
    pub host: String,
    pub headers: Option<String>,
}

/// The form that edits a collection; `headers` as in [`JsonData`].
#[derive(Debug, Clone)]
pub struct UpdatedData {
    pub name: String,
    pub host: String,
    pub headers: Option<String>,
}

/// The query of the short collection form.
#[derive(Debug, Clone)]
pub struct QueryParams {
    pub refresh: Option<bool>,
}

/// A collection to create: its record, and the default headers to store for it
/// once the record has its id.
#[derive(Debug, Clone)]
pub struct CollectionCreation {
    pub record: NewCollection,
    pub headers: Vec<Header>,
}

/// The headers that a header list read from a form gives: the list, or none
/// when the form has no list.
pub open spec fn listed_headers(headers: Option<Vec<Header>>) -> Seq<Header> {
    match headers {
        Some(hs) => hs@,
        None => Seq::empty(),
    }
}

/// Creating a collection from `form`, whose header list reads as `headers`
/// (`None` when the form has no list): the record holds the form's name and
/// host, and every listed header, in order, is stored for the new collection.
pub fn new_collection(form: &JsonData, headers: Option<Vec<Header>>) -> (res: CollectionCreation)
    ensures
        res.record.name == form.name,
        res.record.host == form.host,
        res.headers@ == listed_headers(headers),
{
    let hs = match headers {
        Some(hs) => hs,
        None => Vec::new(),
    };
    CollectionCreation { record: NewCollection { name: form.name.clone(), host: form.host.clone() }, headers: hs }
}

impl CollectionCreation {
    /// The header rows of the created collection, once it was stored with id
    /// `collection_id`: one row `(collection_id, key, value)` per header, in order.
    pub fn header_rows(self, collection_id: i32) -> (res: Vec<crate::models::NewCollectionHeader>)
        ensures
            res@ == collection_rows(collection_id, self.headers@),
    {
        collection_header_rows(collection_id, self.headers)
    }
}

/// The answer to the short collection form.
#[derive(Debug, Clone)]
pub struct ShortCollection {
    /// The collection to insert.
    pub record: NewCollection,
    /// Whether the answer carries `Hx-Refresh: true`.
    pub hx_refresh: bool,
}

/// Whether the answer to the short collection form asks the page to refresh
/// (`Hx-Refresh: true`): exactly when the query says `refresh=true`.
pub fn refresh_after_create(query: &QueryParams) -> (res: bool)
    ensures
        res == (query.refresh == Some(true)),
{
    match query.refresh {
        Some(r) => r,
        None => false,
    }
}

/// The short collection form: the collection with the form's name and host,
/// answered with `Hx-Refresh: true` exactly when the query says `refresh=true`.
pub fn new_short_collection(form: &JsonData, query: &QueryParams) -> (res: ShortCollection)
    ensures
        res.record.name == form.name,
        res.record.host == form.host,
        res.hx_refresh == (query.refresh == Some(true)),
{
    ShortCollection {
        record: NewCollection { name: form.name.clone(), host: form.host.clone() },
        hx_refresh: refresh_after_create(query),
    }
}

/// The changes that editing collection `collection_id` with `form` makes.
#[derive(Debug, Clone)]
pub struct CollectionUpdate {
    pub name: String,
    pub host: String,
    /// The header rows that replace all of the collection's header rows.
    pub header_rows: Vec<crate::models::NewCollectionHeader>,
}

/// Editing collection `collection_id` with `form`, whose header list reads as
/// `headers`: the new name and host, and the rows that replace all of its
/// header rows (none when the form has no list, so its headers are cleared).
pub fn update_collection(collection_id: i32, form: &UpdatedData, headers: Option<Vec<Header>>) -> (res:
    CollectionUpdate)
    ensures
        res.name == form.name,
        res.host == form.host,
        res.header_rows@ == collection_rows(collection_id, listed_headers(headers)),
{
    let hs = match headers {
        Some(hs) => hs,
        None => Vec::new(),
    };
    CollectionUpdate {
        name: form.name.clone(),
        host: form.host.clone(),
        header_rows: collection_header_rows(collection_id, hs),
    }
}

} // verus!
