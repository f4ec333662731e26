//! The records that the application keeps in its database, with their
//! timestamps held as text.
use vstd::prelude::*;

verus! {

/// A collection of requests that share a host and default headers.
#[derive(Debug, Clone)]
pub struct Collection {
    pub id: i32,
    pub name: String,
    pub host: String,
    pub created_at: String,
    pub updated_at: Option<String>,
}

/// The fields of a collection to insert.
#[derive(Debug, Clone)]
pub struct NewCollection {
    pub name: String,
    pub host: String,
}

/// A default header of a collection.
#[derive(Debug, Clone)]
pub struct CollectionHeader {
    pub id: i32,
    pub collection_id: i32,
    pub key: String,
    pub value: String,
    pub created_at: String,
    pub updated_at: Option<String>,
}

/// A collection header to insert.
#[derive(Debug, Clone)]
pub struct NewCollectionHeader {
    pub collection_id: i32,
    pub key: String,
    pub value: String,
}

/// A load test that was run.
#[derive(Debug, Clone)]
pub struct LoadTest {
    pub id: i32,
    pub source_type: Option<String>,
    pub source_id: Option<i32>,
    pub name: String,
    pub log_path: Option<String>,
    pub report_path: Option<String>,
    pub created_at: String,
    pub updated_at: Option<String>,
}

/// A load test to insert.
#[derive(Debug, Clone)]
pub struct NewLoadTest {
    pub source_type: String,
    pub source_id: i32,
    pub name: String,
    pub log_path: String,
    pub report_path: String,
}

/// A stored HTTP request of a collection.
#[derive(Debug, Clone)]
pub struct Request {
    pub id: i32,
    pub collection_id: i32,
    pub name: String,
    pub path: String,
    pub method: String,
    pub body_type: Option<String>,
    pub body_content: Option<String>,
    pub created_at: String,
    pub updated_at: Option<String>,
}

/// A request to insert.
#[derive(Debug, Clone)]
pub struct NewRequest {
    pub collection_id: i32,
    pub method: String,
    pub name: String,
    pub path: String,
    pub body_type: Option<String>,
    pub body_content: Option<String>,
}

/// A header of a stored request.
#[derive(Debug, Clone)]
pub struct RequestHeader {
    pub id: i32,
    pub request_id: i32,
    pub key: String,
    pub value: String,
    pub created_at: String,
    pub updated_at: Option<String>,
}

/// A request header to insert.
#[derive(Debug, Clone)]
pub struct NewRequestHeader {
    pub request_id: i32,
    pub key: String,
    pub value: String,
}

/// A user who may sign in.
#[derive(Debug, Clone)]
pub struct User {
    pub id: i32,
    pub name: String,
    pub email: String,
    pub role: String,
}

} // verus!
