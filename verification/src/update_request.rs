//! Editing a stored request: the new field values and its new headers.
use vstd::prelude::*;

use crate::headers::{Header, request_header_rows, request_rows};
use crate::models::NewRequestHeader;
use crate::text::{parse_i32, parsed_i32};

verus! {

/// The form that edits a request; `headers` is a JSON list of key/value pairs.
#[derive(Debug, Clone)]
pub struct JsonData {
    pub name: String,
    pub path: String,
    pub collection_id: String,
    pub method: String,
    pub body_type: String,
    pub body_content: String,
    pub headers: Option<String>,
}

/// The new values of a request's fields.
#[derive(Debug, Clone)]
pub struct RequestUpdate {
    pub name: String,
    pub path: String,
    pub collection_id: i32,
    pub method: String,
    pub body_type: String,
    pub body_content: String,
    /// The rows that replace all header rows of the request, when the form
    /// gives a header list; `None` leaves its headers as they are.
    pub header_rows: Option<Vec<NewRequestHeader>>,
}

/// Editing request `request_id` with `form`, whose header list reads as
/// `headers` (`None` when the form has no list): the values that the form
/// sets, and the rows `(request_id, key, value)`, in order, that replace the
/// request's header rows when there is a list (an empty list clears them).
/// The form's collection id must be a number.
pub fn update_request(form: &JsonData, request_id: i32, headers: Option<Vec<Header>>) -> (res:
    RequestUpdate)
    requires
        parsed_i32(form.collection_id@) is Some,
    ensures
        headers is None <==> res.header_rows is None,
        headers matches Some(hs) ==> (res.header_rows matches Some(rows) && rows@ == request_rows(
            request_id,
            hs@,
        )),
        Some(res.collection_id) == parsed_i32(form.collection_id@),
        res.name == form.name,
        res.path == form.path,
        res.method == form.method,
        res.body_type == form.body_type,
        res.body_content == form.body_content,
{
    let collection_id = match parse_i32(form.collection_id.as_str()) {
        Some(c) => c,
        None => 0,
    };
    RequestUpdate {
        name: form.name.clone(),
        path: form.path.clone(),
        collection_id,
        method: form.method.clone(),
        body_type: form.body_type.clone(),
        body_content: form.body_content.clone(),
        header_rows: match headers {
            Some(hs) => Some(request_header_rows(request_id, hs)),
            None => None,
        },
    }
}

} // verus!
