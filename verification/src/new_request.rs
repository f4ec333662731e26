//! Creating a request: the record to insert, the tab that shows it and where
//! the browser goes next.
use vstd::prelude::*;
use vstd::string::*;

use crate::models::{NewRequest, Request};
use crate::tabs::{Tab, place_tab, placed};
use crate::text::{concat2, decimal_i32, decimal_text, parse_i32, parsed_i32};

verus! {

/// The form that creates a request.
#[derive(Debug, Clone)]
pub struct JsonData {
    pub name: String,
    pub path: String,
    pub collection_id: String,
    pub method: String,
    pub body_type: String,
    pub body_content: String,
    pub tab_index: Option<usize>,
}

/// Why a form was refused.
#[derive(Debug, Clone, Copy, PartialEq, Eq, Structural)]
pub enum FormError {
    /// The collection id is not a number (`400 Invalid collection_id`).
    InvalidCollectionId,
}

/// The request to insert for `form`: refused exactly when its collection id is
/// not a number.
pub fn new_request_record(form: &JsonData) -> (res: Result<NewRequest, FormError>)
    ensures
        res is Err <==> parsed_i32(form.collection_id@) is None,
        res matches Err(e) ==> e == FormError::InvalidCollectionId,
        res matches Ok(r) ==> {
            &&& Some(r.collection_id) == parsed_i32(form.collection_id@)
            &&& r.name == form.name
            &&& r.path == form.path
            &&& r.method == form.method
            &&& r.body_type == Some(form.body_type)
            &&& r.body_content == Some(form.body_content)
        },
{
    match parse_i32(form.collection_id.as_str()) {
        Some(c) => Ok(
            NewRequest {
                collection_id: c,
                method: form.method.clone(),
                name: form.name.clone(),
                path: form.path.clone(),
                body_type: Some(form.body_type.clone()),
                body_content: Some(form.body_content.clone()),
            },
        ),
        None => Err(FormError::InvalidCollectionId),
    }
}

/// The tab that shows the stored request `req`.
pub fn tab_for_request(req: &Request) -> (res: Tab)
    ensures
        res.name == req.name,
        res.kind@ == "request"@,
        res.collection_id == req.collection_id,
        res.id == Some(req.id),
{
    Tab {
        name: req.name.clone(),
        kind: String::from_str("request"),
        collection_id: req.collection_id,
        id: Some(req.id),
    }
}

/// Where the browser goes after a request was created: `/requests/{id}`.
pub fn request_location(id: i32) -> (res: String)
    ensures
        res@ == "/requests/"@ + decimal_text(id as int),
{
    let n = decimal_i32(id);
    concat2("/requests/", n.as_str())
}

/// After the request `req` was stored for `form`: its tab is placed in `tabs`
/// at the form's tab index, and the location to go to is returned.
pub fn request_created(tabs: &mut Vec<Tab>, form: &JsonData, req: &Request) -> (res: String)
    ensures
        exists|t: Tab|
            #![trigger placed(old(tabs)@, t, form.tab_index)]
            final(tabs)@ == placed(old(tabs)@, t, form.tab_index) && t.name == req.name
                && t.kind@ == "request"@ && t.collection_id == req.collection_id && t.id == Some(
                req.id,
            ),
        res@ == "/requests/"@ + decimal_text(req.id as int),
{
    let tab = tab_for_request(req);
    let ghost t = tab;
    place_tab(tabs, tab, form.tab_index);
    assert(tabs@ == placed(old(tabs)@, t, form.tab_index));
    request_location(req.id)
}

} // verus!
