//! The decisions of the HTTP surface: which status and body each
//! outcome of a query earns, and the extraction of the matched rows
//! from the backend's response envelope.
//!
//! The surrounding binary does the transport: it receives the inbound
//! request, forwards the query document unchanged to the backend, and
//! hands the backend's answer — or the failure's report — to
//! `handle_query`, whose result it serializes back to the caller.

use vstd::prelude::*;
use crate::json::{JsonValue, obj_get, get};
use crate::rows::{Row, rows_ok, rows_match, decode_rows};

verus! {

/// What a failed request reports: either a bare status, or a failure
/// carried as text and answered with status 500.
#[derive(Debug)]
pub enum AppError {
    AuthError(u16),
    Error(String),
}

/// The body that answers a backend whose response could not be decoded.
pub open spec fn decode_error_text() -> Seq<char> {
    "could not decode the backend response"@
}

impl AppError {
    /// The HTTP status this error answers with.
    pub open spec fn status_spec(self) -> u16 {
        match self {
            AppError::AuthError(status) => status,
            AppError::Error(_) => 500,
        }
    }

    /// The body this error answers with.
    pub open spec fn body_spec(self) -> Seq<char> {
        match self {
            AppError::AuthError(_) => Seq::empty(),
            AppError::Error(m) => m@,
        }
    }

    /// The HTTP response for this error: its status and its body.
    pub fn into_response(self) -> (r: (u16, String))
        ensures
            r.0 == self.status_spec(),
            r.1@ == self.body_spec(),
    {
        match self {
            AppError::AuthError(status) => (status, String::new()),
            AppError::Error(m) => (500, m),
        }
    }
}

/// The status the health-check route answers with: always 200, whatever
/// the backend's state.
pub fn health_check() -> (status: u16)
    ensures
        status == 200,
{
    200
}

/// The array of hits inside the backend's response envelope: the value
/// under `hits.hits`, if the envelope has it.
pub open spec fn envelope_hits(resp: JsonValue) -> Option<JsonValue> {
    match obj_get(resp, "hits"@) {
        Some(h) => obj_get(h, "hits"@),
        None => None,
    }
}

/// Takes the matched rows out of the backend's response envelope.
pub fn extract_hits<'a>(resp: &'a JsonValue) -> (r: Option<&'a JsonValue>)
    ensures
        match r {
            Some(h) => envelope_hits(*resp) == Some(*h),
            None => envelope_hits(*resp) is None,
        },
{
    match get(resp, "hits") {
        Some(h) => get(h, "hits"),
        None => None,
    }
}

/// The backend's answer is an envelope whose `hits.hits` is an array of
/// well-shaped hit objects.
pub open spec fn query_shape_ok(resp: JsonValue) -> bool {
    envelope_hits(resp) matches Some(h) && h is Arr && rows_ok(h->Arr_0@)
}

/// Decides the query endpoint's answer from the backend's outcome: the
/// decoded rows where the backend answered and its answer has the
/// expected shape, an error answered with status 500 otherwise.
pub fn handle_query(backend: Result<JsonValue, String>) -> (r: Result<Vec<Row>, AppError>)
    ensures
        r is Ok <==> (backend matches Ok(resp) && query_shape_ok(resp)),
        r matches Ok(rows) ==> (backend matches Ok(resp)
            && envelope_hits(resp) matches Some(h) && h is Arr
            && rows_match(h->Arr_0@, rows@)),
        backend matches Err(m) ==> r == Result::<Vec<Row>, AppError>::Err(AppError::Error(m)),
        (backend matches Ok(resp) && !query_shape_ok(resp)) ==> (r matches Err(e)
            && e is Error && e->Error_0@ == decode_error_text()),
{
    let resp = match backend {
        Ok(resp) => resp,
        Err(m) => {
            return Err(AppError::Error(m));
        },
    };
    let hits = match extract_hits(&resp) {
        Some(h) => h,
        None => {
            return Err(AppError::Error(String::from_str("could not decode the backend response")));
        },
    };
    let items = match hits {
        JsonValue::Arr(items) => items,
        _ => {
            return Err(AppError::Error(String::from_str("could not decode the backend response")));
        },
    };
    match decode_rows(items) {
        Some(rows) => Ok(rows),
        None => Err(AppError::Error(String::from_str("could not decode the backend response"))),
    }
}

/// Law: a failed query — the backend unreachable with a non-empty
/// report, or its answer malformed — is answered with status 500 and a
/// non-empty body. (A backend failure whose report is the empty string
/// is left out: its body would be that empty report.)
pub proof fn lemma_failure_is_500_with_body(e: AppError)
    requires
        e is Error,
        e->Error_0@.len() > 0 || e->Error_0@ == decode_error_text(),
    ensures
        e.status_spec() == 500,
        e.body_spec().len() > 0,
{
    reveal_strlit("could not decode the backend response");
}

/// Law: a backend answer with zero matches decodes to the empty row
/// sequence — success is owed, and only the empty array can come out.
pub proof fn lemma_zero_matches(rows: Seq<Row>)
    ensures
        rows_ok(Seq::<JsonValue>::empty()),
        rows_match(Seq::<JsonValue>::empty(), rows) ==> rows.len() == 0,
{
}

} // verus!
