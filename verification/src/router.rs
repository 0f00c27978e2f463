//! The request router: the mapping from an HTTP verb and path to a handler,
//! and the handlers themselves — each one store operation composed with one
//! rendering, per request, with no state across requests.

use vstd::prelude::*;
use crate::record::{from_form_submission, spec_lookup, ValidationError};
use crate::render::{
    render_empty_form, render_index_body, render_list, render_page, spec_empty_form,
    spec_index_body, spec_page, spec_render_list,
};
use crate::store::{spec_listing, Row, Store, StoreError};
use crate::strings::str_eq;

verus! {

/// The three requests this application serves.
#[derive(Clone, Copy, Debug, PartialEq, Eq)]
pub enum Route {
    /// `GET /`: the full index page.
    Index,
    /// `GET /data`: the listing fragment.
    ListData,
    /// `POST /data`: one record creation.
    CreateData,
}

/// The route serving a method and path, if any.
pub open spec fn spec_route(method: Seq<char>, path: Seq<char>) -> Option<Route> {
    if method == "GET"@ && path == "/"@ {
        Some(Route::Index)
    } else if method == "GET"@ && path == "/data"@ {
        Some(Route::ListData)
    } else if method == "POST"@ && path == "/data"@ {
        Some(Route::CreateData)
    } else {
        None
    }
}

/// Maps an HTTP method and path to the handler that serves it; every other
/// pair is unrouted.
pub fn route(method: &str, path: &str) -> (r: Option<Route>)
    ensures
        r == spec_route(method@, path@),
{
    if str_eq(method, "GET") {
        if str_eq(path, "/") {
            Some(Route::Index)
        } else if str_eq(path, "/data") {
            Some(Route::ListData)
        } else {
            None
        }
    } else if str_eq(method, "POST") && str_eq(path, "/data") {
        Some(Route::CreateData)
    } else {
        None
    }
}

/// Why a request failed: the submission was invalid (a client error), or the
/// store refused the operation (a server error).
#[derive(Clone, Copy, Debug, PartialEq, Eq)]
pub enum HandlerError {
    Validation(ValidationError),
    Store(StoreError),
}

/// Serves the index page: the document shell around the greeting, the
/// control that fetches the listing, and the creation form. No store access.
pub fn handle_index() -> (r: String)
    ensures
        r@ == spec_page(spec_index_body()),
{
    let body = render_index_body();
    render_page(body.as_str())
}

/// Serves the listing: every stored record, rendered as the list fragment.
pub fn handle_list_data(store: &Store) -> (r: Result<String, HandlerError>)
    ensures
        store.table_exists ==> (r matches Ok(body) && body@ == spec_render_list(
            spec_listing(store.rows@),
        )),
        !store.table_exists ==> r == Err::<String, HandlerError>(
            HandlerError::Store(StoreError::MissingTable),
        ),
{
    match store.list_all() {
        Ok(recs) => Ok(render_list(&recs)),
        Err(e) => Err(HandlerError::Store(e)),
    }
}

/// Serves one record creation: validates the submitted fields, appends one
/// row, and answers with the empty creation form, ready for the next entry
/// (the one response shape this application uses for a successful creation).
/// A validation failure inserts nothing and leaves the store unchanged, as
/// does a store failure.
pub fn handle_create_data(store: &mut Store, fields: &Vec<(String, String)>) -> (r: Result<
    String,
    HandlerError,
>)
    ensures
        spec_lookup(fields@, "name"@) is None ==> r == Err::<String, HandlerError>(
            HandlerError::Validation(ValidationError::MissingName),
        ) && *final(store) == *old(store),
        spec_lookup(fields@, "name"@) is Some && spec_lookup(fields@, "date"@) is None ==> r
            == Err::<String, HandlerError>(HandlerError::Validation(ValidationError::MissingDate))
            && *final(store) == *old(store),
        spec_lookup(fields@, "name"@) is Some && spec_lookup(fields@, "date"@) is Some
            && !old(store).table_exists ==> r == Err::<String, HandlerError>(
            HandlerError::Store(StoreError::MissingTable),
        ) && *final(store) == *old(store),
        spec_lookup(fields@, "name"@) is Some && spec_lookup(fields@, "date"@) is Some
            && old(store).table_exists ==> (r matches Ok(body) && body@ == spec_empty_form()
            && final(store).table_exists && final(store).rows@.len()
            == old(store).rows@.len() + 1 && final(store).rows@.last().name@ == spec_lookup(
            fields@,
            "name"@,
        )->Some_0 && final(store).rows@.last().date@ == spec_lookup(fields@, "date"@)->Some_0
            && final(store).rows@.drop_last() == old(store).rows@),
{
    let rec = match from_form_submission(fields) {
        Ok(rec) => rec,
        Err(e) => {
            return Err(HandlerError::Validation(e));
        },
    };
    let ghost rows0 = store.rows@;
    let ghost row = Row { name: rec.name, date: rec.date };
    match store.insert(rec.name, rec.date) {
        Ok(()) => {
            proof {
                assert(rows0.push(row).drop_last() =~= rows0);
            }
            Ok(render_empty_form())
        },
        Err(e) => Err(HandlerError::Store(e)),
    }
}

} // verus!
