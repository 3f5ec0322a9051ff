//! Which handler answers a request, by method and path.

use vstd::prelude::*;

verus! {

/// The request methods that the router tells apart.
#[derive(Debug, Clone, Copy, PartialEq, Eq, Structural)]
pub enum HttpMethod {
    Get,
    Post,
    Other,
}

/// The endpoint that a request is dispatched to.
#[derive(Debug, Clone, Copy, PartialEq, Eq, Structural)]
pub enum Route {
    Insert,
    InsertBatch,
    InsertPrepared,
    QueryIter,
    CustomInsert,
    CustomQuery,
    CustomQueryPaged,
    CustomQueryPagedAll,
    CustomQueryTokenRange,
    Metadata,
    NotFound,
}

/// The routing table. Table metadata is served to `GET` and to `POST`
/// requests alike.
pub open spec fn spec_route(method: HttpMethod, path: Seq<char>) -> Route {
    if method == HttpMethod::Post && path == "/insert"@ {
        Route::Insert
    } else if method == HttpMethod::Post && path == "/insert_batch"@ {
        Route::InsertBatch
    } else if method == HttpMethod::Post && path == "/insert_prepared"@ {
        Route::InsertPrepared
    } else if method == HttpMethod::Get && path == "/query_iter"@ {
        Route::QueryIter
    } else if method == HttpMethod::Post && path == "/custom_insert"@ {
        Route::CustomInsert
    } else if method == HttpMethod::Get && path == "/custom_query"@ {
        Route::CustomQuery
    } else if method == HttpMethod::Post && path == "/custom_query_paged"@ {
        Route::CustomQueryPaged
    } else if method == HttpMethod::Get && path == "/custom_query_paged_all"@ {
        Route::CustomQueryPagedAll
    } else if method == HttpMethod::Post && path == "/custom_query_token_range"@ {
        Route::CustomQueryTokenRange
    } else if (method == HttpMethod::Get || method == HttpMethod::Post) && path == "/metadata"@ {
        Route::Metadata
    } else {
        Route::NotFound
    }
}

/// Compares two strings by their characters.
pub fn text_eq(a: &str, b: &str) -> (r: bool)
    ensures
        r == (a@ == b@),
{
    let x = a.to_owned();
    let y = b.to_owned();
    x == y
}

/// Picks the endpoint for a request from its method and path.
pub fn route(method: HttpMethod, path: &str) -> (r: Route)
    ensures
        r == spec_route(method, path@),
{
    match method {
        HttpMethod::Post => {
            if text_eq(path, "/insert") {
                Route::Insert
            } else if text_eq(path, "/insert_batch") {
                Route::InsertBatch
            } else if text_eq(path, "/insert_prepared") {
                Route::InsertPrepared
            } else if text_eq(path, "/custom_insert") {
                Route::CustomInsert
            } else if text_eq(path, "/custom_query_paged") {
                Route::CustomQueryPaged
            } else if text_eq(path, "/custom_query_token_range") {
                Route::CustomQueryTokenRange
            } else if text_eq(path, "/metadata") {
                Route::Metadata
            } else {
                Route::NotFound
            }
        },
        HttpMethod::Get => {
            if text_eq(path, "/query_iter") {
                Route::QueryIter
            } else if text_eq(path, "/custom_query") {
                Route::CustomQuery
            } else if text_eq(path, "/custom_query_paged_all") {
                Route::CustomQueryPagedAll
            } else if text_eq(path, "/metadata") {
                Route::Metadata
            } else {
                Route::NotFound
            }
        },
        HttpMethod::Other => Route::NotFound,
    }
}

} // verus!
