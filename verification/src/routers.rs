//! The envelope in which the management API answers.

use vstd::prelude::*;

verus! {

/// The HTTP status of a request that was served.
pub const STATUS_OK: u16 = 200;

/// The HTTP status of a request that created a row.
pub const STATUS_CREATED: u16 = 201;

/// An answer of the management API: the HTTP status, whether the request
/// succeeded, and the body.
#[derive(Debug)]
pub struct HttpResponse<T> {
    pub status: u16,
    pub ok: bool,
    pub body: T,
}

impl<T> HttpResponse<T> {
    /// An answer with the given parts.
    pub fn new(ok: bool, body: T, status: u16) -> (r: Self)
        ensures
            r.ok == ok,
            r.body == body,
            r.status == status,
    {
        Self { ok, body, status }
    }

    /// The answer to a request that was served.
    pub fn ok(body: T) -> (r: Self)
        ensures
            r.ok,
            r.body == body,
            r.status == STATUS_OK,
    {
        Self::new(true, body, STATUS_OK)
    }

    /// The answer to a request that created a row.
    pub fn created(body: T) -> (r: Self)
        ensures
            r.ok,
            r.body == body,
            r.status == STATUS_CREATED,
    {
        Self::new(true, body, STATUS_CREATED)
    }
}

} // verus!
