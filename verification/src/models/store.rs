//! Stores: the storefronts whose pages are crawled.

use vstd::prelude::*;
use vstd::string::*;
use crate::checks::{length_within, validate_length, validate_url};
use crate::error::{AppError, FieldErrorView, ValidationErrors};
use crate::web_url::{url_parse, WebUrl};

verus! {

/// A moment, in microseconds since the Unix epoch.
pub type Timestamp = i64;

/// The key of a store.
#[derive(Debug, Clone, Copy, PartialEq, Eq, PartialOrd, Ord, Hash, Structural)]
pub struct StoreId(pub i32);

impl StoreId {
    /// The key `id`, given whether the stores hold a row with it. A key that no
    /// row has is refused with the server error `invalid page id`.
    pub fn new(id: i32, exists: bool) -> (r: Result<Self, AppError>)
        ensures
            exists ==> r == Ok::<StoreId, AppError>(StoreId(id)),
            !exists ==> (r matches Err(AppError::ServerError(m)) && m@ == "invalid page id"@),
    {
        if !exists {
            return Err(AppError::server("invalid page id"));
        }
        Ok(StoreId(id))
    }

    /// The key `id`, whether or not a row has it.
    pub fn new_unchecked(id: i32) -> (r: Self)
        ensures
            r == StoreId(id),
    {
        StoreId(id)
    }

    /// The number behind the key.
    pub fn inner(&self) -> (r: i32)
        ensures
            r == self.0,
    {
        self.0
    }
}

/// A store. Its URL is the base against which the links on its pages are
/// resolved.
#[derive(Debug)]
pub struct Store {
    pub id: StoreId,
    pub name: String,
    pub url: WebUrl,
    pub active: bool,
    pub created_at: Timestamp,
    pub updated_at: Timestamp,
    pub deleted_at: Option<Timestamp>,
}

impl Clone for Store {
    fn clone(&self) -> (r: Self)
        ensures
            r == *self,
    {
        Store {
            id: self.id,
            name: self.name.clone(),
            url: self.url.clone(),
            active: self.active,
            created_at: self.created_at,
            updated_at: self.updated_at,
            deleted_at: self.deleted_at,
        }
    }
}

/// A store as the database holds it.
#[derive(Debug)]
pub struct StoreRow {
    pub id: i32,
    pub name: String,
    pub url: String,
    pub active: bool,
    pub created_at: Timestamp,
    pub updated_at: Timestamp,
    pub deleted_at: Option<Timestamp>,
}

impl Store {
    /// The store that a row stands for. A row whose URL does not parse is
    /// refused with a server error.
    pub fn from_row(row: StoreRow) -> (r: Result<Store, AppError>)
        ensures
            match r {
                Ok(s) => {
                    &&& url_parse(row.url@) == Some(s.url@)
                    &&& s.id == StoreId(row.id)
                    &&& s.name == row.name
                    &&& s.active == row.active
                    &&& s.created_at == row.created_at
                    &&& s.updated_at == row.updated_at
                    &&& s.deleted_at == row.deleted_at
                },
                Err(e) => {
                    &&& url_parse(row.url@) is None
                    &&& e matches AppError::ServerError(m)
                    &&& m@ == "url should be valid when querying the database"@
                },
            },
    {
        match WebUrl::parse(row.url.as_str()) {
            Some(url) => Ok(
                Store {
                    id: StoreId::new_unchecked(row.id),
                    name: row.name,
                    url,
                    active: row.active,
                    created_at: row.created_at,
                    updated_at: row.updated_at,
                    deleted_at: row.deleted_at,
                },
            ),
            None => Err(AppError::server("url should be valid when querying the database")),
        }
    }
}

/// What a request to create a store carries.
#[derive(Debug)]
pub struct CreateStorePayload {
    pub url: String,
    pub name: String,
}

/// A payload to create a store that has passed its rules.
#[derive(Debug)]
pub struct ValidCreateStorePayload {
    pub name: String,
    pub url: WebUrl,
}

/// The rules that a payload to create a store breaks: the URL must parse, and
/// the name must have between 1 and 100 characters.
pub open spec fn store_payload_errors(url: Seq<char>, name: Seq<char>) -> Seq<FieldErrorView> {
    let url_errors = if url_parse(url) is Some {
        Seq::<FieldErrorView>::empty()
    } else {
        seq![
            FieldErrorView { field: "url"@, code: "url"@, message: "url must be a valid url"@ },
        ]
    };
    let name_errors = if length_within(name.len(), Some(1u64), Some(100u64)) {
        Seq::<FieldErrorView>::empty()
    } else {
        seq![
            FieldErrorView {
                field: "name"@,
                code: "length"@,
                message: "name must have between 1 and 100 characters"@,
            },
        ]
    };
    url_errors + name_errors
}

impl CreateStorePayload {
    /// Holds the payload to its rules. It passes exactly if it breaks none;
    /// otherwise the error lists every broken rule.
    pub fn parse(self) -> (r: Result<ValidCreateStorePayload, AppError>)
        ensures
            match r {
                Ok(v) => {
                    &&& store_payload_errors(self.url@, self.name@).len() == 0
                    &&& v.name == self.name
                    &&& url_parse(self.url@) == Some(v.url@)
                },
                Err(e) => {
                    &&& store_payload_errors(self.url@, self.name@).len() > 0
                    &&& e matches AppError::ValidationError(errors)
                    &&& errors@ == store_payload_errors(self.url@, self.name@)
                },
            },
    {
        let mut errors = ValidationErrors::new();
        if !validate_url(self.url.as_str()) {
            errors.add("url", "url", "url must be a valid url");
        }
        if !validate_length(self.name.as_str(), Some(1), Some(100)) {
            errors.add("name", "length", "name must have between 1 and 100 characters");
        }
        assert(errors@ =~= store_payload_errors(self.url@, self.name@));
        if !errors.is_empty() {
            return Err(AppError::ValidationError(errors));
        }
        match WebUrl::parse(self.url.as_str()) {
            Some(url) => Ok(ValidCreateStorePayload { name: self.name, url }),
            None => Err(AppError::ValidationError(errors)),
        }
    }
}

} // verus!
