//! Pages: the crawl targets that belong to a store.

use vstd::prelude::*;
use vstd::string::*;
use crate::checks::{length_within, validate_length, validate_url};
use crate::error::{AppError, FieldErrorView, ValidationErrors};
use crate::models::product::clone_opt_string;
use crate::models::store::{StoreId, Timestamp};
use crate::text::str_eq;
use crate::web_url::{url_parse, WebUrl};

verus! {

/// The key of a page.
#[derive(Debug, Clone, Copy, PartialEq, Eq, PartialOrd, Ord, Hash, Structural)]
pub struct PageId(pub i32);

impl PageId {
    /// The key `id`, given whether the pages hold a row with it. A key that no
    /// row has is refused with the server error `invalid page id`.
    pub fn new(id: i32, exists: bool) -> (r: Result<Self, AppError>)
        ensures
            exists ==> r == Ok::<PageId, AppError>(PageId(id)),
            !exists ==> (r matches Err(AppError::ServerError(m)) && m@ == "invalid page id"@),
    {
        if !exists {
            return Err(AppError::server("invalid page id"));
        }
        Ok(PageId(id))
    }

    /// The key `id`, whether or not a row has it.
    pub fn new_unchecked(id: i32) -> (r: Self)
        ensures
            r == PageId(id),
    {
        PageId(id)
    }

    /// The number behind the key.
    pub fn inner(&self) -> (r: i32)
        ensures
            r == self.0,
    {
        self.0
    }
}

/// Which handler reads a page.
#[derive(Debug, PartialEq, Eq, PartialOrd, Ord, Clone, Copy, Structural)]
pub enum PageHandler {
    /// A search listing of the Kabum storefront.
    KabumSearch,
    /// A product page of the Kabum storefront.
    KabumProduct,
}

impl PageHandler {
    /// The name under which the handler is stored.
    pub open spec fn name(self) -> Seq<char> {
        match self {
            PageHandler::KabumSearch => "kabum_search"@,
            PageHandler::KabumProduct => "kabum_product"@,
        }
    }

    /// The name under which the handler is stored.
    pub fn inner(&self) -> (r: &'static str)
        ensures
            r@ == self.name(),
    {
        match self {
            PageHandler::KabumSearch => "kabum_search",
            PageHandler::KabumProduct => "kabum_product",
        }
    }

    /// The handler that a stored name stands for. Only the search handler can
    /// be configured; any other name is refused with the server error
    /// `invalid page handler`.
    pub fn try_from(value: String) -> (r: Result<Self, AppError>)
        ensures
            value@ == "kabum_search"@ ==> r == Ok::<PageHandler, AppError>(
                PageHandler::KabumSearch,
            ),
            value@ != "kabum_search"@ ==> (r matches Err(AppError::ServerError(m)) && m@
                == "invalid page handler"@),
    {
        if str_eq(value.as_str(), "kabum_search") {
            Ok(PageHandler::KabumSearch)
        } else {
            Err(AppError::server("invalid page handler"))
        }
    }
}

/// What a page shows.
#[derive(Debug, PartialEq, Eq, PartialOrd, Ord, Clone, Copy, Structural)]
pub enum PageKind {
    /// A listing of products.
    Search,
    /// One product.
    Details,
}

impl PageKind {
    /// The name under which the kind is stored.
    pub open spec fn name(self) -> Seq<char> {
        match self {
            PageKind::Search => "search"@,
            PageKind::Details => "details"@,
        }
    }

    /// The name under which the kind is stored.
    pub fn inner(&self) -> (r: &'static str)
        ensures
            r@ == self.name(),
    {
        match self {
            PageKind::Search => "search",
            PageKind::Details => "details",
        }
    }

    /// The kind that a stored name stands for; any other name is refused with
    /// the server error `invalid page kind`.
    pub fn try_from(value: String) -> (r: Result<Self, AppError>)
        ensures
            value@ == "search"@ ==> r == Ok::<PageKind, AppError>(PageKind::Search),
            value@ != "search"@ && value@ == "details"@ ==> r == Ok::<PageKind, AppError>(
                PageKind::Details,
            ),
            value@ != "search"@ && value@ != "details"@ ==> (r matches Err(
                AppError::ServerError(m),
            ) && m@ == "invalid page kind"@),
    {
        if str_eq(value.as_str(), "search") {
            Ok(PageKind::Search)
        } else if str_eq(value.as_str(), "details") {
            Ok(PageKind::Details)
        } else {
            Err(AppError::server("invalid page kind"))
        }
    }
}

/// A page: a configured crawl target. The EAN and the GTIN, where given, say
/// which product the page is about.
#[derive(Debug)]
pub struct Page {
    pub id: PageId,
    pub name: String,
    pub url: WebUrl,
    pub store_id: StoreId,
    pub handler: PageHandler,
    pub page_kind: PageKind,
    pub ean: Option<String>,
    pub gtin: Option<String>,
    pub active: bool,
    pub created_at: Timestamp,
    pub updated_at: Timestamp,
    pub deleted_at: Option<Timestamp>,
}

impl Clone for Page {
    fn clone(&self) -> (r: Self)
        ensures
            r == *self,
    {
        Page {
            id: self.id,
            name: self.name.clone(),
            url: self.url.clone(),
            store_id: self.store_id,
            handler: self.handler,
            page_kind: self.page_kind,
            ean: clone_opt_string(&self.ean),
            gtin: clone_opt_string(&self.gtin),
            active: self.active,
            created_at: self.created_at,
            updated_at: self.updated_at,
            deleted_at: self.deleted_at,
        }
    }
}

/// A page as the database holds it.
#[derive(Debug)]
pub struct PageRow {
    pub id: i32,
    pub name: String,
    pub url: String,
    pub store_id: i32,
    pub handler: String,
    pub page_kind: String,
    pub ean: Option<String>,
    pub gtin: Option<String>,
    pub active: bool,
    pub created_at: Timestamp,
    pub updated_at: Timestamp,
    pub deleted_at: Option<Timestamp>,
}

/// The handler that a stored name stands for, if any.
pub open spec fn handler_named(name: Seq<char>) -> Option<PageHandler> {
    if name == "kabum_search"@ {
        Some(PageHandler::KabumSearch)
    } else {
        None
    }
}

/// The kind that a stored name stands for, if any.
pub open spec fn kind_named(name: Seq<char>) -> Option<PageKind> {
    if name == "search"@ {
        Some(PageKind::Search)
    } else if name == "details"@ {
        Some(PageKind::Details)
    } else {
        None
    }
}

impl Page {
    /// The page that a row stands for. A row is refused with a server error if
    /// its URL does not parse, else if its handler has no such name, else if
    /// its kind has no such name.
    pub fn from_row(value: PageRow) -> (r: Result<Page, AppError>)
        ensures
            match r {
                Ok(p) => {
                    &&& url_parse(value.url@) == Some(p.url@)
                    &&& handler_named(value.handler@) == Some(p.handler)
                    &&& kind_named(value.page_kind@) == Some(p.page_kind)
                    &&& p.id == PageId(value.id)
                    &&& p.name == value.name
                    &&& p.store_id == StoreId(value.store_id)
                    &&& p.ean == value.ean
                    &&& p.gtin == value.gtin
                    &&& p.active == value.active
                    &&& p.created_at == value.created_at
                    &&& p.updated_at == value.updated_at
                    &&& p.deleted_at == value.deleted_at
                },
                Err(e) => {
                    &&& e matches AppError::ServerError(m)
                    &&& m@ == if url_parse(value.url@) is None {
                        "url should be valid when querying the database"@
                    } else if handler_named(value.handler@) is None {
                        "invalid page handler on the database"@
                    } else {
                        "invalid page kind on the database"@
                    }
                    &&& url_parse(value.url@) is None || handler_named(value.handler@) is None
                        || kind_named(value.page_kind@) is None
                },
            },
    {
        let url = match WebUrl::parse(value.url.as_str()) {
            Some(url) => url,
            None => {
                return Err(AppError::server("url should be valid when querying the database"));
            },
        };
        let handler = match PageHandler::try_from(value.handler) {
            Ok(handler) => handler,
            Err(_) => {
                return Err(AppError::server("invalid page handler on the database"));
            },
        };
        let page_kind = match PageKind::try_from(value.page_kind) {
            Ok(kind) => kind,
            Err(_) => {
                return Err(AppError::server("invalid page kind on the database"));
            },
        };
        Ok(
            Page {
                id: PageId::new_unchecked(value.id),
                name: value.name,
                url,
                store_id: StoreId::new_unchecked(value.store_id),
                handler,
                page_kind,
                active: value.active,
                ean: value.ean,
                gtin: value.gtin,
                created_at: value.created_at,
                updated_at: value.updated_at,
                deleted_at: value.deleted_at,
            },
        )
    }
}

/// What a request to create a page carries.
#[derive(Debug)]
pub struct CreatePagePayload {
    pub name: String,
    pub url: String,
    pub store_id: i32,
    pub handler: String,
    pub page_kind: String,
}

/// A payload to create a page that has passed its rules.
#[derive(Debug)]
pub struct ValidCreatePagePayload {
    pub name: String,
    pub url: WebUrl,
    pub store_id: StoreId,
    pub handler: PageHandler,
    pub page_kind: PageKind,
}

/// The rules that a payload to create a page breaks: the name must have
/// between 1 and 100 characters, and the URL must parse.
pub open spec fn page_payload_errors(name: Seq<char>, url: Seq<char>) -> Seq<FieldErrorView> {
    let name_errors = if length_within(name.len(), Some(1u64), Some(100u64)) {
        Seq::<FieldErrorView>::empty()
    } else {
        seq![
            FieldErrorView {
                field: "name"@,
                code: "length"@,
                message: "name of page must have between 1 and 100 characters"@,
            },
        ]
    };
    let url_errors = if url_parse(url) is Some {
        Seq::<FieldErrorView>::empty()
    } else {
        seq![FieldErrorView { field: "url"@, code: "url"@, message: "page url must be valid"@ }]
    };
    name_errors + url_errors
}

impl CreatePagePayload {
    /// Holds the payload to its rules, given whether the store that it names
    /// exists. A payload that breaks a field rule is refused with every broken
    /// rule listed; else one whose store does not exist, whose handler has no
    /// such name or whose kind has no such name is refused with a server error,
    /// in that order.
    pub fn parse(self, store_exists: bool) -> (r: Result<ValidCreatePagePayload, AppError>)
        ensures
            match r {
                Ok(v) => {
                    &&& page_payload_errors(self.name@, self.url@).len() == 0
                    &&& store_exists
                    &&& v.name == self.name
                    &&& url_parse(self.url@) == Some(v.url@)
                    &&& v.store_id == StoreId(self.store_id)
                    &&& handler_named(self.handler@) == Some(v.handler)
                    &&& kind_named(self.page_kind@) == Some(v.page_kind)
                },
                Err(AppError::ValidationError(errors)) => {
                    &&& errors@.len() > 0
                    &&& errors@ == page_payload_errors(self.name@, self.url@)
                },
                Err(AppError::ServerError(m)) => {
                    &&& page_payload_errors(self.name@, self.url@).len() == 0
                    &&& m@ == if !store_exists {
                        "invalid page id"@
                    } else if handler_named(self.handler@) is None {
                        "invalid page handler"@
                    } else {
                        "invalid page kind"@
                    }
                    &&& !store_exists || handler_named(self.handler@) is None || kind_named(
                        self.page_kind@,
                    ) is None
                },
            },
    {
        let mut errors = ValidationErrors::new();
        if !validate_length(self.name.as_str(), Some(1), Some(100)) {
            errors.add("name", "length", "name of page must have between 1 and 100 characters");
        }
        if !validate_url(self.url.as_str()) {
            errors.add("url", "url", "page url must be valid");
        }
        assert(errors@ =~= page_payload_errors(self.name@, self.url@));
        if !errors.is_empty() {
            return Err(AppError::ValidationError(errors));
        }
        let url = match WebUrl::parse(self.url.as_str()) {
            Some(url) => url,
            None => {
                return Err(AppError::ValidationError(errors));
            },
        };
        let store_id = match StoreId::new(self.store_id, store_exists) {
            Ok(id) => id,
            Err(e) => {
                return Err(e);
            },
        };
        let handler = match PageHandler::try_from(self.handler) {
            Ok(handler) => handler,
            Err(e) => {
                return Err(e);
            },
        };
        let page_kind = match PageKind::try_from(self.page_kind) {
            Ok(kind) => kind,
            Err(e) => {
                return Err(e);
            },
        };
        Ok(ValidCreatePagePayload { name: self.name, url, store_id, handler, page_kind })
    }
}

} // verus!
