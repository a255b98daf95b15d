//! How a store is read: by scraping its pages, or through a vendor API.

use vstd::prelude::*;
use vstd::string::*;
use crate::error::AppError;
use crate::text::{opt_str, str_eq};

verus! {

/// The key of a store handler.
#[derive(Debug, Clone, Copy, PartialEq, Eq, Structural)]
pub struct HandlerId(pub i32);

impl HandlerId {
    /// The key `id`, whether or not a row has it.
    pub fn new_unchecked(id: i32) -> (r: Self)
        ensures
            r == HandlerId(id),
    {
        HandlerId(id)
    }

    /// The number behind the key.
    pub fn inner(&self) -> (r: i32)
        ensures
            r == self.0,
    {
        self.0
    }
}

/// A store handler as the database holds it.
#[derive(Debug)]
pub struct StoreHandlerRow {
    pub id: i32,
    pub type_id: i32,
    pub api_id: Option<i32>,
    pub parser: Option<String>,
}

/// A vendor API as the database holds it.
#[derive(Debug)]
pub struct StoreApiRow {
    pub id: i32,
    pub name: String,
}

/// A kind of store handler as the database holds it.
#[derive(Debug)]
pub struct StoreHandlerTypeRow {
    pub id: i32,
    pub name: String,
}

/// The vendor APIs.
#[derive(Debug, PartialEq, Eq, PartialOrd, Ord, Hash, Clone, Copy, Structural)]
pub enum StoreApi {
    Amazon,
    MercadoLivre,
}

/// How a store is read.
#[derive(Debug, PartialEq, Eq, Copy, PartialOrd, Ord, Clone, Structural)]
pub enum StoreHandler {
    Scraper(StoreParser),
    Api(StoreApi),
}

/// The parsers for scraped stores.
#[derive(Debug, PartialEq, Eq, Copy, PartialOrd, Ord, Clone, Structural)]
pub enum StoreParser {
    Kabum,
}

/// How far a handler row and its kind decide the handler.
#[derive(Debug, PartialEq, Eq, Clone, Copy, Structural)]
pub enum HandlerLookup {
    /// The handler is known.
    Resolved(StoreHandler),
    /// The handler is an API; the row of the API with this key says which.
    NeedsApi(i32),
}

/// What a handler row of the kind named `kind_name` decides. A scraper needs
/// the parser `kabum_search`; an API needs the key of its row; no other kind
/// is known.
pub open spec fn handler_lookup(
    kind_name: Seq<char>,
    parser: Option<Seq<char>>,
    api_id: Option<i32>,
) -> Result<HandlerLookup, Seq<char>> {
    if kind_name == "scraper"@ {
        if parser == Some("kabum_search"@) {
            Ok(HandlerLookup::Resolved(StoreHandler::Scraper(StoreParser::Kabum)))
        } else {
            Err("invalid store parser"@)
        }
    } else if kind_name == "api"@ {
        match api_id {
            Some(id) => Ok(HandlerLookup::NeedsApi(id)),
            None => Err("handler type is api but no api_id is defined"@),
        }
    } else {
        Err("invalid handler_type "@ + kind_name)
    }
}

/// The handler that the API named `name` stands for.
pub open spec fn api_handler(name: Seq<char>) -> Result<StoreHandler, Seq<char>> {
    if name == "amazon"@ {
        Ok(StoreHandler::Api(StoreApi::Amazon))
    } else if name == "mercado_livre"@ {
        Ok(StoreHandler::Api(StoreApi::MercadoLivre))
    } else {
        Err("invalid store api "@ + name)
    }
}

impl StoreHandler {
    /// Reads a handler row together with the row of its kind. Either the
    /// handler is decided, or the row of an API is needed (`from_api` then
    /// finishes), or the rows are refused with a server error that says why.
    pub fn from_rows(handler: &StoreHandlerRow, handler_type: &StoreHandlerTypeRow) -> (r: Result<
        HandlerLookup,
        AppError,
    >)
        ensures
            match handler_lookup(handler_type.name@, opt_str(handler.parser), handler.api_id) {
                Ok(lookup) => r == Ok::<HandlerLookup, AppError>(lookup),
                Err(message) => r matches Err(AppError::ServerError(m)) && m@ == message,
            },
    {
        if str_eq(handler_type.name.as_str(), "scraper") {
            let is_kabum = match &handler.parser {
                Some(parser) => str_eq(parser.as_str(), "kabum_search"),
                None => false,
            };
            if is_kabum {
                Ok(HandlerLookup::Resolved(StoreHandler::Scraper(StoreParser::Kabum)))
            } else {
                Err(AppError::server("invalid store parser"))
            }
        } else if str_eq(handler_type.name.as_str(), "api") {
            match handler.api_id {
                Some(id) => Ok(HandlerLookup::NeedsApi(id)),
                None => Err(AppError::server("handler type is api but no api_id is defined")),
            }
        } else {
            let message = "invalid handler_type ".to_owned().concat(handler_type.name.as_str());
            Err(AppError::ServerError(message))
        }
    }

    /// The handler that the row of an API stands for; an unknown API is refused
    /// with a server error that names it.
    pub fn from_api(api: &StoreApiRow) -> (r: Result<StoreHandler, AppError>)
        ensures
            match api_handler(api.name@) {
                Ok(handler) => r == Ok::<StoreHandler, AppError>(handler),
                Err(message) => r matches Err(AppError::ServerError(m)) && m@ == message,
            },
    {
        if str_eq(api.name.as_str(), "amazon") {
            Ok(StoreHandler::Api(StoreApi::Amazon))
        } else if str_eq(api.name.as_str(), "mercado_livre") {
            Ok(StoreHandler::Api(StoreApi::MercadoLivre))
        } else {
            let message = "invalid store api ".to_owned().concat(api.name.as_str());
            Err(AppError::ServerError(message))
        }
    }
}

} // verus!
