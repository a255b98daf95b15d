//! Scraping a store as a whole: which parser reads it.

use vstd::prelude::*;
use vstd::string::*;
use crate::error::{ErrorKind, ScrapeError};
use crate::models::handler::{StoreHandler, StoreParser};
use crate::models::store::Store;

verus! {

/// The selector of a product card.
pub const CARD_SELECTOR: &'static str = ".productCard";

/// The selector, inside a card, of the product's name.
pub const NAME_SELECTOR: &'static str = ".nameCard";

/// The selector, inside a card, of the product's price.
pub const PRICE_SELECTOR: &'static str = ".priceCard";

/// The selector, inside a card, of the product's image.
pub const IMAGE_SELECTOR: &'static str = ".imageCard";

/// The parser for the Kabum storefront.
#[derive(Debug, Clone, Copy, Default, PartialEq, Eq)]
pub struct KabumParser;

/// The scrape of one store with the parser that its handler names.
#[derive(Debug)]
pub struct Scraper {
    pub store: Store,
    pub parser: KabumParser,
}

impl Scraper {
    /// The scrape of `store`, which `handler` says how to read. A store that
    /// is read through an API has no parser and is refused with a validation
    /// error.
    pub fn new(store: Store, handler: StoreHandler) -> (r: Result<Self, ScrapeError>)
        ensures
            match r {
                Ok(s) => handler is Scraper && s.store == store,
                Err(e) => {
                    &&& handler is Api
                    &&& e.kind == ErrorKind::Validation
                    &&& e.message@ == "store has handler scraper but no parser"@
                },
            },
    {
        match handler {
            StoreHandler::Scraper(parser) => {
                let parser = match parser {
                    StoreParser::Kabum => KabumParser,
                };
                Ok(Self { store, parser })
            },
            StoreHandler::Api(_) => Err(
                ScrapeError::new(ErrorKind::Validation, "store has handler scraper but no parser"),
            ),
        }
    }

    /// The URL to open for the scrape: the store's.
    pub fn target(&self) -> (r: &str)
        ensures
            r@ == self.store.url@.text,
    {
        self.store.url.as_str()
    }
}

} // verus!
