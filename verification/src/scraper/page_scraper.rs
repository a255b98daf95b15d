//! Reading one page entry: which page to render, and what its links give.

use vstd::prelude::*;
use vstd::string::*;
use crate::error::{ErrorKind, ScrapeError};
use crate::models::page::{Page, PageHandler};
use crate::models::store::Store;
use crate::scraper::kabum_search_handler::{item_urls, link_urls, KabumSearchHandler};
use crate::scraper::QueuePage;

verus! {

/// The work on one page entry.
#[derive(Debug)]
pub struct PageScraper {
    pub page: Page,
    pub parser: KabumSearchHandler,
}

impl PageScraper {
    /// The work on `page` with the given handler.
    pub fn new(parser: KabumSearchHandler, page: Page) -> (r: Self)
        ensures
            r.page == page,
            r.parser == parser,
    {
        Self { page, parser }
    }

    /// The work on `page` with the handler that the page names, which takes
    /// over the page's store and hints. A page whose handler reads no listing
    /// is refused with a validation error.
    pub fn for_page(page: Page) -> (r: Result<Self, ScrapeError>)
        ensures
            match r {
                Ok(s) => {
                    &&& page.handler == PageHandler::KabumSearch
                    &&& s.page == page
                    &&& s.parser.store_id == page.store_id
                    &&& s.parser.ean == page.ean
                    &&& s.parser.gtin == page.gtin
                },
                Err(e) => {
                    &&& page.handler != PageHandler::KabumSearch
                    &&& e.kind == ErrorKind::Validation
                    &&& e.message@ == "page handler does not read search listings"@
                },
            },
    {
        match page.handler {
            PageHandler::KabumSearch => {
                let copy = page.clone();
                let parser = KabumSearchHandler::new(copy.store_id, copy.ean, copy.gtin);
                Ok(Self { page, parser })
            },
            PageHandler::KabumProduct => Err(
                ScrapeError::new(
                    ErrorKind::Validation,
                    "page handler does not read search listings",
                ),
            ),
        }
    }

    /// What the entry yields, given its store as the gateway returned it and
    /// the links of the rendered page (see `KabumSearchHandler::run`). An
    /// entry whose store is not found yields nothing.
    pub fn run(&self, store: Option<Store>, links: &Vec<Option<String>>) -> (r: Result<
        Vec<QueuePage>,
        ScrapeError,
    >)
        ensures
            match (store, r) {
                (None, Ok(items)) => items@.len() == 0,
                (None, Err(_)) => false,
                (Some(s), Ok(items)) => {
                    &&& link_urls(s.url@.text, links@) == Some(item_urls(items@))
                    &&& forall|k: int|
                        0 <= k < items@.len() ==> {
                            &&& (#[trigger] items@[k]).store_id == self.parser.store_id
                            &&& items@[k].handler == PageHandler::KabumProduct
                            &&& items@[k].ean == self.parser.ean
                            &&& items@[k].gtin == self.parser.gtin
                        }
                },
                (Some(s), Err(e)) => {
                    &&& link_urls(s.url@.text, links@) is None
                    &&& e.kind == ErrorKind::Render
                    &&& e.message@ == "link cannot be resolved against the url of the store"@
                },
            },
    {
        match store {
            None => Ok(Vec::new()),
            Some(s) => self.parser.run(&s, links),
        }
    }
}

} // verus!
