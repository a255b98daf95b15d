//! Reading a search listing of the Kabum storefront: each product card links
//! to a product page, which becomes an item of the queue.

use vstd::prelude::*;
use vstd::string::*;
use crate::error::{ErrorKind, ScrapeError};
use crate::models::page::PageHandler;
use crate::models::product::clone_opt_string;
use crate::models::store::{Store, StoreId};
use crate::scraper::QueuePage;
use crate::web_url::{rewritable, url_set_path, UrlView};

verus! {

/// The selector of a product card on a search listing.
pub const CARD_SELECTOR: &'static str = ".productCard";

/// The selector, inside a product card, of the element that links to the
/// product page.
pub const LINK_SELECTOR: &'static str = ".productLink";

/// The attribute of that element which holds the link.
pub const LINK_ATTRIBUTE: &'static str = "href";

/// Reads the search listings of one page entry. It hands the entry's store and
/// its EAN and GTIN hints on to every item it finds.
#[derive(Debug, PartialEq, Eq)]
pub struct KabumSearchHandler {
    pub store_id: StoreId,
    pub ean: Option<String>,
    pub gtin: Option<String>,
}

impl Clone for KabumSearchHandler {
    fn clone(&self) -> (r: Self)
        ensures
            r == *self,
    {
        KabumSearchHandler {
            store_id: self.store_id,
            ean: clone_opt_string(&self.ean),
            gtin: clone_opt_string(&self.gtin),
        }
    }
}

/// The absolute URL that a link on a listing stands for: the store's URL with
/// its path replaced by the link. `None` where the link cannot be resolved.
pub open spec fn resolve_link(base: Seq<char>, link: Seq<char>) -> Option<UrlView> {
    if rewritable(base, link) {
        url_set_path(base, link)
    } else {
        None
    }
}

/// The URLs that the cards of a listing lead to, in the order of the cards. A
/// card without a link is passed over. `None` where some link cannot be
/// resolved.
pub open spec fn link_urls(base: Seq<char>, links: Seq<Option<String>>) -> Option<Seq<UrlView>>
    decreases links.len(),
{
    if links.len() == 0 {
        Some(Seq::<UrlView>::empty())
    } else {
        match (link_urls(base, links.drop_last()), links.last()) {
            (None, _) => None,
            (Some(head), None) => Some(head),
            (Some(head), Some(link)) => match resolve_link(base, link@) {
                Some(url) => Some(head.push(url)),
                None => None,
            },
        }
    }
}

/// Once a link cannot be resolved, no longer listing can be read either.
pub proof fn lemma_link_urls_prefix(base: Seq<char>, links: Seq<Option<String>>, k: int)
    requires
        0 <= k <= links.len(),
        link_urls(base, links.take(k)) is None,
    ensures
        link_urls(base, links) is None,
    decreases links.len(),
{
    if k == links.len() {
        assert(links.take(k) =~= links);
    } else {
        assert(links.drop_last().take(k) =~= links.take(k));
        lemma_link_urls_prefix(base, links.drop_last(), k);
    }
}

/// The URLs of a sequence of items.
pub open spec fn item_urls(items: Seq<QueuePage>) -> Seq<UrlView> {
    items.map_values(|q: QueuePage| q.url@)
}

impl KabumSearchHandler {
    /// The handler for a page entry of the store `store_id` with the given
    /// hints.
    pub fn new(store_id: StoreId, ean: Option<String>, gtin: Option<String>) -> (r: Self)
        ensures
            r.store_id == store_id,
            r.ean == ean,
            r.gtin == gtin,
    {
        Self { store_id, ean, gtin }
    }

    /// Turns the links of a rendered listing into items of the queue. `links`
    /// holds, for each product card in order, the value of its link attribute,
    /// or `None` where the card has none.
    ///
    /// Each link is resolved against the store's URL. Every item is bound for
    /// the product handler and carries this handler's store and hints. One
    /// link that cannot be resolved fails the whole listing with a render
    /// error.
    pub fn run(&self, store: &Store, links: &Vec<Option<String>>) -> (r: Result<
        Vec<QueuePage>,
        ScrapeError,
    >)
        ensures
            match r {
                Ok(items) => {
                    &&& link_urls(store.url@.text, links@) == Some(item_urls(items@))
                    &&& forall|k: int|
                        0 <= k < items@.len() ==> {
                            &&& (#[trigger] items@[k]).store_id == self.store_id
                            &&& items@[k].handler == PageHandler::KabumProduct
                            &&& items@[k].ean == self.ean
                            &&& items@[k].gtin == self.gtin
                        }
                },
                Err(e) => {
                    &&& link_urls(store.url@.text, links@) is None
                    &&& e.kind == ErrorKind::Render
                    &&& e.message@ == "link cannot be resolved against the url of the store"@
                },
            },
    {
        let mut items: Vec<QueuePage> = Vec::new();
        let mut i: usize = 0;
        proof {
            assert(links@.take(0) =~= Seq::<Option<String>>::empty());
            assert(item_urls(items@) =~= Seq::<UrlView>::empty());
        }
        while i < links.len()
            invariant
                i <= links@.len(),
                link_urls(store.url@.text, links@.take(i as int)) == Some(item_urls(items@)),
                forall|k: int|
                    0 <= k < items@.len() ==> {
                        &&& (#[trigger] items@[k]).store_id == self.store_id
                        &&& items@[k].handler == PageHandler::KabumProduct
                        &&& items@[k].ean == self.ean
                        &&& items@[k].gtin == self.gtin
                    },
            decreases links@.len() - i,
        {
            proof {
                assert(links@.take(i + 1).drop_last() =~= links@.take(i as int));
                assert(links@.take(i + 1).last() == links@[i as int]);
            }
            match &links[i] {
                Some(link) => {
                    match store.url.with_path(link.as_str()) {
                        Some(url) => {
                            let item = QueuePage {
                                url,
                                store_id: self.store_id,
                                handler: PageHandler::KabumProduct,
                                ean: clone_opt_string(&self.ean),
                                gtin: clone_opt_string(&self.gtin),
                            };
                            proof {
                                assert(item_urls(items@.push(item)) =~= item_urls(items@).push(
                                    item.url@,
                                ));
                            }
                            items.push(item);
                        },
                        None => {
                            proof {
                                lemma_link_urls_prefix(store.url@.text, links@, i + 1);
                            }
                            return Err(
                                ScrapeError::new(
                                    ErrorKind::Render,
                                    "link cannot be resolved against the url of the store",
                                ),
                            );
                        },
                    }
                },
                None => {},
            }
            i = i + 1;
        }
        proof {
            assert(links@.take(i as int) =~= links@);
        }
        Ok(items)
    }
}

} // verus!
