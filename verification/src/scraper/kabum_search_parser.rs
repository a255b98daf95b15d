//! Reading a search listing of the Kabum storefront by joining texts: each
//! link is the part of a product page's URL that follows the store's URL.

use vstd::prelude::*;
use vstd::string::*;
use crate::error::{ErrorKind, ScrapeError};
use crate::models::store::Store;
use crate::web_url::{url_parse, UrlView, WebUrl};

verus! {

/// Joins the links of a listing to the URL of the store.
#[derive(Debug, Clone, Copy, Default, PartialEq, Eq)]
pub struct KabumSearchParser;

/// The URLs that the cards of a listing lead to, in the order of the cards:
/// each link is appended to `base` and the whole is parsed. A card without a
/// link is passed over. `None` where some joined text does not parse.
pub open spec fn joined_urls(base: Seq<char>, links: Seq<Option<String>>) -> Option<Seq<UrlView>>
    decreases links.len(),
{
    if links.len() == 0 {
        Some(Seq::<UrlView>::empty())
    } else {
        match (joined_urls(base, links.drop_last()), links.last()) {
            (None, _) => None,
            (Some(head), None) => Some(head),
            (Some(head), Some(link)) => match url_parse(base + link@) {
                Some(url) => Some(head.push(url)),
                None => None,
            },
        }
    }
}

/// Once a joined text does not parse, no longer listing can be read either.
pub proof fn lemma_joined_urls_prefix(base: Seq<char>, links: Seq<Option<String>>, k: int)
    requires
        0 <= k <= links.len(),
        joined_urls(base, links.take(k)) is None,
    ensures
        joined_urls(base, links) is None,
    decreases links.len(),
{
    if k == links.len() {
        assert(links.take(k) =~= links);
    } else {
        assert(links.drop_last().take(k) =~= links.take(k));
        lemma_joined_urls_prefix(base, links.drop_last(), k);
    }
}

/// The views of a sequence of URLs.
pub open spec fn url_views(urls: Seq<WebUrl>) -> Seq<UrlView> {
    urls.map_values(|u: WebUrl| u@)
}

impl KabumSearchParser {
    /// The product pages that a rendered listing links to. `links` holds, for
    /// each product card in order, the value of its link attribute, or `None`
    /// where the card has none. One joined text that does not parse fails the
    /// whole listing with a render error.
    pub fn parse(&self, store: &Store, links: &Vec<Option<String>>) -> (r: Result<
        Vec<WebUrl>,
        ScrapeError,
    >)
        ensures
            match r {
                Ok(urls) => joined_urls(store.url@.text, links@) == Some(url_views(urls@)),
                Err(e) => {
                    &&& joined_urls(store.url@.text, links@) is None
                    &&& e.kind == ErrorKind::Render
                    &&& e.message@ == "link does not make a url with the url of the store"@
                },
            },
    {
        let mut urls: Vec<WebUrl> = Vec::new();
        let mut i: usize = 0;
        proof {
            assert(links@.take(0) =~= Seq::<Option<String>>::empty());
            assert(url_views(urls@) =~= Seq::<UrlView>::empty());
        }
        while i < links.len()
            invariant
                i <= links@.len(),
                joined_urls(store.url@.text, links@.take(i as int)) == Some(url_views(urls@)),
            decreases links@.len() - i,
        {
            proof {
                assert(links@.take(i + 1).drop_last() =~= links@.take(i as int));
                assert(links@.take(i + 1).last() == links@[i as int]);
            }
            match &links[i] {
                Some(link) => {
                    let full_url = store.url.as_str().to_owned().concat(link.as_str());
                    match WebUrl::parse(full_url.as_str()) {
                        Some(url) => {
                            proof {
                                assert(url_views(urls@.push(url)) =~= url_views(urls@).push(url@));
                            }
                            urls.push(url);
                        },
                        None => {
                            proof {
                                lemma_joined_urls_prefix(store.url@.text, links@, i + 1);
                            }
                            return Err(
                                ScrapeError::new(
                                    ErrorKind::Render,
                                    "link does not make a url with the url of the store",
                                ),
                            );
                        },
                    }
                },
                None => {},
            }
            i = i + 1;
        }
        proof {
            assert(links@.take(i as int) =~= links@);
        }
        Ok(urls)
    }
}

} // verus!
