//! The catalog resolver: by which key a scraped product is looked up, and the
//! product that is created where the lookup finds none.

use vstd::prelude::*;
use vstd::string::*;
use crate::error::{ErrorKind, ScrapeError};
use crate::models::page::{Page, PageId, PageKind, ValidCreatePagePayload};
use crate::models::product::{Product, ProductId, ValidCreateProductPayload};
use crate::models::product_price::{CreateProductPricePayload, ProductPrice, ProductPriceId};
use crate::models::store::{Store, StoreId, Timestamp, ValidCreateStorePayload};
use crate::scraper::kabum_product_handler::{
    creates_product,
    new_product_errors,
    KabumProductDescription,
    KabumProductHandler,
    TaskAction,
    TaskEvent,
};
use crate::scraper::QueuePage;
use crate::text::opt_str;

verus! {

/// The key by which a product is looked up.
#[derive(Debug)]
pub enum LookupKey {
    Ean(String),
    Gtin(String),
    Url(String),
}

/// The text of a lookup key.
pub enum KeyView {
    Ean(Seq<char>),
    Gtin(Seq<char>),
    Url(Seq<char>),
}

impl View for LookupKey {
    type V = KeyView;

    open spec fn view(&self) -> KeyView {
        match *self {
            LookupKey::Ean(s) => KeyView::Ean(s@),
            LookupKey::Gtin(s) => KeyView::Gtin(s@),
            LookupKey::Url(s) => KeyView::Url(s@),
        }
    }
}

/// The key under which an item's product is looked up: its EAN if it has one;
/// else its GTIN if it has one; else the serialization of its URL.
pub open spec fn item_key(item: QueuePage) -> KeyView {
    match (item.ean, item.gtin) {
        (Some(ean), _) => KeyView::Ean(ean@),
        (None, Some(gtin)) => KeyView::Gtin(gtin@),
        (None, None) => KeyView::Url(item.url@.text),
    }
}

/// The key under which an item's product is looked up.
pub fn lookup_key(item: &QueuePage) -> (r: LookupKey)
    ensures
        r@ == item_key(*item),
{
    match (&item.ean, &item.gtin) {
        (Some(ean), _) => LookupKey::Ean(ean.clone()),
        (None, Some(gtin)) => LookupKey::Gtin(gtin.clone()),
        (None, None) => LookupKey::Url(item.url.as_str().to_owned()),
    }
}

} // verus!

verus! {

/// What a catalog holds: its tables, each in the order in which its rows were
/// written.
pub struct CatalogView {
    pub stores: Seq<Store>,
    pub pages: Seq<Page>,
    pub products: Seq<Product>,
    pub prices: Seq<ProductPrice>,
}

/// The most rows that a table takes: keys are positive `i32` numbers.
pub const MAX_ROWS: usize = 0x7fff_ffff;

impl CatalogView {
    /// Whether a store has the key `id`.
    pub open spec fn has_store(self, id: i32) -> bool {
        1 <= id <= self.stores.len()
    }

    /// Whether a product has the key `id`.
    pub open spec fn has_product(self, id: i32) -> bool {
        1 <= id <= self.products.len()
    }

    /// The rows of each table are keyed 1, 2, 3 and so on in the order in
    /// which they were written; every page belongs to a store that exists;
    /// every price is of a product and at a store that exist, and is not
    /// negative.
    pub open spec fn wf(self) -> bool {
        &&& self.stores.len() <= MAX_ROWS
        &&& self.pages.len() <= MAX_ROWS
        &&& self.products.len() <= MAX_ROWS
        &&& self.prices.len() <= MAX_ROWS
        &&& forall|i: int| 0 <= i < self.stores.len() ==> (#[trigger] self.stores[i]).id.0 == i + 1
        &&& forall|i: int|
            0 <= i < self.pages.len() ==> {
                &&& (#[trigger] self.pages[i]).id.0 == i + 1
                &&& self.has_store(self.pages[i].store_id.0)
            }
        &&& forall|i: int|
            0 <= i < self.products.len() ==> (#[trigger] self.products[i]).id.0 == i + 1
        &&& forall|i: int|
            0 <= i < self.prices.len() ==> {
                &&& (#[trigger] self.prices[i]).id.0 == i + 1
                &&& self.has_product(self.prices[i].product_id.0)
                &&& self.has_store(self.prices[i].store_id.0)
                &&& self.prices[i].price >= 0
            }
    }

    /// Whether a payload to record a price passes: its product and its store
    /// exist, and its price is not negative.
    pub open spec fn accepts_price(self, payload: CreateProductPricePayload) -> bool {
        &&& self.has_product(payload.product_id)
        &&& self.has_store(payload.store_id)
        &&& payload.price >= 0
    }

    /// The row that records `payload` at the moment `now`.
    pub open spec fn price_row(self, payload: CreateProductPricePayload, now: Timestamp)
        -> ProductPrice
    {
        ProductPrice {
            id: ProductPriceId((self.prices.len() + 1) as i32),
            product_id: ProductId(payload.product_id),
            store_id: StoreId(payload.store_id),
            price: payload.price,
            active: true,
            created_at: now,
            updated_at: now,
            deleted_at: None,
        }
    }

    /// The catalog after a request to record `payload` at the moment `now`: a
    /// payload that passes adds its row behind all others, while there is a
    /// key left; nothing else ever changes.
    pub open spec fn record(self, payload: CreateProductPricePayload, now: Timestamp)
        -> CatalogView
    {
        if self.accepts_price(payload) && self.prices.len() < MAX_ROWS {
            CatalogView { prices: self.prices.push(self.price_row(payload, now)), ..self }
        } else {
            self
        }
    }

    /// The catalog after a sequence of requests to record a price.
    pub open spec fn record_all(
        self,
        requests: Seq<(CreateProductPricePayload, Timestamp)>,
    ) -> CatalogView
        decreases requests.len(),
    {
        if requests.len() == 0 {
            self
        } else {
            self.record_all(requests.drop_last()).record(requests.last().0, requests.last().1)
        }
    }
}

/// Whether `product` is found under `key`: it is active, and the field that
/// the key names holds the key's text.
pub open spec fn key_matches(product: Product, key: KeyView) -> bool {
    product.active && match key {
        KeyView::Ean(ean) => opt_str(product.ean) == Some(ean),
        KeyView::Gtin(gtin) => opt_str(product.gtin) == Some(gtin),
        KeyView::Url(url) => opt_str(product.url) == Some(url),
    }
}

/// The product that a lookup by `key` returns: the first hit, in the order in
/// which the products were written.
pub open spec fn find_product(products: Seq<Product>, key: KeyView) -> Option<Product>
    decreases products.len(),
{
    if products.len() == 0 {
        None
    } else if key_matches(products[0], key) {
        Some(products[0])
    } else {
        find_product(products.drop_first(), key)
    }
}

/// A product that a lookup returns is one of the products, and is found under
/// the key.
pub proof fn lemma_found_is_listed(products: Seq<Product>, key: KeyView)
    requires
        find_product(products, key) is Some,
    ensures
        exists|i: int|
            0 <= i < products.len() && #[trigger] products[i] == find_product(products, key)->0,
        key_matches(find_product(products, key)->0, key),
    decreases products.len(),
{
    if !key_matches(products[0], key) {
        let rest = products.drop_first();
        lemma_found_is_listed(rest, key);
        let i = choose|i: int|
            0 <= i < rest.len() && #[trigger] rest[i] == find_product(rest, key)->0;
        assert(products[i + 1] == rest[i]);
    }
}

/// A product written behind the others is found only where none of them is: a
/// lookup keeps returning what it returned before.
pub proof fn lemma_find_after_push(products: Seq<Product>, product: Product, key: KeyView)
    ensures
        find_product(products.push(product), key) == match find_product(products, key) {
            Some(found) => Some(found),
            None => if key_matches(product, key) {
                Some(product)
            } else {
                None
            },
        },
    decreases products.len(),
{
    let longer = products.push(product);
    if products.len() == 0 {
        assert(longer.drop_first() =~= Seq::<Product>::empty());
    } else {
        assert(longer[0] == products[0]);
        assert(longer.drop_first() =~= products.drop_first().push(product));
        lemma_find_after_push(products.drop_first(), product, key);
    }
}

/// Whether `product` is the row written for `payload` under the key `id` at
/// the moment `now`.
pub open spec fn product_row(
    product: Product,
    payload: ValidCreateProductPayload,
    id: int,
    now: Timestamp,
) -> bool {
    &&& product.id.0 == id
    &&& product.name == payload.name
    &&& product.brand == payload.brand
    &&& opt_str(product.url) == match payload.url {
        Some(url) => Some(url@.text),
        None => None,
    }
    &&& product.image == payload.image
    &&& product.ean == payload.ean
    &&& product.gtin == payload.gtin
    &&& product.active
    &&& product.created_at == now
    &&& product.updated_at == now
    &&& product.deleted_at is None
}

/// Whether resolving `item` with the vendor's `detail` at the moment `now`
/// leads from the catalog `before` to the catalog `after` and to `product`.
///
/// The product is looked up under the item's key. A hit is returned as it is
/// and nothing is written. Without a hit one product is written behind the
/// others, with the vendor's name and brand and the item's URL and hints.
pub open spec fn resolves(
    before: CatalogView,
    item: QueuePage,
    detail: KabumProductDescription,
    now: Timestamp,
    after: CatalogView,
    product: Product,
) -> bool {
    match find_product(before.products, item_key(item)) {
        Some(found) => after == before && product == found,
        None => {
            &&& after == (CatalogView { products: before.products.push(product), ..before })
            &&& exists|payload: ValidCreateProductPayload|
                #![trigger creates_product(payload, item, detail)]
                creates_product(payload, item, detail) && product_row(
                    product,
                    payload,
                    before.products.len() as int + 1,
                    now,
                )
        },
    }
}

/// Resolution is idempotent. Where an item with an EAN has been resolved,
/// resolving any item with the same EAN again, whatever else it holds and
/// whatever the vendor says then, returns the same product and writes
/// nothing: no second product is created for an EAN that is known.
pub proof fn lemma_resolution_is_idempotent(
    before: CatalogView,
    first: QueuePage,
    first_detail: KabumProductDescription,
    first_now: Timestamp,
    between: CatalogView,
    first_product: Product,
    second: QueuePage,
    second_detail: KabumProductDescription,
    second_now: Timestamp,
    after: CatalogView,
    second_product: Product,
)
    requires
        first.ean is Some,
        opt_str(second.ean) == opt_str(first.ean),
        resolves(before, first, first_detail, first_now, between, first_product),
        resolves(between, second, second_detail, second_now, after, second_product),
    ensures
        second_product == first_product,
        second_product.id == first_product.id,
        after == between,
        after.products.len() == between.products.len(),
{
    let key = item_key(first);
    assert(item_key(second) == key);
    match find_product(before.products, key) {
        Some(found) => {},
        None => {
            lemma_find_after_push(before.products, first_product, key);
        },
    }
}

/// Price observations are append-only. After any sequence of requests to
/// record a price, every row that was there is still there, in its place and
/// as it was; no other table has changed; and the keys of the rows are all
/// different.
pub proof fn lemma_prices_append_only(
    before: CatalogView,
    requests: Seq<(CreateProductPricePayload, Timestamp)>,
)
    requires
        before.wf(),
    ensures
        ({
            let after = before.record_all(requests);
            &&& after.wf()
            &&& after.stores == before.stores
            &&& after.pages == before.pages
            &&& after.products == before.products
            &&& before.prices.len() <= after.prices.len() <= before.prices.len() + requests.len()
            &&& after.prices.take(before.prices.len() as int) == before.prices
            &&& forall|i: int, j: int|
                0 <= i < j < after.prices.len() ==> after.prices[i].id != after.prices[j].id
        }),
    decreases requests.len(),
{
    if requests.len() == 0 {
        assert(before.prices.take(before.prices.len() as int) =~= before.prices);
    } else {
        lemma_prices_append_only(before, requests.drop_last());
        let middle = before.record_all(requests.drop_last());
        let after = middle.record(requests.last().0, requests.last().1);
        assert(after.prices.take(before.prices.len() as int) =~= middle.prices.take(
            before.prices.len() as int,
        ));
    }
}

/// Every request that passes adds a row: where all of `requests` name a
/// product and a store that exist, with a price that is not negative, and the
/// keys last, the catalog holds one more row for each, in their order.
pub proof fn lemma_each_observation_is_a_row(
    before: CatalogView,
    requests: Seq<(CreateProductPricePayload, Timestamp)>,
)
    requires
        before.wf(),
        before.prices.len() + requests.len() <= MAX_ROWS,
        forall|k: int| 0 <= k < requests.len() ==> before.accepts_price((#[trigger] requests[k]).0),
    ensures
        ({
            let after = before.record_all(requests);
            &&& after.prices.len() == before.prices.len() + requests.len()
            &&& forall|k: int|
                0 <= k < requests.len() ==> {
                    let row = #[trigger] after.prices[before.prices.len() + k];
                    &&& row.id.0 == before.prices.len() + k + 1
                    &&& row.product_id.0 == requests[k].0.product_id
                    &&& row.store_id.0 == requests[k].0.store_id
                    &&& row.price == requests[k].0.price
                    &&& row.created_at == requests[k].1
                }
        }),
    decreases requests.len(),
{
    if requests.len() > 0 {
        let shorter = requests.drop_last();
        assert forall|k: int| 0 <= k < shorter.len() implies before.accepts_price(
            (#[trigger] shorter[k]).0,
        ) by {
            assert(shorter[k] == requests[k]);
        }
        lemma_each_observation_is_a_row(before, shorter);
        lemma_prices_append_only(before, shorter);
        let middle = before.record_all(shorter);
        let last = requests.last();
        assert(before.accepts_price(requests[requests.len() - 1].0));
        assert(middle.accepts_price(last.0));
        let after = middle.record(last.0, last.1);
        assert forall|k: int| 0 <= k < requests.len() implies {
            let row = #[trigger] after.prices[before.prices.len() + k];
            &&& row.id.0 == before.prices.len() + k + 1
            &&& row.product_id.0 == requests[k].0.product_id
            &&& row.store_id.0 == requests[k].0.store_id
            &&& row.price == requests[k].0.price
            &&& row.created_at == requests[k].1
        } by {
            if k < shorter.len() {
                assert(after.prices[before.prices.len() + k] == middle.prices[before.prices.len()
                    + k]);
                assert(shorter[k] == requests[k]);
            }
        }
    }
}

} // verus!

verus! {

/// The active search pages among `pages`, in their order.
pub open spec fn active_search_pages(pages: Seq<Page>) -> Seq<Page>
    decreases pages.len(),
{
    if pages.len() == 0 {
        Seq::<Page>::empty()
    } else {
        let head = active_search_pages(pages.drop_last());
        if pages.last().active && pages.last().page_kind == PageKind::Search {
            head.push(pages.last())
        } else {
            head
        }
    }
}

/// Whether a request to create a product, made of the catalog `before` at the
/// moment `now`, led to the catalog `after` and the answer `answer`. While a
/// key is left the product is written behind the others; else the request
/// fails with a storage error and nothing is written.
pub open spec fn product_created(
    before: CatalogView,
    payload: ValidCreateProductPayload,
    now: Timestamp,
    after: CatalogView,
    answer: Result<Product, ScrapeError>,
) -> bool {
    match answer {
        Ok(product) => {
            &&& before.products.len() < MAX_ROWS
            &&& after == (CatalogView { products: before.products.push(product), ..before })
            &&& product_row(product, payload, before.products.len() as int + 1, now)
        },
        Err(error) => {
            &&& before.products.len() >= MAX_ROWS
            &&& after == before
            &&& error.kind == ErrorKind::Storage
            &&& error.message@ == "no key is left for another product"@
        },
    }
}

/// Whether a request to record a price, made of the catalog `before` at the
/// moment `now`, led to the catalog `after` and the answer `answer`. A payload
/// that names a product or a store that does not exist, or a negative price,
/// fails with a validation error; else, without a key left, with a storage
/// error; either way no row is written. Otherwise the row is written behind
/// the others.
pub open spec fn price_recorded(
    before: CatalogView,
    payload: CreateProductPricePayload,
    now: Timestamp,
    after: CatalogView,
    answer: Result<ProductPrice, ScrapeError>,
) -> bool {
    &&& after == before.record(payload, now)
    &&& match answer {
        Ok(row) => {
            &&& before.accepts_price(payload)
            &&& before.prices.len() < MAX_ROWS
            &&& row == before.price_row(payload, now)
        },
        Err(error) => if !before.accepts_price(payload) {
            &&& error.kind == ErrorKind::Validation
            &&& error.message@ == "invalid payload"@
        } else {
            &&& before.prices.len() >= MAX_ROWS
            &&& error.kind == ErrorKind::Storage
            &&& error.message@ == "no key is left for another price"@
        },
    }
}

/// A catalog held in memory: the stores, the pages, the products and the
/// price observations, with the operations of the persistence gateway.
#[derive(Debug)]
pub struct Catalog {
    stores: Vec<Store>,
    pages: Vec<Page>,
    products: Vec<Product>,
    prices: Vec<ProductPrice>,
}

impl View for Catalog {
    type V = CatalogView;

    closed spec fn view(&self) -> CatalogView {
        CatalogView {
            stores: self.stores@,
            pages: self.pages@,
            products: self.products@,
            prices: self.prices@,
        }
    }
}

/// Whether an optional text is there and holds the characters of `text`.
fn text_is(field: &Option<String>, text: &String) -> (r: bool)
    ensures
        r == (opt_str(*field) == Some(text@)),
{
    match field {
        Some(held) => *held == *text,
        None => false,
    }
}

/// Whether a product is found under a key.
fn product_matches(product: &Product, key: &LookupKey) -> (r: bool)
    ensures
        r == key_matches(*product, key@),
{
    product.active && match key {
        LookupKey::Ean(ean) => text_is(&product.ean, ean),
        LookupKey::Gtin(gtin) => text_is(&product.gtin, gtin),
        LookupKey::Url(url) => text_is(&product.url, url),
    }
}

impl Catalog {
    /// Whether the catalog is well formed (see `CatalogView::wf`).
    pub open spec fn wf(&self) -> bool {
        self@.wf()
    }

    /// An empty catalog.
    pub fn new() -> (r: Self)
        ensures
            r.wf(),
            r@.stores.len() == 0,
            r@.pages.len() == 0,
            r@.products.len() == 0,
            r@.prices.len() == 0,
    {
        Catalog { stores: Vec::new(), pages: Vec::new(), products: Vec::new(), prices: Vec::new() }
    }

    /// The stores, in the order in which they were written.
    pub fn stores(&self) -> (r: &Vec<Store>)
        ensures
            r@ == self@.stores,
    {
        &self.stores
    }

    /// The pages, in the order in which they were written.
    pub fn pages(&self) -> (r: &Vec<Page>)
        ensures
            r@ == self@.pages,
    {
        &self.pages
    }

    /// The products, in the order in which they were written.
    pub fn products(&self) -> (r: &Vec<Product>)
        ensures
            r@ == self@.products,
    {
        &self.products
    }

    /// The price observations, in the order in which they were written.
    pub fn prices(&self) -> (r: &Vec<ProductPrice>)
        ensures
            r@ == self@.prices,
    {
        &self.prices
    }

    /// Writes a store. It is active and gets the next key; without a key left
    /// the request fails with a storage error and nothing is written.
    pub fn create_store(&mut self, payload: ValidCreateStorePayload, now: Timestamp) -> (r: Result<
        Store,
        ScrapeError,
    >)
        requires
            old(self).wf(),
        ensures
            final(self).wf(),
            match r {
                Ok(store) => {
                    &&& old(self)@.stores.len() < MAX_ROWS
                    &&& final(self)@ == (CatalogView {
                        stores: old(self)@.stores.push(store),
                        ..old(self)@
                    })
                    &&& store == (Store {
                        id: StoreId((old(self)@.stores.len() + 1) as i32),
                        name: payload.name,
                        url: payload.url,
                        active: true,
                        created_at: now,
                        updated_at: now,
                        deleted_at: None,
                    })
                },
                Err(error) => {
                    &&& old(self)@.stores.len() >= MAX_ROWS
                    &&& final(self)@ == old(self)@
                    &&& error.kind == ErrorKind::Storage
                    &&& error.message@ == "no key is left for another store"@
                },
            },
    {
        if self.stores.len() >= MAX_ROWS {
            return Err(ScrapeError::new(ErrorKind::Storage, "no key is left for another store"));
        }
        let store = Store {
            id: StoreId::new_unchecked((self.stores.len() + 1) as i32),
            name: payload.name,
            url: payload.url,
            active: true,
            created_at: now,
            updated_at: now,
            deleted_at: None,
        };
        self.stores.push(store.clone());
        Ok(store)
    }

    /// Writes a page, with the given hints. It is active and gets the next
    /// key. A page of a store that does not exist fails with a validation
    /// error, and without a key left the request fails with a storage error;
    /// either way nothing is written.
    pub fn create_page(
        &mut self,
        payload: ValidCreatePagePayload,
        ean: Option<String>,
        gtin: Option<String>,
        now: Timestamp,
    ) -> (r: Result<Page, ScrapeError>)
        requires
            old(self).wf(),
        ensures
            final(self).wf(),
            match r {
                Ok(page) => {
                    &&& old(self)@.has_store(payload.store_id.0)
                    &&& old(self)@.pages.len() < MAX_ROWS
                    &&& final(self)@ == (CatalogView {
                        pages: old(self)@.pages.push(page),
                        ..old(self)@
                    })
                    &&& page == (Page {
                        id: PageId((old(self)@.pages.len() + 1) as i32),
                        name: payload.name,
                        url: payload.url,
                        store_id: payload.store_id,
                        handler: payload.handler,
                        page_kind: payload.page_kind,
                        ean,
                        gtin,
                        active: true,
                        created_at: now,
                        updated_at: now,
                        deleted_at: None,
                    })
                },
                Err(error) => {
                    &&& final(self)@ == old(self)@
                    &&& if !old(self)@.has_store(payload.store_id.0) {
                        &&& error.kind == ErrorKind::Validation
                        &&& error.message@ == "store does not exist"@
                    } else {
                        &&& old(self)@.pages.len() >= MAX_ROWS
                        &&& error.kind == ErrorKind::Storage
                        &&& error.message@ == "no key is left for another page"@
                    }
                },
            },
    {
        if !self.has_store(payload.store_id) {
            return Err(ScrapeError::new(ErrorKind::Validation, "store does not exist"));
        }
        if self.pages.len() >= MAX_ROWS {
            return Err(ScrapeError::new(ErrorKind::Storage, "no key is left for another page"));
        }
        let page = Page {
            id: PageId::new_unchecked((self.pages.len() + 1) as i32),
            name: payload.name,
            url: payload.url,
            store_id: payload.store_id,
            handler: payload.handler,
            page_kind: payload.page_kind,
            ean,
            gtin,
            active: true,
            created_at: now,
            updated_at: now,
            deleted_at: None,
        };
        self.pages.push(page.clone());
        Ok(page)
    }

    /// Whether a store has the key `id`.
    pub fn has_store(&self, id: StoreId) -> (r: bool)
        ensures
            r == self@.has_store(id.0),
    {
        id.inner() >= 1 && id.inner() as usize <= self.stores.len()
    }

    /// Whether a product has the key `id`.
    pub fn has_product(&self, id: ProductId) -> (r: bool)
        ensures
            r == self@.has_product(id.0),
    {
        id.inner() >= 1 && id.inner() as usize <= self.products.len()
    }

    /// The active search pages, in the order in which they were written.
    pub fn list_active_search_pages(&self) -> (r: Vec<Page>)
        ensures
            r@ == active_search_pages(self@.pages),
    {
        let mut found: Vec<Page> = Vec::new();
        let mut i: usize = 0;
        proof {
            assert(self.pages@.take(0) =~= Seq::<Page>::empty());
        }
        while i < self.pages.len()
            invariant
                i <= self.pages@.len(),
                found@ == active_search_pages(self.pages@.take(i as int)),
            decreases self.pages@.len() - i,
        {
            proof {
                assert(self.pages@.take(i + 1).drop_last() =~= self.pages@.take(i as int));
                assert(self.pages@.take(i + 1).last() == self.pages@[i as int]);
            }
            let page = &self.pages[i];
            let is_search = match page.page_kind {
                PageKind::Search => true,
                PageKind::Details => false,
            };
            if page.active && is_search {
                found.push(page.clone());
            }
            i = i + 1;
        }
        proof {
            assert(self.pages@.take(i as int) =~= self.pages@);
        }
        found
    }

    /// The store with the key `id`, if there is one.
    pub fn get_store(&self, id: StoreId) -> (r: Option<Store>)
        requires
            self.wf(),
        ensures
            match r {
                Some(store) => self@.has_store(id.0) && store == self@.stores[id.0 - 1] && store.id
                    == id,
                None => !self@.has_store(id.0),
            },
    {
        if self.has_store(id) {
            let index: usize = (id.inner() - 1) as usize;
            Some(self.stores[index].clone())
        } else {
            None
        }
    }

    /// Looks a product up: the first active product whose field named by the
    /// key holds the key's text, as it is.
    pub fn find_product(&self, key: &LookupKey) -> (r: Option<Product>)
        ensures
            r == find_product(self@.products, key@),
    {
        let mut i: usize = 0;
        proof {
            assert(self.products@.skip(0) =~= self.products@);
        }
        while i < self.products.len()
            invariant
                i <= self.products@.len(),
                find_product(self.products@, key@) == find_product(
                    self.products@.skip(i as int),
                    key@,
                ),
            decreases self.products@.len() - i,
        {
            proof {
                let rest = self.products@.skip(i as int);
                assert(rest[0] == self.products@[i as int]);
                assert(rest.drop_first() =~= self.products@.skip(i + 1));
            }
            if product_matches(&self.products[i], key) {
                return Some(self.products[i].clone());
            }
            i = i + 1;
        }
        None
    }

    /// The first active product with the given EAN.
    pub fn find_product_by_ean(&self, ean: &str) -> (r: Option<Product>)
        ensures
            r == find_product(self@.products, KeyView::Ean(ean@)),
    {
        self.find_product(&LookupKey::Ean(ean.to_owned()))
    }

    /// The first active product with the given GTIN.
    pub fn find_product_by_gtin(&self, gtin: &str) -> (r: Option<Product>)
        ensures
            r == find_product(self@.products, KeyView::Gtin(gtin@)),
    {
        self.find_product(&LookupKey::Gtin(gtin.to_owned()))
    }

    /// The first active product with exactly the given URL.
    pub fn find_product_by_url(&self, url: &str) -> (r: Option<Product>)
        ensures
            r == find_product(self@.products, KeyView::Url(url@)),
    {
        self.find_product(&LookupKey::Url(url.to_owned()))
    }

    /// Writes a product. It is active, gets the next key, and its timestamps
    /// are `now`.
    pub fn create_product(&mut self, payload: ValidCreateProductPayload, now: Timestamp) -> (r:
        Result<Product, ScrapeError>)
        requires
            old(self).wf(),
        ensures
            final(self).wf(),
            product_created(old(self)@, payload, now, final(self)@, r),
    {
        if self.products.len() >= MAX_ROWS {
            return Err(
                ScrapeError::new(ErrorKind::Storage, "no key is left for another product"),
            );
        }
        let url = match &payload.url {
            Some(url) => Some(url.as_str().to_owned()),
            None => None,
        };
        let product = Product {
            id: ProductId::new_unchecked((self.products.len() + 1) as i32),
            name: payload.name,
            brand: payload.brand,
            url,
            image: payload.image,
            ean: payload.ean,
            gtin: payload.gtin,
            active: true,
            created_at: now,
            updated_at: now,
            deleted_at: None,
        };
        self.products.push(product.clone());
        Ok(product)
    }

    /// Records a price observed at the moment `now`.
    pub fn create_product_price(&mut self, payload: CreateProductPricePayload, now: Timestamp) -> (r:
        Result<ProductPrice, ScrapeError>)
        requires
            old(self).wf(),
        ensures
            final(self).wf(),
            price_recorded(old(self)@, payload, now, final(self)@, r),
    {
        let product_exists = self.has_product(ProductId::new_unchecked(payload.product_id));
        let store_exists = self.has_store(StoreId::new_unchecked(payload.store_id));
        let valid = match payload.parse(product_exists, store_exists) {
            Ok(valid) => valid,
            Err(e) => {
                return Err(ScrapeError::from_app(&e));
            },
        };
        if self.prices.len() >= MAX_ROWS {
            return Err(ScrapeError::new(ErrorKind::Storage, "no key is left for another price"));
        }
        let row = ProductPrice {
            id: ProductPriceId::new_unchecked((self.prices.len() + 1) as i32),
            product_id: valid.product_id,
            store_id: valid.store_id,
            price: valid.price,
            active: true,
            created_at: now,
            updated_at: now,
            deleted_at: None,
        };
        self.prices.push(row);
        Ok(row)
    }

    /// Resolves an item to its product: a lookup under the item's key, and
    /// where it finds none, the creation of the product from the vendor's
    /// detail payload. It fails, and writes nothing, exactly where there is no
    /// hit and the new product breaks a rule for products (a validation error)
    /// or no key is left (a storage error).
    pub fn resolve(&mut self, item: &QueuePage, detail: &KabumProductDescription, now: Timestamp)
        -> (r: Result<Product, ScrapeError>)
        requires
            old(self).wf(),
        ensures
            final(self).wf(),
            match r {
                Ok(product) => resolves(old(self)@, *item, *detail, now, final(self)@, product),
                Err(error) => {
                    &&& final(self)@ == old(self)@
                    &&& find_product(old(self)@.products, item_key(*item)) is None
                    &&& error.kind == if new_product_errors(*item, *detail).len() > 0 {
                        ErrorKind::Validation
                    } else {
                        ErrorKind::Storage
                    }
                    &&& new_product_errors(*item, *detail).len() > 0 || old(self)@.products.len()
                        >= MAX_ROWS
                },
            },
    {
        let key = lookup_key(item);
        match self.find_product(&key) {
            Some(found) => Ok(found),
            None => {
                let payload = match KabumProductHandler::new_product(item, detail) {
                    Ok(payload) => payload,
                    Err(e) => {
                        return Err(ScrapeError::from_app(&e));
                    },
                };
                let created = self.create_product(payload, now);
                proof {
                    if created is Ok {
                        assert(creates_product(payload, *item, *detail));
                    }
                }
                created
            },
        }
    }

    /// Does for an item what its handler asked of the gateway, and says what
    /// came of it. A lookup changes nothing; a product or a price is written
    /// as `create_product` and `create_product_price` say. Fetching is not the
    /// catalog's to do, and an item that has ended asks nothing: both give
    /// `None`.
    pub fn perform(&mut self, action: TaskAction, now: Timestamp) -> (r: Option<TaskEvent>)
        requires
            old(self).wf(),
        ensures
            final(self).wf(),
            match action {
                TaskAction::Find(key) => {
                    &&& final(self)@ == old(self)@
                    &&& r == Some(
                        TaskEvent::Looked(
                            Ok::<Option<Product>, ScrapeError>(
                                find_product(old(self)@.products, key@),
                            ),
                        ),
                    )
                },
                TaskAction::CreateProduct(payload) => {
                    &&& r matches Some(TaskEvent::ProductCreated(answer))
                    &&& product_created(old(self)@, payload, now, final(self)@, answer)
                },
                TaskAction::CreatePrice(payload) => {
                    &&& r matches Some(TaskEvent::PriceCreated(answer))
                    &&& price_recorded(old(self)@, payload, now, final(self)@, answer)
                },
                TaskAction::Fetch(_) => r is None && final(self)@ == old(self)@,
                TaskAction::Stop => r is None && final(self)@ == old(self)@,
            },
    {
        match action {
            TaskAction::Find(key) => Some(TaskEvent::Looked(Ok(self.find_product(&key)))),
            TaskAction::CreateProduct(payload) => Some(
                TaskEvent::ProductCreated(self.create_product(payload, now)),
            ),
            TaskAction::CreatePrice(payload) => Some(
                TaskEvent::PriceCreated(self.create_product_price(payload, now)),
            ),
            TaskAction::Fetch(_) => None,
            TaskAction::Stop => None,
        }
    }
}

} // verus!
