//! Fetching one product of the Kabum storefront: from an item of the queue to
//! a recorded price, one decision at a time.
//!
//! The handler decides and the driver acts: `KabumProductHandler::step` takes
//! the state of an item and what has just happened, and says what the item's
//! state is now and what is to be done for it next.

use vstd::prelude::*;
use vstd::string::*;
use crate::catalog::{item_key, lookup_key, LookupKey};
use crate::error::{AppError, ErrorKind, ScrapeError};
use crate::models::page::PageHandler;
use crate::models::product::{
    clone_opt_string,
    product_payload_errors,
    CreateProductPayload,
    Product,
    ValidCreateProductPayload,
};
use crate::models::product_price::{CreateProductPricePayload, ProductPrice};
use crate::scraper::QueuePage;
use crate::text::{nth_piece, opt_str};
use crate::web_url::{opt_url, url_parse, WebUrl};

verus! {

/// The endpoint of the vendor's detail service; a product's identifier is
/// appended to it.
pub const DETAIL_ENDPOINT: &'static str =
    "https://servicespub.prod.api.aws.grupokabum.com.br/descricao/v1/descricao/produto/";

/// Which piece of a product page's path holds the product's identifier: in
/// `/produto/<identifier>/...` it is the piece at position 2, the piece before
/// the first slash being empty.
pub const PRODUCT_ID_PIECE: usize = 2;

/// The manufacturer in the vendor's detail payload.
#[derive(Debug)]
pub struct KabumManufacturer {
    pub id: u64,
    pub name: String,
}

/// The vendor's detail payload for one product. Prices are in hundredths of
/// the currency unit.
#[derive(Debug)]
pub struct KabumProductDescription {
    pub id: u64,
    pub name: String,
    pub availability: bool,
    pub manufacturer: KabumManufacturer,
    pub price: i64,
    pub old_price: i64,
    pub discount_price: i64,
}

/// Reads product pages of the Kabum storefront through the vendor's detail
/// service.
#[derive(Debug)]
pub struct KabumProductHandler {
    pub api: String,
}

/// The state of one item of the queue.
#[derive(Debug)]
pub enum DetailTask {
    /// Not started.
    Pending { item: QueuePage },
    /// The vendor's detail payload is being fetched.
    Fetching { item: QueuePage },
    /// The payload is here; the product is being looked up.
    Resolving { item: QueuePage, detail: KabumProductDescription },
    /// No product was found; one is being created.
    Creating { item: QueuePage, detail: KabumProductDescription },
    /// The product is known; its price is being recorded.
    Resolved { product: Product },
    /// The price is recorded.
    Persisted { price: ProductPrice },
    /// The item failed and is dropped.
    Failed { error: ScrapeError },
}

/// The phases that an item goes through: from `Pending` to `Fetching`, from
/// there to `Resolved` and on to `Persisted`, or to `Failed`.
#[derive(Debug, Clone, Copy, PartialEq, Eq, Structural)]
pub enum TaskPhase {
    Pending,
    Fetching,
    Resolved,
    Persisted,
    Failed,
}

/// What has happened for an item.
#[derive(Debug)]
pub enum TaskEvent {
    /// The item's turn has come.
    Start,
    /// The vendor's detail service has answered, or failed.
    Fetched(Result<KabumProductDescription, ScrapeError>),
    /// The lookup has found a product or none, or failed.
    Looked(Result<Option<Product>, ScrapeError>),
    /// The product has been created, or could not be.
    ProductCreated(Result<Product, ScrapeError>),
    /// The price has been recorded, or could not be.
    PriceCreated(Result<ProductPrice, ScrapeError>),
}

/// What is to be done for an item.
#[derive(Debug)]
pub enum TaskAction {
    /// Fetch the detail payload from this URL.
    Fetch(WebUrl),
    /// Look the product up by this key.
    Find(LookupKey),
    /// Create this product.
    CreateProduct(ValidCreateProductPayload),
    /// Record this price.
    CreatePrice(CreateProductPricePayload),
    /// Nothing: the item has ended.
    Stop,
}

impl DetailTask {
    /// The phase of the item. While the product is looked up or created the
    /// item is still fetching.
    pub open spec fn phase_of(self) -> TaskPhase {
        match self {
            DetailTask::Pending { .. } => TaskPhase::Pending,
            DetailTask::Fetching { .. } => TaskPhase::Fetching,
            DetailTask::Resolving { .. } => TaskPhase::Fetching,
            DetailTask::Creating { .. } => TaskPhase::Fetching,
            DetailTask::Resolved { .. } => TaskPhase::Resolved,
            DetailTask::Persisted { .. } => TaskPhase::Persisted,
            DetailTask::Failed { .. } => TaskPhase::Failed,
        }
    }

    /// Whether the item has ended.
    pub open spec fn is_terminal(self) -> bool {
        self is Persisted || self is Failed
    }

    /// The task for an item whose turn has not come.
    pub fn new(item: QueuePage) -> (r: Self)
        ensures
            r == (DetailTask::Pending { item }),
    {
        DetailTask::Pending { item }
    }

    /// The phase of the item.
    pub fn phase(&self) -> (r: TaskPhase)
        ensures
            r == self.phase_of(),
    {
        match self {
            DetailTask::Pending { .. } => TaskPhase::Pending,
            DetailTask::Fetching { .. } => TaskPhase::Fetching,
            DetailTask::Resolving { .. } => TaskPhase::Fetching,
            DetailTask::Creating { .. } => TaskPhase::Fetching,
            DetailTask::Resolved { .. } => TaskPhase::Resolved,
            DetailTask::Persisted { .. } => TaskPhase::Persisted,
            DetailTask::Failed { .. } => TaskPhase::Failed,
        }
    }

    /// Whether the item has ended, recorded or failed.
    pub fn ended(&self) -> (r: bool)
        ensures
            r == self.is_terminal(),
    {
        match self {
            DetailTask::Persisted { .. } => true,
            DetailTask::Failed { .. } => true,
            _ => false,
        }
    }
}

/// Whether `task` is failed with an error of the given kind and text.
pub open spec fn failed_with(task: DetailTask, kind: ErrorKind, message: Seq<char>) -> bool {
    task matches DetailTask::Failed { error } && error.kind == kind && error.message@ == message
}

/// Whether `action` records `price` for `product` at the store of `item`.
pub open spec fn records_price(action: TaskAction, product: Product, store_id: i32, price: i64)
    -> bool
{
    action == TaskAction::CreatePrice(
        CreateProductPricePayload { product_id: product.id.0, store_id, price },
    )
}

/// Whether `payload` is the product that is created for `item` from `detail`:
/// the name and the brand are the vendor's, the URL and the hints are the
/// item's, and there is no image.
pub open spec fn creates_product(
    payload: ValidCreateProductPayload,
    item: QueuePage,
    detail: KabumProductDescription,
) -> bool {
    &&& payload.name == detail.name
    &&& payload.brand == detail.manufacturer.name
    &&& opt_url(payload.url) == url_parse(item.url@.text)
    &&& payload.url is Some
    &&& payload.image is None
    &&& payload.ean == item.ean
    &&& payload.gtin == item.gtin
}

/// The rules that the product created for `item` from `detail` breaks.
pub open spec fn new_product_errors(item: QueuePage, detail: KabumProductDescription) -> Seq<
    crate::error::FieldErrorView,
> {
    product_payload_errors(detail.name@, detail.manufacturer.name@, Some(item.url@.text))
}

impl KabumProductHandler {
    /// What a step makes of a task and an event: the next state `next` and the
    /// action `action`.
    pub open spec fn steps(
        self,
        task: DetailTask,
        event: TaskEvent,
        next: DetailTask,
        action: TaskAction,
    ) -> bool {
        match (task, event) {
            (DetailTask::Pending { item }, TaskEvent::Start) => {
                if item.handler != PageHandler::KabumProduct {
                    &&& failed_with(
                        next,
                        ErrorKind::Validation,
                        "page handler does not read product pages"@,
                    )
                    &&& action is Stop
                } else {
                    match nth_piece(item.url@.path, '/', PRODUCT_ID_PIECE as int) {
                        None => {
                            &&& failed_with(
                                next,
                                ErrorKind::Validation,
                                "malformed product url "@ + item.url@.text,
                            )
                            &&& action is Stop
                        },
                        Some(id) => match url_parse(self.api@ + id) {
                            Some(url) => {
                                &&& next == (DetailTask::Fetching { item })
                                &&& action matches TaskAction::Fetch(u)
                                &&& u@ == url
                            },
                            None => {
                                &&& failed_with(next, ErrorKind::Fetch, "malformed detail url"@)
                                &&& action is Stop
                            },
                        },
                    }
                }
            },
            (DetailTask::Fetching { item }, TaskEvent::Fetched(Ok(detail))) => {
                &&& next == (DetailTask::Resolving { item, detail })
                &&& action matches TaskAction::Find(key)
                &&& key@ == item_key(item)
            },
            (DetailTask::Fetching { item }, TaskEvent::Fetched(Err(error))) => {
                &&& next == (DetailTask::Failed { error })
                &&& action is Stop
            },
            (DetailTask::Resolving { item, detail }, TaskEvent::Looked(Ok(Some(product)))) => {
                &&& next == (DetailTask::Resolved { product })
                &&& records_price(action, product, item.store_id.0, detail.price)
            },
            (DetailTask::Resolving { item, detail }, TaskEvent::Looked(Ok(None))) => {
                if new_product_errors(item, detail).len() == 0 {
                    &&& next == (DetailTask::Creating { item, detail })
                    &&& action matches TaskAction::CreateProduct(payload)
                    &&& creates_product(payload, item, detail)
                } else {
                    &&& failed_with(next, ErrorKind::Validation, "invalid payload"@)
                    &&& action is Stop
                }
            },
            (DetailTask::Resolving { .. }, TaskEvent::Looked(Err(error))) => {
                &&& next == (DetailTask::Failed { error })
                &&& action is Stop
            },
            (DetailTask::Creating { item, detail }, TaskEvent::ProductCreated(Ok(product))) => {
                &&& next == (DetailTask::Resolved { product })
                &&& records_price(action, product, item.store_id.0, detail.price)
            },
            (DetailTask::Creating { .. }, TaskEvent::ProductCreated(Err(error))) => {
                &&& next == (DetailTask::Failed { error })
                &&& action is Stop
            },
            (DetailTask::Resolved { .. }, TaskEvent::PriceCreated(Ok(price))) => {
                &&& next == (DetailTask::Persisted { price })
                &&& action is Stop
            },
            (DetailTask::Resolved { .. }, TaskEvent::PriceCreated(Err(error))) => {
                &&& next == (DetailTask::Failed { error })
                &&& action is Stop
            },
            (DetailTask::Persisted { .. }, _) => {
                &&& next == task
                &&& action is Stop
            },
            (DetailTask::Failed { .. }, _) => {
                &&& next == task
                &&& action is Stop
            },
            _ => {
                &&& failed_with(
                    next,
                    ErrorKind::Validation,
                    "event does not fit the state of the item"@,
                )
                &&& action is Stop
            },
        }
    }

    /// The handler for the vendor's detail service.
    pub fn new() -> (r: Self)
        ensures
            r.api@ == DETAIL_ENDPOINT@,
    {
        Self { api: DETAIL_ENDPOINT.to_owned() }
    }

    /// The identifier of the product that an item's URL names: the piece of
    /// its path at `PRODUCT_ID_PIECE`. `None` where the path has no such piece.
    pub fn product_id(item: &QueuePage) -> (r: Option<String>)
        ensures
            opt_str(r) == nth_piece(item.url@.path, '/', PRODUCT_ID_PIECE as int),
    {
        item.url.path_piece(PRODUCT_ID_PIECE)
    }

    /// The URL of the detail payload of the product `product_id`: the endpoint
    /// with the identifier appended, if that parses.
    pub fn detail_url(&self, product_id: &str) -> (r: Option<WebUrl>)
        ensures
            opt_url(r) == url_parse(self.api@ + product_id@),
    {
        let text = self.api.clone().concat(product_id);
        WebUrl::parse(text.as_str())
    }

    /// The product that is created for `item` from `detail` where the lookup
    /// found none, if it passes the rules for products.
    pub fn new_product(item: &QueuePage, detail: &KabumProductDescription) -> (r: Result<
        ValidCreateProductPayload,
        AppError,
    >)
        ensures
            match r {
                Ok(payload) => {
                    &&& new_product_errors(*item, *detail).len() == 0
                    &&& creates_product(payload, *item, *detail)
                },
                Err(e) => {
                    &&& new_product_errors(*item, *detail).len() > 0
                    &&& e matches AppError::ValidationError(errors)
                    &&& errors@ == new_product_errors(*item, *detail)
                },
            },
    {
        let payload = CreateProductPayload {
            name: detail.name.clone(),
            brand: detail.manufacturer.name.clone(),
            url: Some(item.url.as_str().to_owned()),
            image: None,
            ean: clone_opt_string(&item.ean),
            gtin: clone_opt_string(&item.gtin),
        };
        payload.parse()
    }

    /// The price that is recorded for `product` at the store `store_id`.
    pub fn price_payload(product: &Product, store_id: i32, price: i64) -> (r:
        CreateProductPricePayload)
        ensures
            r == (CreateProductPricePayload { product_id: product.id.0, store_id, price }),
    {
        CreateProductPricePayload { product_id: product.id.inner(), store_id, price }
    }

    /// Takes one step for an item: from its state and what has happened to its
    /// next state and what is to be done. Any failure ends the item as
    /// `Failed`, and only the item; an item that has ended stays as it is.
    pub fn step(&self, task: DetailTask, event: TaskEvent) -> (r: (DetailTask, TaskAction))
        ensures
            self.steps(task, event, r.0, r.1),
    {
        match (task, event) {
            (DetailTask::Pending { item }, TaskEvent::Start) => {
                match item.handler {
                    PageHandler::KabumSearch => {
                        return (
                            DetailTask::Failed {
                                error: ScrapeError::new(
                                    ErrorKind::Validation,
                                    "page handler does not read product pages",
                                ),
                            },
                            TaskAction::Stop,
                        );
                    },
                    PageHandler::KabumProduct => {},
                }
                match Self::product_id(&item) {
                    None => {
                        let message = "malformed product url ".to_owned().concat(
                            item.url.as_str(),
                        );
                        (
                            DetailTask::Failed {
                                error: ScrapeError { kind: ErrorKind::Validation, message },
                            },
                            TaskAction::Stop,
                        )
                    },
                    Some(id) => match self.detail_url(id.as_str()) {
                        Some(url) => (DetailTask::Fetching { item }, TaskAction::Fetch(url)),
                        None => (
                            DetailTask::Failed {
                                error: ScrapeError::new(ErrorKind::Fetch, "malformed detail url"),
                            },
                            TaskAction::Stop,
                        ),
                    },
                }
            },
            (DetailTask::Fetching { item }, TaskEvent::Fetched(Ok(detail))) => {
                let key = lookup_key(&item);
                (DetailTask::Resolving { item, detail }, TaskAction::Find(key))
            },
            (DetailTask::Fetching { item }, TaskEvent::Fetched(Err(error))) => {
                (DetailTask::Failed { error }, TaskAction::Stop)
            },
            (DetailTask::Resolving { item, detail }, TaskEvent::Looked(Ok(Some(product)))) => {
                let payload = Self::price_payload(&product, item.store_id.inner(), detail.price);
                (DetailTask::Resolved { product }, TaskAction::CreatePrice(payload))
            },
            (DetailTask::Resolving { item, detail }, TaskEvent::Looked(Ok(None))) => {
                match Self::new_product(&item, &detail) {
                    Ok(payload) => (
                        DetailTask::Creating { item, detail },
                        TaskAction::CreateProduct(payload),
                    ),
                    Err(e) => (
                        DetailTask::Failed { error: ScrapeError::from_app(&e) },
                        TaskAction::Stop,
                    ),
                }
            },
            (DetailTask::Resolving { item, detail }, TaskEvent::Looked(Err(error))) => {
                (DetailTask::Failed { error }, TaskAction::Stop)
            },
            (DetailTask::Creating { item, detail }, TaskEvent::ProductCreated(Ok(product))) => {
                let payload = Self::price_payload(&product, item.store_id.inner(), detail.price);
                (DetailTask::Resolved { product }, TaskAction::CreatePrice(payload))
            },
            (DetailTask::Creating { item, detail }, TaskEvent::ProductCreated(Err(error))) => {
                (DetailTask::Failed { error }, TaskAction::Stop)
            },
            (DetailTask::Resolved { product }, TaskEvent::PriceCreated(Ok(price))) => {
                (DetailTask::Persisted { price }, TaskAction::Stop)
            },
            (DetailTask::Resolved { product }, TaskEvent::PriceCreated(Err(error))) => {
                (DetailTask::Failed { error }, TaskAction::Stop)
            },
            (DetailTask::Persisted { price }, _) => {
                (DetailTask::Persisted { price }, TaskAction::Stop)
            },
            (DetailTask::Failed { error }, _) => (DetailTask::Failed { error }, TaskAction::Stop),
            (_, _) => (
                DetailTask::Failed {
                    error: ScrapeError::new(
                        ErrorKind::Validation,
                        "event does not fit the state of the item",
                    ),
                },
                TaskAction::Stop,
            ),
        }
    }
}

} // verus!
