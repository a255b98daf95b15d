//! Price observations: what a product cost at a store at a moment.

use vstd::prelude::*;
use vstd::string::*;
use crate::checks::{range_within, validate_range};
use crate::error::{AppError, FieldErrorView, ValidationErrors};
use crate::models::product::ProductId;
use crate::models::store::{StoreId, Timestamp};

verus! {

/// The key of a price observation.
#[derive(Debug, Clone, Copy, PartialEq, Eq, PartialOrd, Ord, Hash, Structural)]
pub struct ProductPriceId(pub i32);

impl ProductPriceId {
    /// The key `id`, given whether the observations hold a row with it. A key
    /// that no row has is refused with the server error `invalid page id`.
    pub fn new(id: i32, exists: bool) -> (r: Result<Self, AppError>)
        ensures
            exists ==> r == Ok::<ProductPriceId, AppError>(ProductPriceId(id)),
            !exists ==> (r matches Err(AppError::ServerError(m)) && m@ == "invalid page id"@),
    {
        if !exists {
            return Err(AppError::server("invalid page id"));
        }
        Ok(ProductPriceId(id))
    }

    /// The key `id`, whether or not a row has it.
    pub fn new_unchecked(id: i32) -> (r: Self)
        ensures
            r == ProductPriceId(id),
    {
        ProductPriceId(id)
    }

    /// The number behind the key.
    pub fn inner(&self) -> (r: i32)
        ensures
            r == self.0,
    {
        self.0
    }
}

/// One price observation. The price is in hundredths of the currency unit and
/// never negative in a row that this library wrote; `created_at` is the moment
/// of the observation.
#[derive(Debug, Clone, Copy, PartialEq, Eq, Structural)]
pub struct ProductPrice {
    pub id: ProductPriceId,
    pub product_id: ProductId,
    pub store_id: StoreId,
    pub price: i64,
    pub active: bool,
    pub created_at: Timestamp,
    pub updated_at: Timestamp,
    pub deleted_at: Option<Timestamp>,
}

/// A price observation as the database holds it.
#[derive(Debug, Clone, Copy)]
pub struct ProductPriceRow {
    pub id: i32,
    pub product_id: i32,
    pub store_id: i32,
    pub price: i64,
    pub active: bool,
    pub created_at: Timestamp,
    pub updated_at: Timestamp,
    pub deleted_at: Option<Timestamp>,
}

impl ProductPrice {
    /// The observation that a row stands for.
    pub fn from_row(product_price: ProductPriceRow) -> (r: ProductPrice)
        ensures
            r == (ProductPrice {
                id: ProductPriceId(product_price.id),
                product_id: ProductId(product_price.product_id),
                store_id: StoreId(product_price.store_id),
                price: product_price.price,
                active: product_price.active,
                created_at: product_price.created_at,
                updated_at: product_price.updated_at,
                deleted_at: product_price.deleted_at,
            }),
    {
        ProductPrice {
            id: ProductPriceId::new_unchecked(product_price.id),
            product_id: ProductId::new_unchecked(product_price.product_id),
            store_id: StoreId::new_unchecked(product_price.store_id),
            price: product_price.price,
            active: product_price.active,
            created_at: product_price.created_at,
            updated_at: product_price.updated_at,
            deleted_at: product_price.deleted_at,
        }
    }
}

/// What a request to record a price carries: the keys of the product and of
/// the store, and the price in hundredths of the currency unit.
#[derive(Debug, Clone, Copy, PartialEq, Eq, Structural)]
pub struct CreateProductPricePayload {
    pub product_id: i32,
    pub store_id: i32,
    pub price: i64,
}

/// A payload to record a price that has passed its rules.
#[derive(Debug, Clone, Copy, PartialEq, Eq, Structural)]
pub struct ValidCreateProductPricePayload {
    pub product_id: ProductId,
    pub store_id: StoreId,
    pub price: i64,
}

/// The rules that a payload to record a price breaks: the product and the
/// store must exist, and the price may not be negative.
pub open spec fn price_payload_errors(
    product_exists: bool,
    store_exists: bool,
    price: i64,
) -> Seq<FieldErrorView> {
    let product_errors = if product_exists {
        Seq::<FieldErrorView>::empty()
    } else {
        seq![
            FieldErrorView {
                field: "product_id"@,
                code: "foreign_key"@,
                message: "product does not exist"@,
            },
        ]
    };
    let store_errors = if store_exists {
        Seq::<FieldErrorView>::empty()
    } else {
        seq![
            FieldErrorView {
                field: "store_id"@,
                code: "foreign_key"@,
                message: "store does not exist"@,
            },
        ]
    };
    let price_errors = if range_within(price, Some(0i64), None) {
        Seq::<FieldErrorView>::empty()
    } else {
        seq![
            FieldErrorView {
                field: "price"@,
                code: "range"@,
                message: "price cannot be negative"@,
            },
        ]
    };
    product_errors + store_errors + price_errors
}

impl CreateProductPricePayload {
    /// Holds the payload to its rules, given whether the product and the store
    /// that it names exist. It passes exactly if both exist and the price is
    /// not negative; otherwise the error lists every broken rule.
    pub fn parse(self, product_exists: bool, store_exists: bool) -> (r: Result<
        ValidCreateProductPricePayload,
        AppError,
    >)
        ensures
            match r {
                Ok(v) => {
                    &&& product_exists
                    &&& store_exists
                    &&& self.price >= 0
                    &&& v == (ValidCreateProductPricePayload {
                        product_id: ProductId(self.product_id),
                        store_id: StoreId(self.store_id),
                        price: self.price,
                    })
                },
                Err(e) => {
                    &&& !(product_exists && store_exists && self.price >= 0)
                    &&& e matches AppError::ValidationError(errors)
                    &&& errors@ == price_payload_errors(product_exists, store_exists, self.price)
                },
            },
    {
        let mut errors = ValidationErrors::new();
        if !product_exists {
            errors.add("product_id", "foreign_key", "product does not exist");
        }
        if !store_exists {
            errors.add("store_id", "foreign_key", "store does not exist");
        }
        if !validate_range(self.price, Some(0), None) {
            errors.add("price", "range", "price cannot be negative");
        }
        assert(errors@ =~= price_payload_errors(product_exists, store_exists, self.price));
        if !errors.is_empty() {
            return Err(AppError::ValidationError(errors));
        }
        Ok(
            ValidCreateProductPricePayload {
                product_id: ProductId::new_unchecked(self.product_id),
                store_id: StoreId::new_unchecked(self.store_id),
                price: self.price,
            },
        )
    }
}

} // verus!
