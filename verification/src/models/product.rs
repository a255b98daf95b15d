//! Products: what the catalog knows of an article, whoever sells it.

use vstd::prelude::*;
use vstd::string::*;
use crate::checks::{length_within, validate_length, validate_url};
use crate::error::{AppError, FieldErrorView, ValidationErrors};
use crate::models::store::Timestamp;
use crate::text::opt_str;
use crate::web_url::{opt_url, url_parse, WebUrl};

verus! {

/// The key of a product.
#[derive(Debug, Clone, Copy, PartialEq, Eq, PartialOrd, Ord, Hash, Structural)]
pub struct ProductId(pub i32);

impl ProductId {
    /// The key `id`, given whether the products hold a row with it. A key that
    /// no row has is refused with the server error `invalid page id`.
    pub fn new(id: i32, exists: bool) -> (r: Result<Self, AppError>)
        ensures
            exists ==> r == Ok::<ProductId, AppError>(ProductId(id)),
            !exists ==> (r matches Err(AppError::ServerError(m)) && m@ == "invalid page id"@),
    {
        if !exists {
            return Err(AppError::server("invalid page id"));
        }
        Ok(ProductId(id))
    }

    /// The key `id`, whether or not a row has it.
    pub fn new_unchecked(id: i32) -> (r: Self)
        ensures
            r == ProductId(id),
    {
        ProductId(id)
    }

    /// The number behind the key.
    pub fn inner(&self) -> (r: i32)
        ensures
            r == self.0,
    {
        self.0
    }
}

/// A copy of an optional text.
pub fn clone_opt_string(o: &Option<String>) -> (r: Option<String>)
    ensures
        r == *o,
{
    match o {
        Some(s) => Some(s.clone()),
        None => None,
    }
}

/// A product.
#[derive(Debug)]
pub struct Product {
    pub id: ProductId,
    pub name: String,
    pub brand: String,
    pub url: Option<String>,
    pub image: Option<String>,
    pub ean: Option<String>,
    pub gtin: Option<String>,
    pub active: bool,
    pub created_at: Timestamp,
    pub updated_at: Timestamp,
    pub deleted_at: Option<Timestamp>,
}

impl Clone for Product {
    fn clone(&self) -> (r: Self)
        ensures
            r == *self,
    {
        Product {
            id: self.id,
            name: self.name.clone(),
            brand: self.brand.clone(),
            url: clone_opt_string(&self.url),
            image: clone_opt_string(&self.image),
            ean: clone_opt_string(&self.ean),
            gtin: clone_opt_string(&self.gtin),
            active: self.active,
            created_at: self.created_at,
            updated_at: self.updated_at,
            deleted_at: self.deleted_at,
        }
    }
}

/// A product as the database holds it.
#[derive(Debug)]
pub struct ProductRow {
    pub id: i32,
    pub name: String,
    pub url: Option<String>,
    pub brand: String,
    pub image: Option<String>,
    pub ean: Option<String>,
    pub gtin: Option<String>,
    pub active: bool,
    pub created_at: Timestamp,
    pub updated_at: Timestamp,
    pub deleted_at: Option<Timestamp>,
}

impl Product {
    /// The product that a row stands for.
    pub fn from_row(product: ProductRow) -> (r: Product)
        ensures
            r == (Product {
                id: ProductId(product.id),
                name: product.name,
                brand: product.brand,
                url: product.url,
                image: product.image,
                ean: product.ean,
                gtin: product.gtin,
                active: product.active,
                created_at: product.created_at,
                updated_at: product.updated_at,
                deleted_at: product.deleted_at,
            }),
    {
        Product {
            id: ProductId::new_unchecked(product.id),
            name: product.name,
            url: product.url,
            brand: product.brand,
            image: product.image,
            ean: product.ean,
            gtin: product.gtin,
            active: product.active,
            created_at: product.created_at,
            updated_at: product.updated_at,
            deleted_at: product.deleted_at,
        }
    }
}

/// What a request to create a product carries.
#[derive(Debug)]
pub struct CreateProductPayload {
    pub name: String,
    pub brand: String,
    pub url: Option<String>,
    pub image: Option<String>,
    pub ean: Option<String>,
    pub gtin: Option<String>,
}

/// A payload to create a product that has passed its rules.
#[derive(Debug)]
pub struct ValidCreateProductPayload {
    pub name: String,
    pub brand: String,
    pub url: Option<WebUrl>,
    pub image: Option<String>,
    pub ean: Option<String>,
    pub gtin: Option<String>,
}

/// The URL that an optional text parses to, if it is there and parses.
pub open spec fn opt_url_parse(url: Option<Seq<char>>) -> Option<crate::web_url::UrlView> {
    match url {
        Some(u) => url_parse(u),
        None => None,
    }
}

/// The rules that a payload to create a product breaks: neither the name nor
/// the brand may be empty, and a URL, if there is one, must parse.
pub open spec fn product_payload_errors(
    name: Seq<char>,
    brand: Seq<char>,
    url: Option<Seq<char>>,
) -> Seq<FieldErrorView> {
    let name_errors = if length_within(name.len(), Some(1u64), None) {
        Seq::<FieldErrorView>::empty()
    } else {
        seq![
            FieldErrorView { field: "name"@, code: "length"@, message: "name must not be empty"@ },
        ]
    };
    let brand_errors = if length_within(brand.len(), Some(1u64), None) {
        Seq::<FieldErrorView>::empty()
    } else {
        seq![
            FieldErrorView {
                field: "brand"@,
                code: "length"@,
                message: "brand must not be empty"@,
            },
        ]
    };
    let url_errors = if url is None || opt_url_parse(url) is Some {
        Seq::<FieldErrorView>::empty()
    } else {
        seq![FieldErrorView { field: "url"@, code: "url"@, message: "url cannot be malformed"@ }]
    };
    name_errors + brand_errors + url_errors
}

impl CreateProductPayload {
    /// Holds the payload to its rules. It passes exactly if it breaks none;
    /// otherwise the error lists every broken rule.
    pub fn parse(self) -> (r: Result<ValidCreateProductPayload, AppError>)
        ensures
            match r {
                Ok(v) => {
                    &&& product_payload_errors(self.name@, self.brand@, opt_str(self.url)).len()
                        == 0
                    &&& v.name == self.name
                    &&& v.brand == self.brand
                    &&& opt_url(v.url) == opt_url_parse(opt_str(self.url))
                    &&& v.image == self.image
                    &&& v.ean == self.ean
                    &&& v.gtin == self.gtin
                },
                Err(e) => {
                    &&& product_payload_errors(self.name@, self.brand@, opt_str(self.url)).len()
                        > 0
                    &&& e matches AppError::ValidationError(errors)
                    &&& errors@ == product_payload_errors(
                        self.name@,
                        self.brand@,
                        opt_str(self.url),
                    )
                },
            },
    {
        let mut errors = ValidationErrors::new();
        if !validate_length(self.name.as_str(), Some(1), None) {
            errors.add("name", "length", "name must not be empty");
        }
        if !validate_length(self.brand.as_str(), Some(1), None) {
            errors.add("brand", "length", "brand must not be empty");
        }
        let url = match &self.url {
            Some(text) => {
                if !validate_url(text.as_str()) {
                    errors.add("url", "url", "url cannot be malformed");
                }
                WebUrl::parse(text.as_str())
            },
            None => None,
        };
        assert(errors@ =~= product_payload_errors(self.name@, self.brand@, opt_str(self.url)));
        if !errors.is_empty() {
            return Err(AppError::ValidationError(errors));
        }
        Ok(
            ValidCreateProductPayload {
                name: self.name,
                brand: self.brand,
                url,
                image: self.image,
                ean: self.ean,
                gtin: self.gtin,
            },
        )
    }
}

} // verus!
