//! The rows of the catalog and the payloads that create them.

pub mod handler;
pub mod page;
pub mod product;
pub mod product_price;
pub mod store;
