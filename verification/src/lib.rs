//! Price tracking for storefronts: the rules of a two-stage scrape cycle
//! (crawl the search pages, then fetch and record each product's price),
//! the bounded worker pool that paces it, and the catalog it writes to.

pub mod catalog;
pub mod checks;
pub mod discord;
pub mod error;
pub mod models;
pub mod pool;
pub mod routers;
pub mod scheduler;
pub mod scraper;
pub mod scrapper;
pub mod text;
pub mod web_url;
