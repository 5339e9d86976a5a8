//! Verified core of a website crawler binding: object serialisation for stored
//! data, handle registries for background tasks, and the crawl planning rules.

pub mod conversions;
pub mod export;
pub mod headers;
pub mod laws;
pub mod npage;
pub mod nwebsite;
pub mod page;
pub mod registry;
pub mod spider_calls;
pub mod website;
