//! The request-handling core of a small marketing site: the security headers
//! stamped on every response, the cache decorator for static files, the asset
//! table, and the render contexts of the pages.

pub mod assets;
pub mod caching;
pub mod headers;
pub mod pages;
pub mod response;
pub mod site;
