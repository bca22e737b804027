//! Extraction of the data of the site's pages.

pub mod common;
pub mod homepage;
pub mod ranking;
pub mod search;
pub mod download;
pub mod headers;
