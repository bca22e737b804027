//! Verified core of the gequke crawler: page extraction, text handling,
//! query construction and record keeping.

pub mod text;
pub mod numbers;
pub mod pattern;
pub mod dom;
pub mod models;
pub mod crawlers;
pub mod sqlite;
pub mod database;
pub mod rows;
pub mod queries;
pub mod records;
pub mod timeargs;
pub mod display;
pub mod settings;
pub mod cli;
