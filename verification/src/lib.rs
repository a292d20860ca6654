//! A REST service that serves Bible verses: the verified core of its request
//! handling, query building and page navigation.

pub mod constants;
pub mod error;
pub mod sql;
pub mod text;
pub mod models;
pub mod query_params;
pub mod queries;
pub mod books;
pub mod navigation;
