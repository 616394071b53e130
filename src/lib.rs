//! A single-resource document service core: identifier codec, payload
//! validation, the document collection and its accessor, the error taxonomy,
//! the response envelope and the resource handlers.

pub mod codec;
pub mod config;
pub mod db;
pub mod error;
pub mod handlers;
pub mod health;
pub mod items;
pub mod laws;
pub mod model;
pub mod response;
pub mod routes;
pub mod store;
pub mod users;
pub mod validation;
