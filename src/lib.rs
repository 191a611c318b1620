//! A pluggable document store: a structural value model for documents,
//! filters, projections and updates; an in-memory backend that evaluates
//! them; transactions; lazily resolved document references; and builders
//! that persist entities.

pub mod auth;
pub mod collection;
pub mod database;
pub mod document;
pub mod dtos;
pub mod engine;
pub mod enums;
pub mod error;
pub mod facade;
pub mod fields;
pub mod frontend;
pub mod laws;
pub mod memory;
pub mod model;
pub mod query;
pub mod service;
pub mod smart_document;
pub mod text;
pub mod transaction;
pub mod value;
