//! A small library for managing a collection of books.
//!
//! `models` defines the book record and the creation payload, `store` an
//! in-memory table of books with identifiers assigned at insertion,
//! `handlers` the five operations of the service together with the HTTP
//! status each outcome maps to, and `laws` the proofs that relate the
//! operations to one another.

pub mod handlers;
pub mod laws;
pub mod models;
pub mod store;
