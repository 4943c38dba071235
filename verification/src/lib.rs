//! A minimal data service: two operations over a single table of
//! `(id, value)` rows — list every row, insert one row — plus a constant
//! health response. This crate holds the verified core: configuration
//! validation, the decimal and JSON text the service answers with, and a
//! model of the stored table with its unique-id rule. The HTTP listener and
//! the relational store sit outside, handing the core plain values.
pub mod config;
pub mod decimal;
pub mod response;
pub mod row;
pub mod service;
pub mod table;
