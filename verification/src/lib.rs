//! Core of a small recipe server: the recipe data model, the codec between
//! recipes and stored rows, recipe selection, and the two outward projections
//! (HTML view-model and JSON payload).
//!
//! The library is verified, with one trusted boundary: the two functions of
//! [`json`] that call `serde_json`, whose contracts are believed and not
//! proved. Network, database and template rendering are left to the binary
//! that links this library.

pub mod api;
pub mod config;
pub mod error;
pub mod json;
pub mod recipe;
pub mod row;
pub mod selector;
pub mod store;
pub mod templates;
pub mod web;
