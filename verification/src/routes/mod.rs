//! The routes that requests come in by.

pub mod records;
