//! Request handling for the records of a context store: what a request may ask,
//! what is handed to the store on its behalf, and what the store's reply is
//! answered with.

pub mod api;
pub mod clock;
pub mod convert;
pub mod error;
pub mod ids;
pub mod json;
pub mod laws;
pub mod log;
pub mod model;
pub mod routes;
