//! Endpoint decision logic, one module per area of the API.

pub mod categories;
pub mod users;
pub mod words;
pub mod translations;
pub mod service;
