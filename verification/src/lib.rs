//! Request-handling logic of the Stari Kolomoni API server: permissions and roles,
//! access checks, endpoint decision plans, search result ranking, response building
//! and the models exchanged through the public API.

pub mod permissions;
pub mod text;
pub mod roles;
pub mod reasons;
pub mod models;
pub mod responses;
pub mod plan;
pub mod authentication;
pub mod ids;
pub mod endpoints;
pub mod search;
pub mod conditional;
pub mod migrations;
pub mod login;
pub mod builder;
pub mod docs;
pub mod payload;
pub mod records;
