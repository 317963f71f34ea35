pub mod auth;
pub mod models;
pub mod routes;
