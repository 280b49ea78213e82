//! Client for the freestuffbot.xyz API.
//!
//! The `api` module holds the typed records of the API together with the
//! rules that turn loosely typed response values into them; the `client`
//! module holds the request-side rules: endpoint paths, the authorization
//! header, status classification and the response envelope.
pub mod api;
pub mod client;
