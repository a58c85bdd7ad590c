//! Route-level payment and API-key authorization for HTTP services: the
//! policy model, the decisions of the authorization middleware, and the
//! conversions between stored rows and API values.

pub mod api;
pub mod db;
pub mod error;
pub mod foreign;
pub mod models;
pub mod text;
