//! Request handling for a URL shortener: the decisions its HTTP handlers make
//! about authentication, what they answer, and how the router is assembled
//! from the configuration.
pub mod config;
pub mod header;
pub mod types;

pub use config::Config;
pub use types::{Auth, BackendConfig, ChhotoError, JSONResponse};
pub mod reply;

pub use reply::{Body, Reply};
pub mod services;
pub mod laws;
pub mod handler_laws;
