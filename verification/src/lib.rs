//! Verified core of the rant web service: configuration lookup and template
//! resolution, error reporting, the authentication decision, and the pieces of
//! the sign-in flow that compute on plain values.

pub mod errors;
pub mod template;
pub mod config_service;
pub mod config_chain;
pub mod config_file;
pub mod user;
pub mod text;
pub mod ms_oauth;
pub mod url_constants;
pub mod authentication;
pub mod mongo_ext;
pub mod utils;
pub mod certs;
pub mod state;
