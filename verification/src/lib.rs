//! Verified core of a small sign-up dashboard for an AT Protocol PDS.
//!
//! The library holds the decisions of the dashboard: the store of pending
//! sign-ups and their expiry, the checks made on a sign-up form, the pages and
//! redirects that each step of the sign-up flow produces, and the shaping of
//! what the PDS answers into user profiles and error messages. The network,
//! the HTTP server and the templates live outside the library.

mod bindings;

pub mod encoding;
pub mod pages;
pub mod pds;
pub mod sessions;
pub mod signup;
pub mod text;
