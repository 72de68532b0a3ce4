//! Client-side logic of a data-portal command-line tool: display names of
//! transferred files, request framing for the portal's API, the session
//! lifecycle of the identity provider, and the bookkeeping of concurrent
//! transfers.

pub mod paths;
pub mod api;
pub mod cli;
pub mod config;
pub mod session;
pub mod transfer;
