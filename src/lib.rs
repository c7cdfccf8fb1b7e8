//! A client library for a package-repository manager's REST API: request
//! addresses, credential handling, paginated search aggregation and the
//! bookkeeping of multi-asset downloads. The network and the filesystem are
//! left to the caller, which drives the state machines defined here.
pub mod model;
pub mod client;
pub mod encode;
pub mod error;
pub mod auth;
pub mod search;
pub mod download;
