//! A module-runtime adapter for a remote container engine. The adapter
//! translates vendor-neutral module specifications into engine requests:
//! it validates names and ids before anything is sent, merges a module's
//! declared environment over the inherited one, attaches a configured
//! network without clobbering caller intent, encodes optional registry
//! credentials into the engine's credential-header format, and rebuilds
//! typed module descriptors from listing records while tolerating
//! malformed entries. The transport that carries each request to the
//! engine lives outside this crate.
pub mod auth;
pub mod config;
pub mod env;
pub mod error;
pub mod listing;
pub mod network;
pub mod runtime;
pub mod text;
pub mod urlparse;
