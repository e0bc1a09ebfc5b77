//! A dynamic DNS updater: it follows the host's public IP address and pushes it
//! to DNS records held by a REST DNS provider.
//!
//! The library holds the decisions: which request to send next, how a provider's
//! record list is read, and when to stop. The caller performs each request and
//! hands the outcome back to [`updater::Updater::step`].
pub mod model;
pub mod text;
pub mod request;
pub mod lookup;
pub mod plan;
pub mod updater;
pub mod laws;
