//! Browsing and cleaning up a container registry: the protocol decisions
//! behind manifest resolution, tag listing, pagination and the shared-credential
//! login, each stated as a contract and proved.

pub mod auth;
pub mod error;
pub mod json;
pub mod listing;
pub mod manifest;
pub mod pagination;
pub mod platform;
pub mod request;
pub mod resolve;
pub mod settings;
pub mod tags;
pub mod text;
pub mod timestamp;
