pub mod error;
pub mod events;
pub mod link;
pub mod mail;
pub mod outside;
pub mod store;
pub mod usage;
