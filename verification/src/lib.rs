//! A registry of collections and their minters, kept in contract storage and
//! changed only by a single administrator.

pub mod contract;
pub mod error;
pub mod guarantees;
pub mod msg;
pub mod state;
