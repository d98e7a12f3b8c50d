//! Authentication and authorization kernel of a small account service:
//! password digests, session-token claims and their verdict, the owner-only
//! policy for user records, and the membership rule for groups.

pub mod config;
pub mod context;
pub mod error;
pub mod group;
pub mod hasher;
pub mod id;
pub mod policy;
pub mod schema;
pub mod tokeniser;
pub mod user;
pub mod user_group;
