//! Identity control plane: users, group memberships, MFA state, entitlements,
//! access-change requests, break-glass revocation and lifecycle tasks, with an
//! audit trail of every identity read and write that an agent performs.

pub mod types;

pub mod text;
pub mod sources;
pub mod store;
pub mod inputs;
pub mod demo;
pub mod laws;
