//! Account-management primitives for a contract host: a call executor that
//! refuses to target its own account, and a factory that creates funded
//! sub-accounts. Both validate their input against an explicit invocation
//! context and return the deferred action that the host is to commit.

pub mod account;
pub mod action;
pub mod context;
pub mod exec;
pub mod user_factory;
