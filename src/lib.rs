//! Moves a content file and its media assets between a working area and a
//! publishing collection, as a transaction that either lands completely
//! (files plus version-control commit) or is rolled back.
//!
//! Filesystem work, prompts and the version-control tool are performed by the
//! caller; the library decides what happens next at every step and proves that
//! rollback always covers exactly what the transaction created.
pub mod assets;
pub mod config;
pub mod delete;
pub mod names;
pub mod path;
pub mod publish;
pub mod select;
pub mod txn;
pub mod vcs;
