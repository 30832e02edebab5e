//! A hash-addressed, hierarchical document-approval ledger.
//!
//! A store maps content-derived hash keys to project aggregates. Each
//! project owns collections of folders, sub-folders, users, files and
//! suppliers; files in turn own validators. Every mutating operation
//! resolves its target by a natural key, enforces a uniqueness or
//! idempotence check, and reports a uniform result code, message and
//! transaction reference.

pub mod clock;
pub mod contract;
pub mod entities;
pub mod find;
pub mod hashing;
pub mod laws;
pub mod lookup;
pub mod model;
pub mod results;
pub mod transitions;

pub use contract::Contract;
pub use entities::{File, Folder, Project, SubFolder, Supplier, UpdateLogs, User, Validator};
pub use results::{ProjectReturnMessage, ReturnMessage};
