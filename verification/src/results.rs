//! The uniform result protocol: every operation returns a result code,
//! a human-readable message, and the causal transaction reference.
//!
//! Codes in use: 200 for success (including idempotent no-ops and the
//! read-only query), 404 for an absent aggregate or sub-entity, 409 for
//! a conflicting duplicate or a missing nested entity.

use vstd::prelude::*;
use crate::model::{ProjectReturnMessageView, ReturnMessageView};

verus! {

/// Result of every mutating operation except project creation.
#[derive(Debug)]
pub struct ReturnMessage {
    pub result: u32,
    pub message: String,
    pub transaction_hash: String,
}

impl View for ReturnMessage {
    type V = ReturnMessageView;

    open spec fn view(&self) -> ReturnMessageView {
        ReturnMessageView {
            result: self.result,
            message: self.message@,
            transaction_hash: self.transaction_hash@,
        }
    }
}

/// Result of project creation, carrying the generated project hash.
#[derive(Debug)]
pub struct ProjectReturnMessage {
    pub result: u32,
    pub message: String,
    pub transaction_hash: String,
    pub hash: String,
}

impl View for ProjectReturnMessage {
    type V = ProjectReturnMessageView;

    open spec fn view(&self) -> ProjectReturnMessageView {
        ProjectReturnMessageView {
            result: self.result,
            message: self.message@,
            transaction_hash: self.transaction_hash@,
            hash: self.hash@,
        }
    }
}

} // verus!
