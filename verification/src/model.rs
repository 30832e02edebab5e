//! The mathematical model of the ledger.
//!
//! Each stored entity is modelled by a ghost value holding the views of
//! its text fields. The wall-clock timestamp of an audit record is
//! environmental — no two runs need agree on it — so it is deliberately
//! outside the model; the causal reference and operation label are in.

use vstd::prelude::*;

verus! {

/// Model of an audit record: the causal transaction reference and the
/// label of the operation that created the entity.
#[verifier::ext_equal]
pub ghost struct UpdateLogsView {
    pub transaction_hash: Seq<char>,
    pub transaction_type: Seq<char>,
}

/// Model of a folder.
#[verifier::ext_equal]
pub ghost struct FolderView {
    pub folder_hash: Seq<char>,
    pub project_id: Seq<char>,
    pub folder_name: Seq<char>,
    pub update_logs: UpdateLogsView,
}

/// Model of a sub-folder.
#[verifier::ext_equal]
pub ghost struct SubFolderView {
    pub sub_folder_hash: Seq<char>,
    pub project_id: Seq<char>,
    pub folder_id: Seq<char>,
    pub sub_folder_name: Seq<char>,
    pub update_logs: UpdateLogsView,
}

/// Model of a user with its revocation flag.
#[verifier::ext_equal]
pub ghost struct UserView {
    pub user_name: Seq<char>,
    pub user_id: Seq<char>,
    pub is_revoked: bool,
    pub update_logs: UpdateLogsView,
}

/// Model of a validator: identity fields, the revocation flag, the
/// signing capability, and its own per-validator status opinion.
#[verifier::ext_equal]
pub ghost struct ValidatorView {
    pub validator_id: Seq<char>,
    pub validator_ip: Seq<char>,
    pub validator_email: Seq<char>,
    pub validator_organization: Seq<char>,
    pub is_revoked: bool,
    pub can_sign: Seq<char>,
    pub file_validation_hash: Seq<char>,
    pub file_status: Seq<char>,
    pub update_logs: UpdateLogsView,
}

/// Model of a file with its aggregate-level status and its validators.
#[verifier::ext_equal]
pub ghost struct FileView {
    pub file_hash: Seq<char>,
    pub file_title: Seq<char>,
    pub user_id: Seq<char>,
    pub folder_id: Seq<char>,
    pub expiry_date: Seq<char>,
    pub file_status: Seq<char>,
    pub validators: Seq<ValidatorView>,
    pub update_logs: UpdateLogsView,
}

/// Model of a supplier.
#[verifier::ext_equal]
pub ghost struct SupplierView {
    pub category: Seq<char>,
    pub contact_name: Seq<char>,
    pub supplier_id: Seq<char>,
    pub supplier_email: Seq<char>,
    pub company_name: Seq<char>,
    pub company_website: Seq<char>,
    pub requested_documents: Seq<char>,
    pub update_logs: UpdateLogsView,
}

/// Model of a project aggregate: its identity, creator, and the five
/// entity collections it owns.
#[verifier::ext_equal]
pub ghost struct ProjectView {
    pub created_by: Seq<char>,
    pub project_hash: Seq<char>,
    pub folders: Seq<FolderView>,
    pub sub_folders: Seq<SubFolderView>,
    pub users: Seq<UserView>,
    pub files: Seq<FileView>,
    pub suppliers: Seq<SupplierView>,
    pub update_logs: UpdateLogsView,
}

/// Model of a returned result: code, human-readable message, and the
/// transaction reference.
#[verifier::ext_equal]
pub ghost struct ReturnMessageView {
    pub result: u32,
    pub message: Seq<char>,
    pub transaction_hash: Seq<char>,
}

/// Model of the result of project creation, which also carries the
/// generated project hash.
#[verifier::ext_equal]
pub ghost struct ProjectReturnMessageView {
    pub result: u32,
    pub message: Seq<char>,
    pub transaction_hash: Seq<char>,
    pub hash: Seq<char>,
}

} // verus!
