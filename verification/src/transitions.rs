//! The ledger's state machine, stated over the model.
//!
//! One transition function per operation: each maps the stored sequence
//! of project aggregates and the operation's inputs to the new sequence
//! and the result the caller sees. The executable operations promise to
//! behave exactly as these functions say.

use vstd::prelude::*;
use crate::entities::{
    spec_new_file, spec_new_folder, spec_new_project, spec_new_sub_folder, spec_new_supplier,
    spec_new_user, spec_new_validator,
};
use crate::find::{
    find_file, find_folder, find_project, find_sub_folder, find_supplier, find_user,
    find_validator_by_email, find_validator_by_id,
};
use crate::hashing::content_hash;
use crate::model::{
    FileView, ProjectReturnMessageView, ProjectView, ReturnMessageView, ValidatorView,
};

verus! {

/// The causal transaction reference attached to every result and audit
/// record. The environment supplies no per-call identifier, so it is a
/// fixed placeholder.
pub open spec fn transaction_reference() -> Seq<char> {
    "Transaction Hash"@
}

/// A result with the given code and message.
pub open spec fn reply(result: u32, message: Seq<char>) -> ReturnMessageView {
    ReturnMessageView { result, message, transaction_hash: transaction_reference() }
}

/// A project-creation result with the given code, message and hash.
pub open spec fn project_reply(
    result: u32,
    message: Seq<char>,
    hash: Seq<char>,
) -> ProjectReturnMessageView {
    ProjectReturnMessageView {
        result,
        message,
        transaction_hash: transaction_reference(),
        hash,
    }
}

/// Create a project keyed by the content hash of `logo` and
/// `project_name`: 409 if that key is already present, else the new,
/// empty aggregate is appended and 200 returned. Either way the result
/// carries the derived hash.
pub open spec fn spec_add_project(
    s: Seq<ProjectView>,
    project_name: Seq<char>,
    logo: Seq<char>,
    created_by: Seq<char>,
) -> (Seq<ProjectView>, ProjectReturnMessageView) {
    let h = content_hash(logo, project_name);
    match find_project(s, h) {
        Some(_) => (s, project_reply(409, "Project already exists"@, h)),
        None => (
            s.push(spec_new_project(created_by, h, transaction_reference())),
            project_reply(200, "Project added successfully"@, h),
        ),
    }
}

/// Add a folder: 404 if the project is absent, 409 if the project
/// already has a folder of that name, else the folder is appended with
/// identity `content_hash(project_id, folder_name)`.
pub open spec fn spec_add_folder(
    s: Seq<ProjectView>,
    project_hash: Seq<char>,
    project_id: Seq<char>,
    folder_name: Seq<char>,
) -> (Seq<ProjectView>, ReturnMessageView) {
    match find_project(s, project_hash) {
        None => (s, reply(404, "Project not found"@)),
        Some(i) => {
            let p = s[i];
            match find_folder(p.folders, folder_name) {
                Some(_) => (s, reply(409, "Folder with the same name already exists"@)),
                None => (
                    s.update(
                        i,
                        ProjectView {
                            folders: p.folders.push(
                                spec_new_folder(
                                    content_hash(project_id, folder_name),
                                    project_id,
                                    folder_name,
                                    transaction_reference(),
                                ),
                            ),
                            ..p
                        },
                    ),
                    reply(200, "Folder added successfully"@),
                ),
            }
        }
    }
}

/// Add a sub-folder: as for folders, but the name scan runs over the
/// project's flat sub-folder collection and the identity is
/// `content_hash(folder_id, sub_folder_name)`.
pub open spec fn spec_add_sub_folder(
    s: Seq<ProjectView>,
    project_hash: Seq<char>,
    project_id: Seq<char>,
    folder_id: Seq<char>,
    sub_folder_name: Seq<char>,
) -> (Seq<ProjectView>, ReturnMessageView) {
    match find_project(s, project_hash) {
        None => (s, reply(404, "Project not found"@)),
        Some(i) => {
            let p = s[i];
            match find_sub_folder(p.sub_folders, sub_folder_name) {
                Some(_) => (s, reply(409, "Sub folder with the same name already exists"@)),
                None => (
                    s.update(
                        i,
                        ProjectView {
                            sub_folders: p.sub_folders.push(
                                spec_new_sub_folder(
                                    content_hash(folder_id, sub_folder_name),
                                    project_id,
                                    folder_id,
                                    sub_folder_name,
                                    transaction_reference(),
                                ),
                            ),
                            ..p
                        },
                    ),
                    reply(200, "Sub folder added successfully"@),
                ),
            }
        }
    }
}

/// Add a user: 404 if the project is absent, 409 if the `user_id` is
/// taken, else the user is appended with access enabled.
pub open spec fn spec_add_user(
    s: Seq<ProjectView>,
    project_hash: Seq<char>,
    user_name: Seq<char>,
    user_id: Seq<char>,
) -> (Seq<ProjectView>, ReturnMessageView) {
    match find_project(s, project_hash) {
        None => (s, reply(404, "Project not found"@)),
        Some(i) => {
            let p = s[i];
            match find_user(p.users, user_id) {
                Some(_) => (s, reply(409, "User already exists"@)),
                None => (
                    s.update(
                        i,
                        ProjectView {
                            users: p.users.push(
                                spec_new_user(user_name, user_id, transaction_reference()),
                            ),
                            ..p
                        },
                    ),
                    reply(200, "User added successfully"@),
                ),
            }
        }
    }
}

/// Grant a user access: clears `is_revoked` if it was set; if access is
/// already enabled the state is left untouched and success is still
/// reported. 404 when the project or user is absent.
pub open spec fn spec_add_user_access(
    s: Seq<ProjectView>,
    project_hash: Seq<char>,
    user_id: Seq<char>,
) -> (Seq<ProjectView>, ReturnMessageView) {
    match find_project(s, project_hash) {
        None => (s, reply(404, "Project not found"@)),
        Some(i) => {
            let p = s[i];
            match find_user(p.users, user_id) {
                None => (s, reply(404, "User not found"@)),
                Some(j) => {
                    if p.users[j].is_revoked {
                        (
                            s.update(
                                i,
                                ProjectView {
                                    users: p.users.update(
                                        j,
                                        crate::model::UserView { is_revoked: false, ..p.users[j] },
                                    ),
                                    ..p
                                },
                            ),
                            reply(200, "User's access added successfully"@),
                        )
                    } else {
                        (s, reply(200, "User's access is already enabled"@))
                    }
                }
            }
        }
    }
}

/// Revoke a user's access: sets `is_revoked` if it was clear; if access
/// is already disabled the state is left untouched and success is still
/// reported. 404 when the project or user is absent.
pub open spec fn spec_remove_user_access(
    s: Seq<ProjectView>,
    project_hash: Seq<char>,
    user_id: Seq<char>,
) -> (Seq<ProjectView>, ReturnMessageView) {
    match find_project(s, project_hash) {
        None => (s, reply(404, "Project not found"@)),
        Some(i) => {
            let p = s[i];
            match find_user(p.users, user_id) {
                None => (s, reply(404, "User not found"@)),
                Some(j) => {
                    if !p.users[j].is_revoked {
                        (
                            s.update(
                                i,
                                ProjectView {
                                    users: p.users.update(
                                        j,
                                        crate::model::UserView { is_revoked: true, ..p.users[j] },
                                    ),
                                    ..p
                                },
                            ),
                            reply(200, "User's access removed successfully"@),
                        )
                    } else {
                        (s, reply(200, "User's access is already disabled"@))
                    }
                }
            }
        }
    }
}

/// Add a file: 404 if the project is absent, 409 if the `file_hash` is
/// taken, else the file is appended with initial status `RED` and no
/// validators.
pub open spec fn spec_add_file(
    s: Seq<ProjectView>,
    project_hash: Seq<char>,
    file_hash: Seq<char>,
    title: Seq<char>,
    user_id: Seq<char>,
    folder_id: Seq<char>,
    expiry_date: Seq<char>,
) -> (Seq<ProjectView>, ReturnMessageView) {
    match find_project(s, project_hash) {
        None => (s, reply(404, "Project not found"@)),
        Some(i) => {
            let p = s[i];
            match find_file(p.files, file_hash) {
                Some(_) => (s, reply(409, "File already exists"@)),
                None => (
                    s.update(
                        i,
                        ProjectView {
                            files: p.files.push(
                                spec_new_file(
                                    file_hash,
                                    title,
                                    user_id,
                                    folder_id,
                                    expiry_date,
                                    transaction_reference(),
                                ),
                            ),
                            ..p
                        },
                    ),
                    reply(200, "File added successfully"@),
                ),
            }
        }
    }
}

/// Accept a file: sets its status to `GREEN` unless it is `GREEN`
/// already, in which case the state is left untouched and success is
/// still reported. 404 when the project or file is absent.
pub open spec fn spec_accept_file(
    s: Seq<ProjectView>,
    project_hash: Seq<char>,
    file_hash: Seq<char>,
) -> (Seq<ProjectView>, ReturnMessageView) {
    match find_project(s, project_hash) {
        None => (s, reply(404, "Project not found"@)),
        Some(i) => {
            let p = s[i];
            match find_file(p.files, file_hash) {
                None => (s, reply(404, "File not found"@)),
                Some(j) => {
                    if p.files[j].file_status != "GREEN"@ {
                        (
                            s.update(
                                i,
                                ProjectView {
                                    files: p.files.update(
                                        j,
                                        FileView { file_status: "GREEN"@, ..p.files[j] },
                                    ),
                                    ..p
                                },
                            ),
                            reply(200, "File status accepted successfully"@),
                        )
                    } else {
                        (s, reply(200, "File status already accepted"@))
                    }
                }
            }
        }
    }
}

/// Reject a file: sets its status to `RED` unless it is `RED` already,
/// in which case the state is left untouched and success is still
/// reported. 404 when the project or file is absent.
pub open spec fn spec_reject_file(
    s: Seq<ProjectView>,
    project_hash: Seq<char>,
    file_hash: Seq<char>,
) -> (Seq<ProjectView>, ReturnMessageView) {
    match find_project(s, project_hash) {
        None => (s, reply(404, "Project not found"@)),
        Some(i) => {
            let p = s[i];
            match find_file(p.files, file_hash) {
                None => (s, reply(404, "File not found"@)),
                Some(j) => {
                    if p.files[j].file_status != "RED"@ {
                        (
                            s.update(
                                i,
                                ProjectView {
                                    files: p.files.update(
                                        j,
                                        FileView { file_status: "RED"@, ..p.files[j] },
                                    ),
                                    ..p
                                },
                            ),
                            reply(200, "File status accepted successfully"@),
                        )
                    } else {
                        (s, reply(200, "File status already rejected"@))
                    }
                }
            }
        }
    }
}

/// Update a file's status to an arbitrary caller-supplied string,
/// persisted verbatim with no validation against the enumerated status
/// set. 404 when the project or file is absent.
pub open spec fn spec_update_file(
    s: Seq<ProjectView>,
    project_hash: Seq<char>,
    file_hash: Seq<char>,
    update_status: Seq<char>,
) -> (Seq<ProjectView>, ReturnMessageView) {
    match find_project(s, project_hash) {
        None => (s, reply(404, "Project not found"@)),
        Some(i) => {
            let p = s[i];
            match find_file(p.files, file_hash) {
                None => (s, reply(404, "File not found"@)),
                Some(j) => (
                    s.update(
                        i,
                        ProjectView {
                            files: p.files.update(
                                j,
                                FileView { file_status: update_status, ..p.files[j] },
                            ),
                            ..p
                        },
                    ),
                    reply(200, "File status updated successfully"@),
                ),
            }
        }
    }
}

/// Add a validator to a file, appended without a uniqueness check; a
/// missing file is reported as 409, not 404. 404 when the project is
/// absent.
pub open spec fn spec_add_validator(
    s: Seq<ProjectView>,
    project_hash: Seq<char>,
    file_hash: Seq<char>,
    validator_id: Seq<char>,
    validator_ip: Seq<char>,
    validator_email: Seq<char>,
    validator_organization: Seq<char>,
    can_sign: Seq<char>,
) -> (Seq<ProjectView>, ReturnMessageView) {
    match find_project(s, project_hash) {
        None => (s, reply(404, "Project not found"@)),
        Some(i) => {
            let p = s[i];
            match find_file(p.files, file_hash) {
                None => (s, reply(409, "File does not exist"@)),
                Some(j) => (
                    s.update(
                        i,
                        ProjectView {
                            files: p.files.update(
                                j,
                                FileView {
                                    validators: p.files[j].validators.push(
                                        spec_new_validator(
                                            validator_id,
                                            validator_ip,
                                            validator_email,
                                            validator_organization,
                                            can_sign,
                                            transaction_reference(),
                                        ),
                                    ),
                                    ..p.files[j]
                                },
                            ),
                            ..p
                        },
                    ),
                    reply(200, "File validator added successfully"@),
                ),
            }
        }
    }
}

/// Grant a validator access, located by `validator_id` within the
/// file's validator collection: clears `is_revoked` if it was set; if
/// already enabled the state is left untouched and success is still
/// reported. A missing file or validator is reported as 409.
pub open spec fn spec_add_validator_access(
    s: Seq<ProjectView>,
    project_hash: Seq<char>,
    file_hash: Seq<char>,
    validator_id: Seq<char>,
) -> (Seq<ProjectView>, ReturnMessageView) {
    match find_project(s, project_hash) {
        None => (s, reply(404, "Project not found"@)),
        Some(i) => {
            let p = s[i];
            match find_file(p.files, file_hash) {
                None => (s, reply(409, "File does not exist"@)),
                Some(j) => {
                    let f = p.files[j];
                    match find_validator_by_id(f.validators, validator_id) {
                        None => (s, reply(409, "File validator does not exist"@)),
                        Some(k) => {
                            if f.validators[k].is_revoked {
                                (
                                    s.update(
                                        i,
                                        ProjectView {
                                            files: p.files.update(
                                                j,
                                                FileView {
                                                    validators: f.validators.update(
                                                        k,
                                                        ValidatorView {
                                                            is_revoked: false,
                                                            ..f.validators[k]
                                                        },
                                                    ),
                                                    ..f
                                                },
                                            ),
                                            ..p
                                        },
                                    ),
                                    reply(200, "File added successfully"@),
                                )
                            } else {
                                (s, reply(200, "File validator's access is already enabled"@))
                            }
                        }
                    }
                }
            }
        }
    }
}

/// Revoke a validator's access, located by `validator_id`: sets
/// `is_revoked` if it was clear; if already disabled the state is left
/// untouched and success is still reported. A missing file or validator
/// is reported as 409.
pub open spec fn spec_remove_validator_access(
    s: Seq<ProjectView>,
    project_hash: Seq<char>,
    file_hash: Seq<char>,
    validator_id: Seq<char>,
) -> (Seq<ProjectView>, ReturnMessageView) {
    match find_project(s, project_hash) {
        None => (s, reply(404, "Project not found"@)),
        Some(i) => {
            let p = s[i];
            match find_file(p.files, file_hash) {
                None => (s, reply(409, "File does not exist"@)),
                Some(j) => {
                    let f = p.files[j];
                    match find_validator_by_id(f.validators, validator_id) {
                        None => (s, reply(409, "File validator does not exist"@)),
                        Some(k) => {
                            if !f.validators[k].is_revoked {
                                (
                                    s.update(
                                        i,
                                        ProjectView {
                                            files: p.files.update(
                                                j,
                                                FileView {
                                                    validators: f.validators.update(
                                                        k,
                                                        ValidatorView {
                                                            is_revoked: true,
                                                            ..f.validators[k]
                                                        },
                                                    ),
                                                    ..f
                                                },
                                            ),
                                            ..p
                                        },
                                    ),
                                    reply(200, "File added successfully"@),
                                )
                            } else {
                                (s, reply(200, "File validator's access is already disabled"@))
                            }
                        }
                    }
                }
            }
        }
    }
}

/// Record a validator's own opinion after validation, located by
/// `validator_email` (not by id): sets the validator's independent
/// `file_status`, leaving the file's aggregate-level status untouched.
/// A missing file or validator is reported as 409.
pub open spec fn spec_update_validator_after_file_validation(
    s: Seq<ProjectView>,
    project_hash: Seq<char>,
    file_hash: Seq<char>,
    validator_email: Seq<char>,
    file_status: Seq<char>,
) -> (Seq<ProjectView>, ReturnMessageView) {
    match find_project(s, project_hash) {
        None => (s, reply(404, "Project not found"@)),
        Some(i) => {
            let p = s[i];
            match find_file(p.files, file_hash) {
                None => (s, reply(409, "File does not exist"@)),
                Some(j) => {
                    let f = p.files[j];
                    match find_validator_by_email(f.validators, validator_email) {
                        None => (s, reply(409, "File validator does not exist"@)),
                        Some(k) => (
                            s.update(
                                i,
                                ProjectView {
                                    files: p.files.update(
                                        j,
                                        FileView {
                                            validators: f.validators.update(
                                                k,
                                                ValidatorView {
                                                    file_status,
                                                    ..f.validators[k]
                                                },
                                            ),
                                            ..f
                                        },
                                    ),
                                    ..p
                                },
                            ),
                            reply(200, "File added successfully"@),
                        ),
                    }
                }
            }
        }
    }
}

/// Query a project: read-only, and 200 in both outcomes — found and
/// not-found are distinguished only by the message text.
pub open spec fn spec_query_project(
    s: Seq<ProjectView>,
    project_hash: Seq<char>,
) -> ReturnMessageView {
    match find_project(s, project_hash) {
        Some(_) => reply(200, "Project found"@),
        None => reply(200, "Project not found"@),
    }
}

/// Add a supplier: 404 if the project is absent, 409 if the
/// `supplier_email` is taken, else the supplier is appended.
pub open spec fn spec_add_supplier(
    s: Seq<ProjectView>,
    project_hash: Seq<char>,
    category: Seq<char>,
    contact_name: Seq<char>,
    supplier_id: Seq<char>,
    supplier_email: Seq<char>,
    company_name: Seq<char>,
    company_website: Seq<char>,
    requested_documents: Seq<char>,
) -> (Seq<ProjectView>, ReturnMessageView) {
    match find_project(s, project_hash) {
        None => (s, reply(404, "Project not found"@)),
        Some(i) => {
            let p = s[i];
            match find_supplier(p.suppliers, supplier_email) {
                Some(_) => (s, reply(409, "Supplier with the same email already exists"@)),
                None => (
                    s.update(
                        i,
                        ProjectView {
                            suppliers: p.suppliers.push(
                                spec_new_supplier(
                                    category,
                                    contact_name,
                                    supplier_id,
                                    supplier_email,
                                    company_name,
                                    company_website,
                                    requested_documents,
                                    transaction_reference(),
                                ),
                            ),
                            ..p
                        },
                    ),
                    reply(200, "Folder added successfully"@),
                ),
            }
        }
    }
}

} // verus!
