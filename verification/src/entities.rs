//! The stored entities: project aggregates and everything they own.
//!
//! Every entity carries an audit record (`UpdateLogs`) stamped at
//! creation with the wall-clock time, the causal transaction reference,
//! and a fixed label naming the operation that created it.

use vstd::prelude::*;
use crate::clock::current_time_string;
use crate::model::{
    FileView, FolderView, ProjectView, SubFolderView, SupplierView, UpdateLogsView, UserView,
    ValidatorView,
};

verus! {

/// Audit record embedded in every entity.
#[derive(Debug)]
pub struct UpdateLogs {
    pub time_stamp: String,
    pub transaction_hash: String,
    pub transaction_type: String,
}

impl View for UpdateLogs {
    type V = UpdateLogsView;

    open spec fn view(&self) -> UpdateLogsView {
        UpdateLogsView {
            transaction_hash: self.transaction_hash@,
            transaction_type: self.transaction_type@,
        }
    }
}

/// A folder within a project, identified by the content hash of
/// `project_id` and `folder_name`.
#[derive(Debug)]
pub struct Folder {
    pub folder_hash: String,
    pub project_id: String,
    pub folder_name: String,
    pub update_logs: UpdateLogs,
}

impl View for Folder {
    type V = FolderView;

    open spec fn view(&self) -> FolderView {
        FolderView {
            folder_hash: self.folder_hash@,
            project_id: self.project_id@,
            folder_name: self.folder_name@,
            update_logs: self.update_logs@,
        }
    }
}

/// A sub-folder, identified by the content hash of `folder_id` and
/// `sub_folder_name`.
#[derive(Debug)]
pub struct SubFolder {
    pub sub_folder_hash: String,
    pub project_id: String,
    pub folder_id: String,
    pub sub_folder_name: String,
    pub update_logs: UpdateLogs,
}

impl View for SubFolder {
    type V = SubFolderView;

    open spec fn view(&self) -> SubFolderView {
        SubFolderView {
            sub_folder_hash: self.sub_folder_hash@,
            project_id: self.project_id@,
            folder_id: self.folder_id@,
            sub_folder_name: self.sub_folder_name@,
            update_logs: self.update_logs@,
        }
    }
}

/// A user of a project, identified by a caller-supplied `user_id`, with
/// a revocation flag that the access operations toggle.
#[derive(Debug)]
pub struct User {
    pub user_name: String,
    pub user_id: String,
    pub is_revoked: bool,
    pub update_logs: UpdateLogs,
}

impl View for User {
    type V = UserView;

    open spec fn view(&self) -> UserView {
        UserView {
            user_name: self.user_name@,
            user_id: self.user_id@,
            is_revoked: self.is_revoked,
            update_logs: self.update_logs@,
        }
    }
}

/// A validator attached to a file, identified by `validator_id`, with
/// its own revocation flag and an independent per-validator status.
#[derive(Debug)]
pub struct Validator {
    pub validator_id: String,
    pub validator_ip: String,
    pub validator_email: String,
    pub validator_organization: String,
    pub is_revoked: bool,
    pub can_sign: String,
    pub file_validation_hash: String,
    pub file_status: String,
    pub update_logs: UpdateLogs,
}

impl View for Validator {
    type V = ValidatorView;

    open spec fn view(&self) -> ValidatorView {
        ValidatorView {
            validator_id: self.validator_id@,
            validator_ip: self.validator_ip@,
            validator_email: self.validator_email@,
            validator_organization: self.validator_organization@,
            is_revoked: self.is_revoked,
            can_sign: self.can_sign@,
            file_validation_hash: self.file_validation_hash@,
            file_status: self.file_status@,
            update_logs: self.update_logs@,
        }
    }
}

/// An uploaded file, identified by a caller-supplied `file_hash`, with
/// an aggregate-level status and its own validator collection.
#[derive(Debug)]
pub struct File {
    pub file_hash: String,
    pub file_title: String,
    pub user_id: String,
    pub folder_id: String,
    pub expiry_date: String,
    pub file_status: String,
    pub validators: Vec<Validator>,
    pub update_logs: UpdateLogs,
}

impl View for File {
    type V = FileView;

    open spec fn view(&self) -> FileView {
        FileView {
            file_hash: self.file_hash@,
            file_title: self.file_title@,
            user_id: self.user_id@,
            folder_id: self.folder_id@,
            expiry_date: self.expiry_date@,
            file_status: self.file_status@,
            validators: validator_views(self.validators@),
            update_logs: self.update_logs@,
        }
    }
}

/// A supplier of a project, identified by `supplier_email`.
#[derive(Debug)]
pub struct Supplier {
    pub category: String,
    pub contact_name: String,
    pub supplier_id: String,
    pub supplier_email: String,
    pub company_name: String,
    pub company_website: String,
    pub requested_documents: String,
    pub update_logs: UpdateLogs,
}

impl View for Supplier {
    type V = SupplierView;

    open spec fn view(&self) -> SupplierView {
        SupplierView {
            category: self.category@,
            contact_name: self.contact_name@,
            supplier_id: self.supplier_id@,
            supplier_email: self.supplier_email@,
            company_name: self.company_name@,
            company_website: self.company_website@,
            requested_documents: self.requested_documents@,
            update_logs: self.update_logs@,
        }
    }
}

/// A project aggregate: identity, creator, the five owned collections,
/// and its own audit record.
#[derive(Debug)]
pub struct Project {
    pub created_by: String,
    pub project_hash: String,
    pub folders: Vec<Folder>,
    pub sub_folders: Vec<SubFolder>,
    pub users: Vec<User>,
    pub files: Vec<File>,
    pub suppliers: Vec<Supplier>,
    pub update_logs: UpdateLogs,
}

impl View for Project {
    type V = ProjectView;

    open spec fn view(&self) -> ProjectView {
        ProjectView {
            created_by: self.created_by@,
            project_hash: self.project_hash@,
            folders: folder_views(self.folders@),
            sub_folders: sub_folder_views(self.sub_folders@),
            users: user_views(self.users@),
            files: file_views(self.files@),
            suppliers: supplier_views(self.suppliers@),
            update_logs: self.update_logs@,
        }
    }
}

/// The views of a sequence of folders.
pub open spec fn folder_views(s: Seq<Folder>) -> Seq<FolderView> {
    s.map_values(|x: Folder| x@)
}

/// The views of a sequence of sub-folders.
pub open spec fn sub_folder_views(s: Seq<SubFolder>) -> Seq<SubFolderView> {
    s.map_values(|x: SubFolder| x@)
}

/// The views of a sequence of users.
pub open spec fn user_views(s: Seq<User>) -> Seq<UserView> {
    s.map_values(|x: User| x@)
}

/// The views of a sequence of validators.
pub open spec fn validator_views(s: Seq<Validator>) -> Seq<ValidatorView> {
    s.map_values(|x: Validator| x@)
}

/// The views of a sequence of files.
pub open spec fn file_views(s: Seq<File>) -> Seq<FileView> {
    s.map_values(|x: File| x@)
}

/// The views of a sequence of suppliers.
pub open spec fn supplier_views(s: Seq<Supplier>) -> Seq<SupplierView> {
    s.map_values(|x: Supplier| x@)
}

/// The views of a sequence of projects.
pub open spec fn project_views(s: Seq<Project>) -> Seq<ProjectView> {
    s.map_values(|x: Project| x@)
}

/// The audit record a fresh entity carries: the given transaction
/// reference and operation label.
pub open spec fn spec_new_logs(transaction_hash: Seq<char>, label: Seq<char>) -> UpdateLogsView {
    UpdateLogsView { transaction_hash, transaction_type: label }
}

/// The model of a newly created project: empty collections, stamped
/// with the "Add Project" label.
pub open spec fn spec_new_project(
    created_by: Seq<char>,
    project_hash: Seq<char>,
    transaction_hash: Seq<char>,
) -> ProjectView {
    ProjectView {
        created_by,
        project_hash,
        folders: Seq::empty(),
        sub_folders: Seq::empty(),
        users: Seq::empty(),
        files: Seq::empty(),
        suppliers: Seq::empty(),
        update_logs: spec_new_logs(transaction_hash, "Add Project"@),
    }
}

/// The model of a newly created folder.
pub open spec fn spec_new_folder(
    folder_hash: Seq<char>,
    project_id: Seq<char>,
    folder_name: Seq<char>,
    transaction_hash: Seq<char>,
) -> FolderView {
    FolderView {
        folder_hash,
        project_id,
        folder_name,
        update_logs: spec_new_logs(transaction_hash, "Add Folder"@),
    }
}

/// The model of a newly created sub-folder.
pub open spec fn spec_new_sub_folder(
    sub_folder_hash: Seq<char>,
    project_id: Seq<char>,
    folder_id: Seq<char>,
    sub_folder_name: Seq<char>,
    transaction_hash: Seq<char>,
) -> SubFolderView {
    SubFolderView {
        sub_folder_hash,
        project_id,
        folder_id,
        sub_folder_name,
        update_logs: spec_new_logs(transaction_hash, "Add Sub Folder"@),
    }
}

/// The model of a newly created user: access enabled.
pub open spec fn spec_new_user(
    user_name: Seq<char>,
    user_id: Seq<char>,
    transaction_hash: Seq<char>,
) -> UserView {
    UserView {
        user_name,
        user_id,
        is_revoked: false,
        update_logs: spec_new_logs(transaction_hash, "Add User"@),
    }
}

/// The model of a newly created file: initial status `RED`, no
/// validators.
pub open spec fn spec_new_file(
    file_hash: Seq<char>,
    file_title: Seq<char>,
    user_id: Seq<char>,
    folder_id: Seq<char>,
    expiry_date: Seq<char>,
    transaction_hash: Seq<char>,
) -> FileView {
    FileView {
        file_hash,
        file_title,
        user_id,
        folder_id,
        expiry_date,
        file_status: "RED"@,
        validators: Seq::empty(),
        update_logs: spec_new_logs(transaction_hash, "Add File"@),
    }
}

/// The model of a newly created validator: access enabled, empty
/// validation hash and status opinion.
pub open spec fn spec_new_validator(
    validator_id: Seq<char>,
    validator_ip: Seq<char>,
    validator_email: Seq<char>,
    validator_organization: Seq<char>,
    can_sign: Seq<char>,
    transaction_hash: Seq<char>,
) -> ValidatorView {
    ValidatorView {
        validator_id,
        validator_ip,
        validator_email,
        validator_organization,
        is_revoked: false,
        can_sign,
        file_validation_hash: Seq::empty(),
        file_status: Seq::empty(),
        update_logs: spec_new_logs(transaction_hash, "Add Validator"@),
    }
}

/// The model of a newly created supplier.
pub open spec fn spec_new_supplier(
    category: Seq<char>,
    contact_name: Seq<char>,
    supplier_id: Seq<char>,
    supplier_email: Seq<char>,
    company_name: Seq<char>,
    company_website: Seq<char>,
    requested_documents: Seq<char>,
    transaction_hash: Seq<char>,
) -> SupplierView {
    SupplierView {
        category,
        contact_name,
        supplier_id,
        supplier_email,
        company_name,
        company_website,
        requested_documents,
        update_logs: spec_new_logs(transaction_hash, "Add Supplier"@),
    }
}

impl UpdateLogs {
    /// Stamp a fresh audit record for an operation labelled `label`.
    /// The timestamp is whatever the clock gives.
    pub(crate) fn stamp(transaction_hash: String, label: String) -> (r: UpdateLogs)
        ensures
            r@ == spec_new_logs(transaction_hash@, label@),
    {
        UpdateLogs {
            time_stamp: current_time_string(),
            transaction_hash,
            transaction_type: label,
        }
    }
}

impl Project {
    /// A fresh, empty project aggregate.
    pub fn create_project(
        created_by: String,
        project_hash: String,
        transaction_hash: String,
    ) -> (r: Self)
        ensures
            r@ == spec_new_project(created_by@, project_hash@, transaction_hash@),
    {
        let r = Self {
            created_by,
            project_hash,
            folders: Vec::new(),
            sub_folders: Vec::new(),
            files: Vec::new(),
            suppliers: Vec::new(),
            users: Vec::new(),
            update_logs: UpdateLogs::stamp(transaction_hash, "Add Project".to_owned()),
        };
        proof {
            assert(r@ =~= spec_new_project(r.created_by@, r.project_hash@, r.update_logs.transaction_hash@));
        }
        r
    }
}

impl Folder {
    /// A fresh folder entity.
    pub fn create_folder(
        folder_hash: String,
        project_id: String,
        folder_name: String,
        transaction_hash: String,
    ) -> (r: Self)
        ensures
            r@ == spec_new_folder(folder_hash@, project_id@, folder_name@, transaction_hash@),
    {
        Self {
            folder_hash,
            project_id,
            folder_name,
            update_logs: UpdateLogs::stamp(transaction_hash, "Add Folder".to_owned()),
        }
    }
}

impl SubFolder {
    /// A fresh sub-folder entity.
    pub fn create_sub_folder(
        sub_folder_hash: String,
        project_id: String,
        folder_id: String,
        sub_folder_name: String,
        transaction_hash: String,
    ) -> (r: Self)
        ensures
            r@ == spec_new_sub_folder(
                sub_folder_hash@,
                project_id@,
                folder_id@,
                sub_folder_name@,
                transaction_hash@,
            ),
    {
        Self {
            sub_folder_hash,
            project_id,
            folder_id,
            sub_folder_name,
            update_logs: UpdateLogs::stamp(transaction_hash, "Add Sub Folder".to_owned()),
        }
    }
}

impl User {
    /// A fresh user entity with access enabled.
    pub fn create_user(user_name: String, user_id: String, transaction_hash: String) -> (r: Self)
        ensures
            r@ == spec_new_user(user_name@, user_id@, transaction_hash@),
    {
        Self {
            user_name,
            user_id,
            is_revoked: false,
            update_logs: UpdateLogs::stamp(transaction_hash, "Add User".to_owned()),
        }
    }
}

impl File {
    /// A fresh file entity with initial status `RED` and no validators.
    pub fn create_file(
        file_hash: String,
        file_title: String,
        user_id: String,
        folder_id: String,
        expiry_date: String,
        transaction_hash: String,
    ) -> (r: Self)
        ensures
            r@ == spec_new_file(
                file_hash@,
                file_title@,
                user_id@,
                folder_id@,
                expiry_date@,
                transaction_hash@,
            ),
    {
        let r = Self {
            file_hash,
            file_title,
            user_id,
            folder_id,
            expiry_date,
            file_status: "RED".to_owned(),
            validators: Vec::new(),
            update_logs: UpdateLogs::stamp(transaction_hash, "Add File".to_owned()),
        };
        proof {
            assert(r@ =~= spec_new_file(
                r.file_hash@,
                r.file_title@,
                r.user_id@,
                r.folder_id@,
                r.expiry_date@,
                r.update_logs.transaction_hash@,
            ));
        }
        r
    }
}

impl Validator {
    /// A fresh validator entity with access enabled and empty status.
    pub fn create_validator(
        validator_id: String,
        validator_ip: String,
        validator_email: String,
        validator_organization: String,
        can_sign: String,
        transaction_hash: String,
    ) -> (r: Self)
        ensures
            r@ == spec_new_validator(
                validator_id@,
                validator_ip@,
                validator_email@,
                validator_organization@,
                can_sign@,
                transaction_hash@,
            ),
    {
        let r = Self {
            validator_id,
            validator_ip,
            validator_email,
            validator_organization,
            can_sign,
            is_revoked: false,
            file_validation_hash: String::new(),
            file_status: String::new(),
            update_logs: UpdateLogs::stamp(transaction_hash, "Add Validator".to_owned()),
        };
        proof {
            assert(r@ =~= spec_new_validator(
                r.validator_id@,
                r.validator_ip@,
                r.validator_email@,
                r.validator_organization@,
                r.can_sign@,
                r.update_logs.transaction_hash@,
            ));
        }
        r
    }
}

impl Supplier {
    /// A fresh supplier entity.
    pub fn create_supplier(
        category: String,
        contact_name: String,
        supplier_id: String,
        supplier_email: String,
        company_name: String,
        company_website: String,
        requested_documents: String,
        transaction_hash: String,
    ) -> (r: Self)
        ensures
            r@ == spec_new_supplier(
                category@,
                contact_name@,
                supplier_id@,
                supplier_email@,
                company_name@,
                company_website@,
                requested_documents@,
                transaction_hash@,
            ),
    {
        Self {
            category,
            contact_name,
            supplier_id,
            supplier_email,
            company_name,
            company_website,
            requested_documents,
            update_logs: UpdateLogs::stamp(transaction_hash, "Add Supplier".to_owned()),
        }
    }
}

} // verus!
