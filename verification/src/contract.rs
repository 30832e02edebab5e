//! The aggregate store and the public operations.
//!
//! The store maps content-derived hash keys to project aggregates,
//! at most one per key; operations load the target aggregate, check
//! uniqueness or current state, mutate, and report a uniform result.
//! Each operation's contract says it behaves exactly as the matching
//! transition function of the model.

use vstd::prelude::*;
use crate::entities::{
    project_views, File, Folder, Project, SubFolder, Supplier, User, Validator,
};
use crate::hashing::hash_pair;
use crate::lookup::{
    find_file_index, find_folder_index, find_project_index, find_sub_folder_index,
    find_supplier_index, find_user_index, find_validator_by_email_index,
    find_validator_by_id_index,
};
use crate::model::ProjectView;
use crate::results::{ProjectReturnMessage, ReturnMessage};
use crate::transitions::{
    spec_accept_file, spec_add_file, spec_add_folder, spec_add_project, spec_add_sub_folder,
    spec_add_supplier, spec_add_user, spec_add_user_access, spec_add_validator,
    spec_add_validator_access, spec_query_project, spec_reject_file, spec_remove_user_access,
    spec_remove_validator_access, spec_update_file,
    spec_update_validator_after_file_validation,
};

verus! {

/// The aggregate store: at most one project per content hash. The
/// sequence holds each aggregate once, keyed by its `project_hash`;
/// `add_project` alone appends, after checking the key is absent.
pub struct Contract {
    pub projects: Vec<Project>,
}

impl View for Contract {
    type V = Seq<ProjectView>;

    open spec fn view(&self) -> Seq<ProjectView> {
        project_views(self.projects@)
    }
}

impl Default for Contract {
    /// An empty store.
    fn default() -> (r: Self)
        ensures
            r@ == Seq::<ProjectView>::empty(),
    {
        let r = Contract { projects: Vec::new() };
        proof {
            assert(r@ =~= Seq::<ProjectView>::empty());
        }
        r
    }
}

impl Contract {
    /// Create a project keyed by the hash of `logo` and `project_name`;
    /// 409 if one already exists under that key.
    pub fn add_project(
        &mut self,
        project_name: String,
        logo: String,
        created_by: String,
    ) -> (r: ProjectReturnMessage)
        ensures
            ({
                let (s, m) = spec_add_project(old(self)@, project_name@, logo@, created_by@);
                final(self)@ == s && r@ == m
            }),
    {
        let hash = hash_pair(&logo, &project_name);
        let transaction_hash = "Transaction Hash".to_owned();

        match find_project_index(&self.projects, &hash) {
            Some(_) => ProjectReturnMessage {
                result: 409,
                message: "Project already exists".to_owned(),
                transaction_hash,
                hash,
            },
            None => {
                let ghost s0 = self@;
                let p = Project::create_project(
                    created_by,
                    hash.clone(),
                    transaction_hash.clone(),
                );
                self.projects.push(p);
                proof {
                    assert(self@ =~~= spec_add_project(s0, project_name@, logo@, created_by@).0);
                }
                ProjectReturnMessage {
                    result: 200,
                    message: "Project added successfully".to_owned(),
                    hash,
                    transaction_hash,
                }
            }
        }
    }

    /// Add a folder to the project stored under `project_hash`; 409 if
    /// a folder of the same name exists, 404 if the project is absent.
    pub fn add_folder(
        &mut self,
        project_hash: String,
        project_id: String,
        folder_name: String,
    ) -> (r: ReturnMessage)
        ensures
            ({
                let (s, m) = spec_add_folder(old(self)@, project_hash@, project_id@, folder_name@);
                final(self)@ == s && r@ == m
            }),
    {
        let ghost pid = project_id@;
        let ghost fname = folder_name@;
        let folder_hash = hash_pair(&project_id, &folder_name);
        let transaction_hash = "Transaction Hash".to_owned();

        match find_project_index(&self.projects, &project_hash) {
            None => ReturnMessage {
                result: 404,
                message: "Project not found".to_owned(),
                transaction_hash,
            },
            Some(i) => {
                proof {
                    crate::find::lemma_find_project(self@, project_hash@);
                }
                match find_folder_index(&self.projects[i].folders, &folder_name) {
                    Some(_) => ReturnMessage {
                        result: 409,
                        message: "Folder with the same name already exists".to_owned(),
                        transaction_hash,
                    },
                    None => {
                        let ghost s0 = self@;
                        let f = Folder::create_folder(
                            folder_hash,
                            project_id,
                            folder_name,
                            transaction_hash.clone(),
                        );
                        self.projects[i].folders.push(f);
                        proof {
                            assert(self@ =~~= spec_add_folder(s0, project_hash@, pid, fname).0);
                        }
                        ReturnMessage {
                            result: 200,
                            message: "Folder added successfully".to_owned(),
                            transaction_hash,
                        }
                    }
                }
            }
        }
    }

    /// Add a sub-folder to the project stored under `project_hash`;
    /// the uniqueness scan runs over the project's flat sub-folder
    /// collection. 409 on a duplicate name, 404 if the project is
    /// absent.
    pub fn add_sub_folder(
        &mut self,
        project_hash: String,
        project_id: String,
        folder_id: String,
        sub_folder_name: String,
    ) -> (r: ReturnMessage)
        ensures
            ({
                let (s, m) = spec_add_sub_folder(
                    old(self)@,
                    project_hash@,
                    project_id@,
                    folder_id@,
                    sub_folder_name@,
                );
                final(self)@ == s && r@ == m
            }),
    {
        let ghost pid = project_id@;
        let ghost fid = folder_id@;
        let ghost sname = sub_folder_name@;
        let sub_folder_hash = hash_pair(&folder_id, &sub_folder_name);
        let transaction_hash = "Transaction Hash".to_owned();

        match find_project_index(&self.projects, &project_hash) {
            None => ReturnMessage {
                result: 404,
                message: "Project not found".to_owned(),
                transaction_hash,
            },
            Some(i) => {
                proof {
                    crate::find::lemma_find_project(self@, project_hash@);
                }
                match find_sub_folder_index(&self.projects[i].sub_folders, &sub_folder_name) {
                    Some(_) => ReturnMessage {
                        result: 409,
                        message: "Sub folder with the same name already exists".to_owned(),
                        transaction_hash,
                    },
                    None => {
                        let ghost s0 = self@;
                        let f = SubFolder::create_sub_folder(
                            sub_folder_hash,
                            project_id,
                            folder_id,
                            sub_folder_name,
                            transaction_hash.clone(),
                        );
                        self.projects[i].sub_folders.push(f);
                        proof {
                            assert(self@ =~~= spec_add_sub_folder(
                                s0,
                                project_hash@,
                                pid,
                                fid,
                                sname,
                            ).0);
                        }
                        ReturnMessage {
                            result: 200,
                            message: "Sub folder added successfully".to_owned(),
                            transaction_hash,
                        }
                    }
                }
            }
        }
    }

    /// Add a user to the project stored under `project_hash`; 409 if
    /// the `user_id` is taken, 404 if the project is absent.
    pub fn add_user(
        &mut self,
        project_hash: String,
        user_name: String,
        user_id: String,
    ) -> (r: ReturnMessage)
        ensures
            ({
                let (s, m) = spec_add_user(old(self)@, project_hash@, user_name@, user_id@);
                final(self)@ == s && r@ == m
            }),
    {
        let ghost uname = user_name@;
        let ghost uid = user_id@;
        let transaction_hash = "Transaction Hash".to_owned();

        match find_project_index(&self.projects, &project_hash) {
            None => ReturnMessage {
                result: 404,
                message: "Project not found".to_owned(),
                transaction_hash,
            },
            Some(i) => {
                proof {
                    crate::find::lemma_find_project(self@, project_hash@);
                }
                match find_user_index(&self.projects[i].users, &user_id) {
                    Some(_) => ReturnMessage {
                        result: 409,
                        message: "User already exists".to_owned(),
                        transaction_hash,
                    },
                    None => {
                        let ghost s0 = self@;
                        let u = User::create_user(user_name, user_id, transaction_hash.clone());
                        self.projects[i].users.push(u);
                        proof {
                            assert(self@ =~~= spec_add_user(s0, project_hash@, uname, uid).0);
                        }
                        ReturnMessage {
                            result: 200,
                            message: "User added successfully".to_owned(),
                            transaction_hash,
                        }
                    }
                }
            }
        }
    }

    /// Grant a user access: clears `is_revoked` if it was set; reports
    /// success either way, touching the store only when the flag flips.
    pub fn add_user_access(&mut self, project_hash: String, user_id: String) -> (r: ReturnMessage)
        ensures
            ({
                let (s, m) = spec_add_user_access(old(self)@, project_hash@, user_id@);
                final(self)@ == s && r@ == m
            }),
    {
        let transaction_hash = "Transaction Hash".to_owned();

        match find_project_index(&self.projects, &project_hash) {
            None => ReturnMessage {
                result: 404,
                message: "Project not found".to_owned(),
                transaction_hash,
            },
            Some(i) => {
                proof {
                    crate::find::lemma_find_project(self@, project_hash@);
                }
                match find_user_index(&self.projects[i].users, &user_id) {
                    None => ReturnMessage {
                        result: 404,
                        message: "User not found".to_owned(),
                        transaction_hash,
                    },
                    Some(j) => {
                        proof {
                            crate::find::lemma_find_user(
                                crate::entities::user_views(self.projects@[i as int].users@),
                                user_id@,
                            );
                        }
                        if self.projects[i].users[j].is_revoked {
                            let ghost s0 = self@;
                            self.projects[i].users[j].is_revoked = false;
                            proof {
                                assert(self@ =~~= spec_add_user_access(
                                    s0,
                                    project_hash@,
                                    user_id@,
                                ).0);
                            }
                            ReturnMessage {
                                result: 200,
                                message: "User's access added successfully".to_owned(),
                                transaction_hash,
                            }
                        } else {
                            ReturnMessage {
                                result: 200,
                                message: "User's access is already enabled".to_owned(),
                                transaction_hash,
                            }
                        }
                    }
                }
            }
        }
    }

    /// Revoke a user's access: sets `is_revoked` if it was clear;
    /// reports success either way, touching the store only when the
    /// flag flips.
    pub fn remove_user_access(
        &mut self,
        project_hash: String,
        user_id: String,
    ) -> (r: ReturnMessage)
        ensures
            ({
                let (s, m) = spec_remove_user_access(old(self)@, project_hash@, user_id@);
                final(self)@ == s && r@ == m
            }),
    {
        let transaction_hash = "Transaction Hash".to_owned();

        match find_project_index(&self.projects, &project_hash) {
            None => ReturnMessage {
                result: 404,
                message: "Project not found".to_owned(),
                transaction_hash,
            },
            Some(i) => {
                proof {
                    crate::find::lemma_find_project(self@, project_hash@);
                }
                match find_user_index(&self.projects[i].users, &user_id) {
                    None => ReturnMessage {
                        result: 404,
                        message: "User not found".to_owned(),
                        transaction_hash,
                    },
                    Some(j) => {
                        proof {
                            crate::find::lemma_find_user(
                                crate::entities::user_views(self.projects@[i as int].users@),
                                user_id@,
                            );
                        }
                        if !self.projects[i].users[j].is_revoked {
                            let ghost s0 = self@;
                            self.projects[i].users[j].is_revoked = true;
                            proof {
                                assert(self@ =~~= spec_remove_user_access(
                                    s0,
                                    project_hash@,
                                    user_id@,
                                ).0);
                            }
                            ReturnMessage {
                                result: 200,
                                message: "User's access removed successfully".to_owned(),
                                transaction_hash,
                            }
                        } else {
                            ReturnMessage {
                                result: 200,
                                message: "User's access is already disabled".to_owned(),
                                transaction_hash,
                            }
                        }
                    }
                }
            }
        }
    }

    /// Add a file to the project stored under `project_hash`; 409 if
    /// the `file_hash` is taken, 404 if the project is absent.
    pub fn add_file(
        &mut self,
        project_hash: String,
        file_hash: String,
        title: String,
        user_id: String,
        folder_id: String,
        expiry_date: String,
    ) -> (r: ReturnMessage)
        ensures
            ({
                let (s, m) = spec_add_file(
                    old(self)@,
                    project_hash@,
                    file_hash@,
                    title@,
                    user_id@,
                    folder_id@,
                    expiry_date@,
                );
                final(self)@ == s && r@ == m
            }),
    {
        let ghost fh = file_hash@;
        let ghost ft = title@;
        let ghost fu = user_id@;
        let ghost ff = folder_id@;
        let ghost fe = expiry_date@;
        let transaction_hash = "Transaction Hash".to_owned();

        match find_project_index(&self.projects, &project_hash) {
            None => ReturnMessage {
                result: 404,
                message: "Project not found".to_owned(),
                transaction_hash,
            },
            Some(i) => {
                proof {
                    crate::find::lemma_find_project(self@, project_hash@);
                }
                match find_file_index(&self.projects[i].files, &file_hash) {
                    Some(_) => ReturnMessage {
                        result: 409,
                        message: "File already exists".to_owned(),
                        transaction_hash,
                    },
                    None => {
                        let ghost s0 = self@;
                        let f = File::create_file(
                            file_hash,
                            title,
                            user_id,
                            folder_id,
                            expiry_date,
                            transaction_hash.clone(),
                        );
                        self.projects[i].files.push(f);
                        proof {
                            assert(self@ =~~= spec_add_file(
                                s0,
                                project_hash@,
                                fh,
                                ft,
                                fu,
                                ff,
                                fe,
                            ).0);
                        }
                        ReturnMessage {
                            result: 200,
                            message: "File added successfully".to_owned(),
                            transaction_hash,
                        }
                    }
                }
            }
        }
    }

    /// Accept a file: sets its status to `GREEN` unless it is `GREEN`
    /// already; reports success either way.
    pub fn accept_file(&mut self, project_hash: String, file_hash: String) -> (r: ReturnMessage)
        ensures
            ({
                let (s, m) = spec_accept_file(old(self)@, project_hash@, file_hash@);
                final(self)@ == s && r@ == m
            }),
    {
        let transaction_hash = "Transaction Hash".to_owned();

        match find_project_index(&self.projects, &project_hash) {
            None => ReturnMessage {
                result: 404,
                message: "Project not found".to_owned(),
                transaction_hash,
            },
            Some(i) => {
                proof {
                    crate::find::lemma_find_project(self@, project_hash@);
                }
                match find_file_index(&self.projects[i].files, &file_hash) {
                    None => ReturnMessage {
                        result: 404,
                        message: "File not found".to_owned(),
                        transaction_hash,
                    },
                    Some(j) => {
                        proof {
                            crate::find::lemma_find_file(
                                crate::entities::file_views(self.projects@[i as int].files@),
                                file_hash@,
                            );
                        }
                        let green = "GREEN".to_owned();
                        if self.projects[i].files[j].file_status != green {
                            let ghost s0 = self@;
                            self.projects[i].files[j].file_status = green;
                            proof {
                                assert(self@ =~~= spec_accept_file(
                                    s0,
                                    project_hash@,
                                    file_hash@,
                                ).0);
                            }
                            ReturnMessage {
                                result: 200,
                                message: "File status accepted successfully".to_owned(),
                                transaction_hash,
                            }
                        } else {
                            ReturnMessage {
                                result: 200,
                                message: "File status already accepted".to_owned(),
                                transaction_hash,
                            }
                        }
                    }
                }
            }
        }
    }

    /// Reject a file: sets its status to `RED` unless it is `RED`
    /// already; reports success either way.
    pub fn reject_file(&mut self, project_hash: String, file_hash: String) -> (r: ReturnMessage)
        ensures
            ({
                let (s, m) = spec_reject_file(old(self)@, project_hash@, file_hash@);
                final(self)@ == s && r@ == m
            }),
    {
        let transaction_hash = "Transaction Hash".to_owned();

        match find_project_index(&self.projects, &project_hash) {
            None => ReturnMessage {
                result: 404,
                message: "Project not found".to_owned(),
                transaction_hash,
            },
            Some(i) => {
                proof {
                    crate::find::lemma_find_project(self@, project_hash@);
                }
                match find_file_index(&self.projects[i].files, &file_hash) {
                    None => ReturnMessage {
                        result: 404,
                        message: "File not found".to_owned(),
                        transaction_hash,
                    },
                    Some(j) => {
                        proof {
                            crate::find::lemma_find_file(
                                crate::entities::file_views(self.projects@[i as int].files@),
                                file_hash@,
                            );
                        }
                        let red = "RED".to_owned();
                        if self.projects[i].files[j].file_status != red {
                            let ghost s0 = self@;
                            self.projects[i].files[j].file_status = red;
                            proof {
                                assert(self@ =~~= spec_reject_file(
                                    s0,
                                    project_hash@,
                                    file_hash@,
                                ).0);
                            }
                            ReturnMessage {
                                result: 200,
                                message: "File status accepted successfully".to_owned(),
                                transaction_hash,
                            }
                        } else {
                            ReturnMessage {
                                result: 200,
                                message: "File status already rejected".to_owned(),
                                transaction_hash,
                            }
                        }
                    }
                }
            }
        }
    }

    /// Update a file's status to an arbitrary caller-supplied string,
    /// persisted verbatim with no validation against the enumerated
    /// status set.
    pub fn update_file(
        &mut self,
        project_hash: String,
        file_hash: String,
        update_status: String,
    ) -> (r: ReturnMessage)
        ensures
            ({
                let (s, m) = spec_update_file(
                    old(self)@,
                    project_hash@,
                    file_hash@,
                    update_status@,
                );
                final(self)@ == s && r@ == m
            }),
    {
        let ghost st = update_status@;
        let transaction_hash = "Transaction Hash".to_owned();

        match find_project_index(&self.projects, &project_hash) {
            None => ReturnMessage {
                result: 404,
                message: "Project not found".to_owned(),
                transaction_hash,
            },
            Some(i) => {
                proof {
                    crate::find::lemma_find_project(self@, project_hash@);
                }
                match find_file_index(&self.projects[i].files, &file_hash) {
                    None => ReturnMessage {
                        result: 404,
                        message: "File not found".to_owned(),
                        transaction_hash,
                    },
                    Some(j) => {
                        proof {
                            crate::find::lemma_find_file(
                                crate::entities::file_views(self.projects@[i as int].files@),
                                file_hash@,
                            );
                        }
                        let ghost s0 = self@;
                        self.projects[i].files[j].file_status = update_status;
                        proof {
                            assert(self@ =~~= spec_update_file(
                                s0,
                                project_hash@,
                                file_hash@,
                                st,
                            ).0);
                        }
                        ReturnMessage {
                            result: 200,
                            message: "File status updated successfully".to_owned(),
                            transaction_hash,
                        }
                    }
                }
            }
        }
    }

    /// Add a validator to a file, appended without a uniqueness check;
    /// a missing file is reported as 409, not 404.
    pub fn add_validator(
        &mut self,
        project_hash: String,
        file_hash: String,
        validator_id: String,
        validator_ip: String,
        validator_email: String,
        validator_organization: String,
        can_sign: String,
    ) -> (r: ReturnMessage)
        ensures
            ({
                let (s, m) = spec_add_validator(
                    old(self)@,
                    project_hash@,
                    file_hash@,
                    validator_id@,
                    validator_ip@,
                    validator_email@,
                    validator_organization@,
                    can_sign@,
                );
                final(self)@ == s && r@ == m
            }),
    {
        let ghost vid = validator_id@;
        let ghost vip = validator_ip@;
        let ghost vem = validator_email@;
        let ghost vorg = validator_organization@;
        let ghost vcs = can_sign@;
        let transaction_hash = "Transaction Hash".to_owned();

        match find_project_index(&self.projects, &project_hash) {
            None => ReturnMessage {
                result: 404,
                message: "Project not found".to_owned(),
                transaction_hash,
            },
            Some(i) => {
                proof {
                    crate::find::lemma_find_project(self@, project_hash@);
                }
                match find_file_index(&self.projects[i].files, &file_hash) {
                    None => ReturnMessage {
                        result: 409,
                        message: "File does not exist".to_owned(),
                        transaction_hash,
                    },
                    Some(j) => {
                        proof {
                            crate::find::lemma_find_file(
                                crate::entities::file_views(self.projects@[i as int].files@),
                                file_hash@,
                            );
                        }
                        let ghost s0 = self@;
                        let v = Validator::create_validator(
                            validator_id,
                            validator_ip,
                            validator_email,
                            validator_organization,
                            can_sign,
                            transaction_hash.clone(),
                        );
                        self.projects[i].files[j].validators.push(v);
                        proof {
                            assert(self@ =~~= spec_add_validator(
                                s0,
                                project_hash@,
                                file_hash@,
                                vid,
                                vip,
                                vem,
                                vorg,
                                vcs,
                            ).0);
                        }
                        ReturnMessage {
                            result: 200,
                            message: "File validator added successfully".to_owned(),
                            transaction_hash,
                        }
                    }
                }
            }
        }
    }

    /// Grant a validator access, located by `validator_id`: clears
    /// `is_revoked` if it was set; reports success either way. A
    /// missing file or validator is reported as 409.
    pub fn add_validator_access(
        &mut self,
        project_hash: String,
        file_hash: String,
        validator_id: String,
        validator_email: String,
    ) -> (r: ReturnMessage)
        ensures
            ({
                let (s, m) = spec_add_validator_access(
                    old(self)@,
                    project_hash@,
                    file_hash@,
                    validator_id@,
                );
                final(self)@ == s && r@ == m
            }),
    {
        let transaction_hash = "Transaction Hash".to_owned();

        match find_project_index(&self.projects, &project_hash) {
            None => ReturnMessage {
                result: 404,
                message: "Project not found".to_owned(),
                transaction_hash,
            },
            Some(i) => {
                proof {
                    crate::find::lemma_find_project(self@, project_hash@);
                }
                match find_file_index(&self.projects[i].files, &file_hash) {
                    None => ReturnMessage {
                        result: 409,
                        message: "File does not exist".to_owned(),
                        transaction_hash,
                    },
                    Some(j) => {
                        proof {
                            crate::find::lemma_find_file(
                                crate::entities::file_views(self.projects@[i as int].files@),
                                file_hash@,
                            );
                        }
                        match find_validator_by_id_index(
                            &self.projects[i].files[j].validators,
                            &validator_id,
                        ) {
                            None => ReturnMessage {
                                result: 409,
                                message: "File validator does not exist".to_owned(),
                                transaction_hash,
                            },
                            Some(k) => {
                                proof {
                                    crate::find::lemma_find_validator_by_id(
                                        crate::entities::validator_views(
                                            self.projects@[i as int].files@[j as int].validators@,
                                        ),
                                        validator_id@,
                                    );
                                }
                                if self.projects[i].files[j].validators[k].is_revoked {
                                    let ghost s0 = self@;
                                    self.projects[i].files[j].validators[k].is_revoked = false;
                                    proof {
                                        assert(self@ =~~= spec_add_validator_access(
                                            s0,
                                            project_hash@,
                                            file_hash@,
                                            validator_id@,
                                        ).0);
                                    }
                                    ReturnMessage {
                                        result: 200,
                                        message: "File added successfully".to_owned(),
                                        transaction_hash,
                                    }
                                } else {
                                    ReturnMessage {
                                        result: 200,
                                        message: "File validator's access is already enabled"
                                            .to_owned(),
                                        transaction_hash,
                                    }
                                }
                            }
                        }
                    }
                }
            }
        }
    }

    /// Revoke a validator's access, located by `validator_id`: sets
    /// `is_revoked` if it was clear; reports success either way. A
    /// missing file or validator is reported as 409.
    pub fn remove_validator_access(
        &mut self,
        project_hash: String,
        file_hash: String,
        validator_id: String,
        validator_email: String,
    ) -> (r: ReturnMessage)
        ensures
            ({
                let (s, m) = spec_remove_validator_access(
                    old(self)@,
                    project_hash@,
                    file_hash@,
                    validator_id@,
                );
                final(self)@ == s && r@ == m
            }),
    {
        let transaction_hash = "Transaction Hash".to_owned();

        match find_project_index(&self.projects, &project_hash) {
            None => ReturnMessage {
                result: 404,
                message: "Project not found".to_owned(),
                transaction_hash,
            },
            Some(i) => {
                proof {
                    crate::find::lemma_find_project(self@, project_hash@);
                }
                match find_file_index(&self.projects[i].files, &file_hash) {
                    None => ReturnMessage {
                        result: 409,
                        message: "File does not exist".to_owned(),
                        transaction_hash,
                    },
                    Some(j) => {
                        proof {
                            crate::find::lemma_find_file(
                                crate::entities::file_views(self.projects@[i as int].files@),
                                file_hash@,
                            );
                        }
                        match find_validator_by_id_index(
                            &self.projects[i].files[j].validators,
                            &validator_id,
                        ) {
                            None => ReturnMessage {
                                result: 409,
                                message: "File validator does not exist".to_owned(),
                                transaction_hash,
                            },
                            Some(k) => {
                                proof {
                                    crate::find::lemma_find_validator_by_id(
                                        crate::entities::validator_views(
                                            self.projects@[i as int].files@[j as int].validators@,
                                        ),
                                        validator_id@,
                                    );
                                }
                                if !self.projects[i].files[j].validators[k].is_revoked {
                                    let ghost s0 = self@;
                                    self.projects[i].files[j].validators[k].is_revoked = true;
                                    proof {
                                        assert(self@ =~~= spec_remove_validator_access(
                                            s0,
                                            project_hash@,
                                            file_hash@,
                                            validator_id@,
                                        ).0);
                                    }
                                    ReturnMessage {
                                        result: 200,
                                        message: "File added successfully".to_owned(),
                                        transaction_hash,
                                    }
                                } else {
                                    ReturnMessage {
                                        result: 200,
                                        message: "File validator's access is already disabled"
                                            .to_owned(),
                                        transaction_hash,
                                    }
                                }
                            }
                        }
                    }
                }
            }
        }
    }

    /// Record a validator's own opinion after validation, located by
    /// `validator_email`: sets the validator's independent
    /// `file_status`, leaving the file's aggregate-level status
    /// untouched. A missing file or validator is reported as 409.
    pub fn update_validator_after_file_validation(
        &mut self,
        project_hash: String,
        file_hash: String,
        validator_email: String,
        file_status: String,
    ) -> (r: ReturnMessage)
        ensures
            ({
                let (s, m) = spec_update_validator_after_file_validation(
                    old(self)@,
                    project_hash@,
                    file_hash@,
                    validator_email@,
                    file_status@,
                );
                final(self)@ == s && r@ == m
            }),
    {
        let ghost st = file_status@;
        let transaction_hash = "Transaction Hash".to_owned();

        match find_project_index(&self.projects, &project_hash) {
            None => ReturnMessage {
                result: 404,
                message: "Project not found".to_owned(),
                transaction_hash,
            },
            Some(i) => {
                proof {
                    crate::find::lemma_find_project(self@, project_hash@);
                }
                match find_file_index(&self.projects[i].files, &file_hash) {
                    None => ReturnMessage {
                        result: 409,
                        message: "File does not exist".to_owned(),
                        transaction_hash,
                    },
                    Some(j) => {
                        proof {
                            crate::find::lemma_find_file(
                                crate::entities::file_views(self.projects@[i as int].files@),
                                file_hash@,
                            );
                        }
                        match find_validator_by_email_index(
                            &self.projects[i].files[j].validators,
                            &validator_email,
                        ) {
                            None => ReturnMessage {
                                result: 409,
                                message: "File validator does not exist".to_owned(),
                                transaction_hash,
                            },
                            Some(k) => {
                                proof {
                                    crate::find::lemma_find_validator_by_email(
                                        crate::entities::validator_views(
                                            self.projects@[i as int].files@[j as int].validators@,
                                        ),
                                        validator_email@,
                                    );
                                }
                                let ghost s0 = self@;
                                self.projects[i].files[j].validators[k].file_status = file_status;
                                proof {
                                    assert(self@
                                        =~~= spec_update_validator_after_file_validation(
                                        s0,
                                        project_hash@,
                                        file_hash@,
                                        validator_email@,
                                        st,
                                    ).0);
                                }
                                ReturnMessage {
                                    result: 200,
                                    message: "File added successfully".to_owned(),
                                    transaction_hash,
                                }
                            }
                        }
                    }
                }
            }
        }
    }

    /// Add a supplier to the project stored under `project_hash`; 409
    /// if the `supplier_email` is taken, 404 if the project is absent.
    pub fn add_supplier(
        &mut self,
        project_hash: String,
        category: String,
        contact_name: String,
        supplier_id: String,
        supplier_email: String,
        company_name: String,
        company_website: String,
        requested_documents: String,
    ) -> (r: ReturnMessage)
        ensures
            ({
                let (s, m) = spec_add_supplier(
                    old(self)@,
                    project_hash@,
                    category@,
                    contact_name@,
                    supplier_id@,
                    supplier_email@,
                    company_name@,
                    company_website@,
                    requested_documents@,
                );
                final(self)@ == s && r@ == m
            }),
    {
        let ghost sc = category@;
        let ghost sn = contact_name@;
        let ghost sid = supplier_id@;
        let ghost sem = supplier_email@;
        let ghost scn = company_name@;
        let ghost scw = company_website@;
        let ghost srd = requested_documents@;
        let transaction_hash = "Transaction Hash".to_owned();

        match find_project_index(&self.projects, &project_hash) {
            None => ReturnMessage {
                result: 404,
                message: "Project not found".to_owned(),
                transaction_hash,
            },
            Some(i) => {
                proof {
                    crate::find::lemma_find_project(self@, project_hash@);
                }
                match find_supplier_index(&self.projects[i].suppliers, &supplier_email) {
                    Some(_) => ReturnMessage {
                        result: 409,
                        message: "Supplier with the same email already exists".to_owned(),
                        transaction_hash,
                    },
                    None => {
                        let ghost s0 = self@;
                        let sup = Supplier::create_supplier(
                            category,
                            contact_name,
                            supplier_id,
                            supplier_email,
                            company_name,
                            company_website,
                            requested_documents,
                            transaction_hash.clone(),
                        );
                        self.projects[i].suppliers.push(sup);
                        proof {
                            assert(self@ =~~= spec_add_supplier(
                                s0,
                                project_hash@,
                                sc,
                                sn,
                                sid,
                                sem,
                                scn,
                                scw,
                                srd,
                            ).0);
                        }
                        ReturnMessage {
                            result: 200,
                            message: "Folder added successfully".to_owned(),
                            transaction_hash,
                        }
                    }
                }
            }
        }
    }

    /// Query a project: 200 in both outcomes, distinguished only by the
    /// message text.
    pub fn query_project(&mut self, project_hash: String) -> (r: ReturnMessage)
        ensures
            final(self)@ == old(self)@,
            r@ == spec_query_project(old(self)@, project_hash@),
    {
        let transaction_hash = "Transaction Hash".to_owned();
        match find_project_index(&self.projects, &project_hash) {
            Some(_) => ReturnMessage {
                result: 200,
                message: "Project found".to_owned(),
                transaction_hash,
            },
            None => ReturnMessage {
                result: 200,
                message: "Project not found".to_owned(),
                transaction_hash,
            },
        }
    }
}

} // verus!
