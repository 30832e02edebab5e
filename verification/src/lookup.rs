//! Executable linear scans, one per collection and key.
//!
//! Each returns the index that the corresponding `find_*` function of
//! the model names, so the operations' proofs can speak of "the first
//! match" without re-examining the loop.

use vstd::prelude::*;
use crate::entities::{
    file_views, folder_views, project_views, sub_folder_views, supplier_views, user_views,
    validator_views, File, Folder, Project, SubFolder, Supplier, User, Validator,
};
use crate::find::{
    find_file, find_folder, find_project, find_sub_folder, find_supplier, find_user,
    find_validator_by_email, find_validator_by_id, lemma_find_file, lemma_find_file_at,
    lemma_find_folder, lemma_find_folder_at, lemma_find_project, lemma_find_project_at,
    lemma_find_sub_folder, lemma_find_sub_folder_at, lemma_find_supplier, lemma_find_supplier_at,
    lemma_find_user, lemma_find_user_at, lemma_find_validator_by_email,
    lemma_find_validator_by_email_at, lemma_find_validator_by_id, lemma_find_validator_by_id_at,
};

verus! {

/// The index of the first project whose `project_hash` equals `*key`, exactly
/// as `find_project` computes it on the views.
pub(crate) fn find_project_index(v: &Vec<Project>, key: &String) -> (r: Option<usize>)
    ensures
        match r {
            Some(i) => find_project(project_views(v@), key@) == Some(i as int),
            None => find_project(project_views(v@), key@) is None,
        },
{
    let mut i: usize = 0;
    while i < v.len()
        invariant
            i <= v.len(),
            forall|k: int| 0 <= k < i ==> (#[trigger] project_views(v@)[k]).project_hash != key@,
        decreases v.len() - i,
    {
        if v[i].project_hash == *key {
            proof {
                assert(project_views(v@)[i as int] == v@[i as int]@);
                lemma_find_project_at(project_views(v@), key@, i as int);
            }
            return Some(i);
        }
        proof {
            assert(project_views(v@)[i as int] == v@[i as int]@);
        }
        i += 1;
    }
    proof {
        lemma_find_project(project_views(v@), key@);
        match find_project(project_views(v@), key@) {
            Some(j) => {
                assert(project_views(v@)[j].project_hash != key@);
                assert(false);
            }
            None => {}
        }
    }
    None
}

/// The index of the first folder whose `folder_name` equals `*key`, exactly
/// as `find_folder` computes it on the views.
pub(crate) fn find_folder_index(v: &Vec<Folder>, key: &String) -> (r: Option<usize>)
    ensures
        match r {
            Some(i) => find_folder(folder_views(v@), key@) == Some(i as int),
            None => find_folder(folder_views(v@), key@) is None,
        },
{
    let mut i: usize = 0;
    while i < v.len()
        invariant
            i <= v.len(),
            forall|k: int| 0 <= k < i ==> (#[trigger] folder_views(v@)[k]).folder_name != key@,
        decreases v.len() - i,
    {
        if v[i].folder_name == *key {
            proof {
                assert(folder_views(v@)[i as int] == v@[i as int]@);
                lemma_find_folder_at(folder_views(v@), key@, i as int);
            }
            return Some(i);
        }
        proof {
            assert(folder_views(v@)[i as int] == v@[i as int]@);
        }
        i += 1;
    }
    proof {
        lemma_find_folder(folder_views(v@), key@);
        match find_folder(folder_views(v@), key@) {
            Some(j) => {
                assert(folder_views(v@)[j].folder_name != key@);
                assert(false);
            }
            None => {}
        }
    }
    None
}

/// The index of the first sub-folder whose `sub_folder_name` equals `*key`, exactly
/// as `find_sub_folder` computes it on the views.
pub(crate) fn find_sub_folder_index(v: &Vec<SubFolder>, key: &String) -> (r: Option<usize>)
    ensures
        match r {
            Some(i) => find_sub_folder(sub_folder_views(v@), key@) == Some(i as int),
            None => find_sub_folder(sub_folder_views(v@), key@) is None,
        },
{
    let mut i: usize = 0;
    while i < v.len()
        invariant
            i <= v.len(),
            forall|k: int| 0 <= k < i ==> (#[trigger] sub_folder_views(v@)[k]).sub_folder_name != key@,
        decreases v.len() - i,
    {
        if v[i].sub_folder_name == *key {
            proof {
                assert(sub_folder_views(v@)[i as int] == v@[i as int]@);
                lemma_find_sub_folder_at(sub_folder_views(v@), key@, i as int);
            }
            return Some(i);
        }
        proof {
            assert(sub_folder_views(v@)[i as int] == v@[i as int]@);
        }
        i += 1;
    }
    proof {
        lemma_find_sub_folder(sub_folder_views(v@), key@);
        match find_sub_folder(sub_folder_views(v@), key@) {
            Some(j) => {
                assert(sub_folder_views(v@)[j].sub_folder_name != key@);
                assert(false);
            }
            None => {}
        }
    }
    None
}

/// The index of the first user whose `user_id` equals `*key`, exactly
/// as `find_user` computes it on the views.
pub(crate) fn find_user_index(v: &Vec<User>, key: &String) -> (r: Option<usize>)
    ensures
        match r {
            Some(i) => find_user(user_views(v@), key@) == Some(i as int),
            None => find_user(user_views(v@), key@) is None,
        },
{
    let mut i: usize = 0;
    while i < v.len()
        invariant
            i <= v.len(),
            forall|k: int| 0 <= k < i ==> (#[trigger] user_views(v@)[k]).user_id != key@,
        decreases v.len() - i,
    {
        if v[i].user_id == *key {
            proof {
                assert(user_views(v@)[i as int] == v@[i as int]@);
                lemma_find_user_at(user_views(v@), key@, i as int);
            }
            return Some(i);
        }
        proof {
            assert(user_views(v@)[i as int] == v@[i as int]@);
        }
        i += 1;
    }
    proof {
        lemma_find_user(user_views(v@), key@);
        match find_user(user_views(v@), key@) {
            Some(j) => {
                assert(user_views(v@)[j].user_id != key@);
                assert(false);
            }
            None => {}
        }
    }
    None
}

/// The index of the first file whose `file_hash` equals `*key`, exactly
/// as `find_file` computes it on the views.
pub(crate) fn find_file_index(v: &Vec<File>, key: &String) -> (r: Option<usize>)
    ensures
        match r {
            Some(i) => find_file(file_views(v@), key@) == Some(i as int),
            None => find_file(file_views(v@), key@) is None,
        },
{
    let mut i: usize = 0;
    while i < v.len()
        invariant
            i <= v.len(),
            forall|k: int| 0 <= k < i ==> (#[trigger] file_views(v@)[k]).file_hash != key@,
        decreases v.len() - i,
    {
        if v[i].file_hash == *key {
            proof {
                assert(file_views(v@)[i as int] == v@[i as int]@);
                lemma_find_file_at(file_views(v@), key@, i as int);
            }
            return Some(i);
        }
        proof {
            assert(file_views(v@)[i as int] == v@[i as int]@);
        }
        i += 1;
    }
    proof {
        lemma_find_file(file_views(v@), key@);
        match find_file(file_views(v@), key@) {
            Some(j) => {
                assert(file_views(v@)[j].file_hash != key@);
                assert(false);
            }
            None => {}
        }
    }
    None
}

/// The index of the first supplier whose `supplier_email` equals `*key`, exactly
/// as `find_supplier` computes it on the views.
pub(crate) fn find_supplier_index(v: &Vec<Supplier>, key: &String) -> (r: Option<usize>)
    ensures
        match r {
            Some(i) => find_supplier(supplier_views(v@), key@) == Some(i as int),
            None => find_supplier(supplier_views(v@), key@) is None,
        },
{
    let mut i: usize = 0;
    while i < v.len()
        invariant
            i <= v.len(),
            forall|k: int| 0 <= k < i ==> (#[trigger] supplier_views(v@)[k]).supplier_email != key@,
        decreases v.len() - i,
    {
        if v[i].supplier_email == *key {
            proof {
                assert(supplier_views(v@)[i as int] == v@[i as int]@);
                lemma_find_supplier_at(supplier_views(v@), key@, i as int);
            }
            return Some(i);
        }
        proof {
            assert(supplier_views(v@)[i as int] == v@[i as int]@);
        }
        i += 1;
    }
    proof {
        lemma_find_supplier(supplier_views(v@), key@);
        match find_supplier(supplier_views(v@), key@) {
            Some(j) => {
                assert(supplier_views(v@)[j].supplier_email != key@);
                assert(false);
            }
            None => {}
        }
    }
    None
}

/// The index of the first validator whose `validator_id` equals `*key`, exactly
/// as `find_validator_by_id` computes it on the views.
pub(crate) fn find_validator_by_id_index(v: &Vec<Validator>, key: &String) -> (r: Option<usize>)
    ensures
        match r {
            Some(i) => find_validator_by_id(validator_views(v@), key@) == Some(i as int),
            None => find_validator_by_id(validator_views(v@), key@) is None,
        },
{
    let mut i: usize = 0;
    while i < v.len()
        invariant
            i <= v.len(),
            forall|k: int| 0 <= k < i ==> (#[trigger] validator_views(v@)[k]).validator_id != key@,
        decreases v.len() - i,
    {
        if v[i].validator_id == *key {
            proof {
                assert(validator_views(v@)[i as int] == v@[i as int]@);
                lemma_find_validator_by_id_at(validator_views(v@), key@, i as int);
            }
            return Some(i);
        }
        proof {
            assert(validator_views(v@)[i as int] == v@[i as int]@);
        }
        i += 1;
    }
    proof {
        lemma_find_validator_by_id(validator_views(v@), key@);
        match find_validator_by_id(validator_views(v@), key@) {
            Some(j) => {
                assert(validator_views(v@)[j].validator_id != key@);
                assert(false);
            }
            None => {}
        }
    }
    None
}

/// The index of the first validator whose `validator_email` equals `*key`, exactly
/// as `find_validator_by_email` computes it on the views.
pub(crate) fn find_validator_by_email_index(v: &Vec<Validator>, key: &String) -> (r: Option<usize>)
    ensures
        match r {
            Some(i) => find_validator_by_email(validator_views(v@), key@) == Some(i as int),
            None => find_validator_by_email(validator_views(v@), key@) is None,
        },
{
    let mut i: usize = 0;
    while i < v.len()
        invariant
            i <= v.len(),
            forall|k: int| 0 <= k < i ==> (#[trigger] validator_views(v@)[k]).validator_email != key@,
        decreases v.len() - i,
    {
        if v[i].validator_email == *key {
            proof {
                assert(validator_views(v@)[i as int] == v@[i as int]@);
                lemma_find_validator_by_email_at(validator_views(v@), key@, i as int);
            }
            return Some(i);
        }
        proof {
            assert(validator_views(v@)[i as int] == v@[i as int]@);
        }
        i += 1;
    }
    proof {
        lemma_find_validator_by_email(validator_views(v@), key@);
        match find_validator_by_email(validator_views(v@), key@) {
            Some(j) => {
                assert(validator_views(v@)[j].validator_email != key@);
                assert(false);
            }
            None => {}
        }
    }
    None
}

} // verus!
