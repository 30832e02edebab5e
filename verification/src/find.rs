//! Locating entities by natural key.
//!
//! Every operation resolves its target by a linear scan that stops at
//! the first entity whose key matches; these functions are the model of
//! those scans, one per collection and key.

use vstd::prelude::*;
use crate::model::{
    FileView, FolderView, ProjectView, SubFolderView, SupplierView, UserView, ValidatorView,
};

verus! {

/// The index of the first project whose `project_hash` is `h`, if any.
pub open spec fn find_project(s: Seq<ProjectView>, h: Seq<char>) -> Option<int>
    decreases s.len(),
{
    if s.len() == 0 {
        None
    } else if s[0].project_hash == h {
        Some(0int)
    } else {
        match find_project(s.drop_first(), h) {
            None => None,
            Some(i) => Some(i + 1),
        }
    }
}

/// `find_project` returns the first matching index: the entity there has
/// the key, no earlier one does, and `None` means none does.
pub proof fn lemma_find_project(s: Seq<ProjectView>, h: Seq<char>)
    ensures
        match find_project(s, h) {
            Some(i) => 0 <= i < s.len() && s[i].project_hash == h && (forall|k: int|
                0 <= k < i ==> (#[trigger] s[k]).project_hash != h),
            None => forall|k: int| 0 <= k < s.len() ==> (#[trigger] s[k]).project_hash != h,
        },
    decreases s.len(),
{
    if s.len() != 0 && s[0].project_hash != h {
        let t = s.drop_first();
        lemma_find_project(t, h);
        match find_project(t, h) {
            None => {
                assert forall|k: int|
                    0 <= k < s.len() implies (#[trigger] s[k]).project_hash != h by {
                    if k >= 1 {
                        assert(s[k] == t[k - 1]);
                        assert(t[k - 1].project_hash != h);
                    }
                }
            }
            Some(j) => {
                assert(s[j + 1] == t[j]);
                assert forall|k: int|
                    0 <= k < j + 1 implies (#[trigger] s[k]).project_hash != h by {
                    if k >= 1 {
                        assert(s[k] == t[k - 1]);
                        assert(t[k - 1].project_hash != h);
                    }
                }
            }
        }
    }
}

/// Conversely: an index whose entity has the key, with no earlier
/// match, is the one `find_project` returns.
pub proof fn lemma_find_project_at(s: Seq<ProjectView>, h: Seq<char>, i: int)
    requires
        0 <= i < s.len(),
        s[i].project_hash == h,
        forall|k: int| 0 <= k < i ==> (#[trigger] s[k]).project_hash != h,
    ensures
        find_project(s, h) == Some(i),
{
    lemma_find_project(s, h);
    match find_project(s, h) {
        None => {
            assert(s[i].project_hash != h);
        }
        Some(j) => {
            if j < i {
                assert(s[j].project_hash != h);
            }
            if i < j {
                assert(s[i].project_hash != h);
            }
        }
    }
}

/// The index of the first folder whose `folder_name` is `name`, if any.
pub open spec fn find_folder(s: Seq<FolderView>, name: Seq<char>) -> Option<int>
    decreases s.len(),
{
    if s.len() == 0 {
        None
    } else if s[0].folder_name == name {
        Some(0int)
    } else {
        match find_folder(s.drop_first(), name) {
            None => None,
            Some(i) => Some(i + 1),
        }
    }
}

/// `find_folder` returns the first matching index: the entity there has
/// the key, no earlier one does, and `None` means none does.
pub proof fn lemma_find_folder(s: Seq<FolderView>, name: Seq<char>)
    ensures
        match find_folder(s, name) {
            Some(i) => 0 <= i < s.len() && s[i].folder_name == name && (forall|k: int|
                0 <= k < i ==> (#[trigger] s[k]).folder_name != name),
            None => forall|k: int| 0 <= k < s.len() ==> (#[trigger] s[k]).folder_name != name,
        },
    decreases s.len(),
{
    if s.len() != 0 && s[0].folder_name != name {
        let t = s.drop_first();
        lemma_find_folder(t, name);
        match find_folder(t, name) {
            None => {
                assert forall|k: int|
                    0 <= k < s.len() implies (#[trigger] s[k]).folder_name != name by {
                    if k >= 1 {
                        assert(s[k] == t[k - 1]);
                        assert(t[k - 1].folder_name != name);
                    }
                }
            }
            Some(j) => {
                assert(s[j + 1] == t[j]);
                assert forall|k: int|
                    0 <= k < j + 1 implies (#[trigger] s[k]).folder_name != name by {
                    if k >= 1 {
                        assert(s[k] == t[k - 1]);
                        assert(t[k - 1].folder_name != name);
                    }
                }
            }
        }
    }
}

/// Conversely: an index whose entity has the key, with no earlier
/// match, is the one `find_folder` returns.
pub proof fn lemma_find_folder_at(s: Seq<FolderView>, name: Seq<char>, i: int)
    requires
        0 <= i < s.len(),
        s[i].folder_name == name,
        forall|k: int| 0 <= k < i ==> (#[trigger] s[k]).folder_name != name,
    ensures
        find_folder(s, name) == Some(i),
{
    lemma_find_folder(s, name);
    match find_folder(s, name) {
        None => {
            assert(s[i].folder_name != name);
        }
        Some(j) => {
            if j < i {
                assert(s[j].folder_name != name);
            }
            if i < j {
                assert(s[i].folder_name != name);
            }
        }
    }
}

/// The index of the first sub-folder whose `sub_folder_name` is
/// `name`, if any. The scan runs over the project's flat sub-folder
/// collection, not scoped to the parent folder.
pub open spec fn find_sub_folder(s: Seq<SubFolderView>, name: Seq<char>) -> Option<int>
    decreases s.len(),
{
    if s.len() == 0 {
        None
    } else if s[0].sub_folder_name == name {
        Some(0int)
    } else {
        match find_sub_folder(s.drop_first(), name) {
            None => None,
            Some(i) => Some(i + 1),
        }
    }
}

/// `find_sub_folder` returns the first matching index: the entity there has
/// the key, no earlier one does, and `None` means none does.
pub proof fn lemma_find_sub_folder(s: Seq<SubFolderView>, name: Seq<char>)
    ensures
        match find_sub_folder(s, name) {
            Some(i) => 0 <= i < s.len() && s[i].sub_folder_name == name && (forall|k: int|
                0 <= k < i ==> (#[trigger] s[k]).sub_folder_name != name),
            None => forall|k: int| 0 <= k < s.len() ==> (#[trigger] s[k]).sub_folder_name != name,
        },
    decreases s.len(),
{
    if s.len() != 0 && s[0].sub_folder_name != name {
        let t = s.drop_first();
        lemma_find_sub_folder(t, name);
        match find_sub_folder(t, name) {
            None => {
                assert forall|k: int|
                    0 <= k < s.len() implies (#[trigger] s[k]).sub_folder_name != name by {
                    if k >= 1 {
                        assert(s[k] == t[k - 1]);
                        assert(t[k - 1].sub_folder_name != name);
                    }
                }
            }
            Some(j) => {
                assert(s[j + 1] == t[j]);
                assert forall|k: int|
                    0 <= k < j + 1 implies (#[trigger] s[k]).sub_folder_name != name by {
                    if k >= 1 {
                        assert(s[k] == t[k - 1]);
                        assert(t[k - 1].sub_folder_name != name);
                    }
                }
            }
        }
    }
}

/// Conversely: an index whose entity has the key, with no earlier
/// match, is the one `find_sub_folder` returns.
pub proof fn lemma_find_sub_folder_at(s: Seq<SubFolderView>, name: Seq<char>, i: int)
    requires
        0 <= i < s.len(),
        s[i].sub_folder_name == name,
        forall|k: int| 0 <= k < i ==> (#[trigger] s[k]).sub_folder_name != name,
    ensures
        find_sub_folder(s, name) == Some(i),
{
    lemma_find_sub_folder(s, name);
    match find_sub_folder(s, name) {
        None => {
            assert(s[i].sub_folder_name != name);
        }
        Some(j) => {
            if j < i {
                assert(s[j].sub_folder_name != name);
            }
            if i < j {
                assert(s[i].sub_folder_name != name);
            }
        }
    }
}

/// The index of the first user whose `user_id` is `id`, if any.
pub open spec fn find_user(s: Seq<UserView>, id: Seq<char>) -> Option<int>
    decreases s.len(),
{
    if s.len() == 0 {
        None
    } else if s[0].user_id == id {
        Some(0int)
    } else {
        match find_user(s.drop_first(), id) {
            None => None,
            Some(i) => Some(i + 1),
        }
    }
}

/// `find_user` returns the first matching index: the entity there has
/// the key, no earlier one does, and `None` means none does.
pub proof fn lemma_find_user(s: Seq<UserView>, id: Seq<char>)
    ensures
        match find_user(s, id) {
            Some(i) => 0 <= i < s.len() && s[i].user_id == id && (forall|k: int|
                0 <= k < i ==> (#[trigger] s[k]).user_id != id),
            None => forall|k: int| 0 <= k < s.len() ==> (#[trigger] s[k]).user_id != id,
        },
    decreases s.len(),
{
    if s.len() != 0 && s[0].user_id != id {
        let t = s.drop_first();
        lemma_find_user(t, id);
        match find_user(t, id) {
            None => {
                assert forall|k: int|
                    0 <= k < s.len() implies (#[trigger] s[k]).user_id != id by {
                    if k >= 1 {
                        assert(s[k] == t[k - 1]);
                        assert(t[k - 1].user_id != id);
                    }
                }
            }
            Some(j) => {
                assert(s[j + 1] == t[j]);
                assert forall|k: int|
                    0 <= k < j + 1 implies (#[trigger] s[k]).user_id != id by {
                    if k >= 1 {
                        assert(s[k] == t[k - 1]);
                        assert(t[k - 1].user_id != id);
                    }
                }
            }
        }
    }
}

/// Conversely: an index whose entity has the key, with no earlier
/// match, is the one `find_user` returns.
pub proof fn lemma_find_user_at(s: Seq<UserView>, id: Seq<char>, i: int)
    requires
        0 <= i < s.len(),
        s[i].user_id == id,
        forall|k: int| 0 <= k < i ==> (#[trigger] s[k]).user_id != id,
    ensures
        find_user(s, id) == Some(i),
{
    lemma_find_user(s, id);
    match find_user(s, id) {
        None => {
            assert(s[i].user_id != id);
        }
        Some(j) => {
            if j < i {
                assert(s[j].user_id != id);
            }
            if i < j {
                assert(s[i].user_id != id);
            }
        }
    }
}

/// The index of the first file whose `file_hash` is `h`, if any.
pub open spec fn find_file(s: Seq<FileView>, h: Seq<char>) -> Option<int>
    decreases s.len(),
{
    if s.len() == 0 {
        None
    } else if s[0].file_hash == h {
        Some(0int)
    } else {
        match find_file(s.drop_first(), h) {
            None => None,
            Some(i) => Some(i + 1),
        }
    }
}

/// `find_file` returns the first matching index: the entity there has
/// the key, no earlier one does, and `None` means none does.
pub proof fn lemma_find_file(s: Seq<FileView>, h: Seq<char>)
    ensures
        match find_file(s, h) {
            Some(i) => 0 <= i < s.len() && s[i].file_hash == h && (forall|k: int|
                0 <= k < i ==> (#[trigger] s[k]).file_hash != h),
            None => forall|k: int| 0 <= k < s.len() ==> (#[trigger] s[k]).file_hash != h,
        },
    decreases s.len(),
{
    if s.len() != 0 && s[0].file_hash != h {
        let t = s.drop_first();
        lemma_find_file(t, h);
        match find_file(t, h) {
            None => {
                assert forall|k: int|
                    0 <= k < s.len() implies (#[trigger] s[k]).file_hash != h by {
                    if k >= 1 {
                        assert(s[k] == t[k - 1]);
                        assert(t[k - 1].file_hash != h);
                    }
                }
            }
            Some(j) => {
                assert(s[j + 1] == t[j]);
                assert forall|k: int|
                    0 <= k < j + 1 implies (#[trigger] s[k]).file_hash != h by {
                    if k >= 1 {
                        assert(s[k] == t[k - 1]);
                        assert(t[k - 1].file_hash != h);
                    }
                }
            }
        }
    }
}

/// Conversely: an index whose entity has the key, with no earlier
/// match, is the one `find_file` returns.
pub proof fn lemma_find_file_at(s: Seq<FileView>, h: Seq<char>, i: int)
    requires
        0 <= i < s.len(),
        s[i].file_hash == h,
        forall|k: int| 0 <= k < i ==> (#[trigger] s[k]).file_hash != h,
    ensures
        find_file(s, h) == Some(i),
{
    lemma_find_file(s, h);
    match find_file(s, h) {
        None => {
            assert(s[i].file_hash != h);
        }
        Some(j) => {
            if j < i {
                assert(s[j].file_hash != h);
            }
            if i < j {
                assert(s[i].file_hash != h);
            }
        }
    }
}

/// The index of the first supplier whose `supplier_email` is `email`, if any.
pub open spec fn find_supplier(s: Seq<SupplierView>, email: Seq<char>) -> Option<int>
    decreases s.len(),
{
    if s.len() == 0 {
        None
    } else if s[0].supplier_email == email {
        Some(0int)
    } else {
        match find_supplier(s.drop_first(), email) {
            None => None,
            Some(i) => Some(i + 1),
        }
    }
}

/// `find_supplier` returns the first matching index: the entity there has
/// the key, no earlier one does, and `None` means none does.
pub proof fn lemma_find_supplier(s: Seq<SupplierView>, email: Seq<char>)
    ensures
        match find_supplier(s, email) {
            Some(i) => 0 <= i < s.len() && s[i].supplier_email == email && (forall|k: int|
                0 <= k < i ==> (#[trigger] s[k]).supplier_email != email),
            None => forall|k: int| 0 <= k < s.len() ==> (#[trigger] s[k]).supplier_email != email,
        },
    decreases s.len(),
{
    if s.len() != 0 && s[0].supplier_email != email {
        let t = s.drop_first();
        lemma_find_supplier(t, email);
        match find_supplier(t, email) {
            None => {
                assert forall|k: int|
                    0 <= k < s.len() implies (#[trigger] s[k]).supplier_email != email by {
                    if k >= 1 {
                        assert(s[k] == t[k - 1]);
                        assert(t[k - 1].supplier_email != email);
                    }
                }
            }
            Some(j) => {
                assert(s[j + 1] == t[j]);
                assert forall|k: int|
                    0 <= k < j + 1 implies (#[trigger] s[k]).supplier_email != email by {
                    if k >= 1 {
                        assert(s[k] == t[k - 1]);
                        assert(t[k - 1].supplier_email != email);
                    }
                }
            }
        }
    }
}

/// Conversely: an index whose entity has the key, with no earlier
/// match, is the one `find_supplier` returns.
pub proof fn lemma_find_supplier_at(s: Seq<SupplierView>, email: Seq<char>, i: int)
    requires
        0 <= i < s.len(),
        s[i].supplier_email == email,
        forall|k: int| 0 <= k < i ==> (#[trigger] s[k]).supplier_email != email,
    ensures
        find_supplier(s, email) == Some(i),
{
    lemma_find_supplier(s, email);
    match find_supplier(s, email) {
        None => {
            assert(s[i].supplier_email != email);
        }
        Some(j) => {
            if j < i {
                assert(s[j].supplier_email != email);
            }
            if i < j {
                assert(s[i].supplier_email != email);
            }
        }
    }
}

/// The index of the first validator whose `validator_id` is `id`, if any.
pub open spec fn find_validator_by_id(s: Seq<ValidatorView>, id: Seq<char>) -> Option<int>
    decreases s.len(),
{
    if s.len() == 0 {
        None
    } else if s[0].validator_id == id {
        Some(0int)
    } else {
        match find_validator_by_id(s.drop_first(), id) {
            None => None,
            Some(i) => Some(i + 1),
        }
    }
}

/// `find_validator_by_id` returns the first matching index: the entity there has
/// the key, no earlier one does, and `None` means none does.
pub proof fn lemma_find_validator_by_id(s: Seq<ValidatorView>, id: Seq<char>)
    ensures
        match find_validator_by_id(s, id) {
            Some(i) => 0 <= i < s.len() && s[i].validator_id == id && (forall|k: int|
                0 <= k < i ==> (#[trigger] s[k]).validator_id != id),
            None => forall|k: int| 0 <= k < s.len() ==> (#[trigger] s[k]).validator_id != id,
        },
    decreases s.len(),
{
    if s.len() != 0 && s[0].validator_id != id {
        let t = s.drop_first();
        lemma_find_validator_by_id(t, id);
        match find_validator_by_id(t, id) {
            None => {
                assert forall|k: int|
                    0 <= k < s.len() implies (#[trigger] s[k]).validator_id != id by {
                    if k >= 1 {
                        assert(s[k] == t[k - 1]);
                        assert(t[k - 1].validator_id != id);
                    }
                }
            }
            Some(j) => {
                assert(s[j + 1] == t[j]);
                assert forall|k: int|
                    0 <= k < j + 1 implies (#[trigger] s[k]).validator_id != id by {
                    if k >= 1 {
                        assert(s[k] == t[k - 1]);
                        assert(t[k - 1].validator_id != id);
                    }
                }
            }
        }
    }
}

/// Conversely: an index whose entity has the key, with no earlier
/// match, is the one `find_validator_by_id` returns.
pub proof fn lemma_find_validator_by_id_at(s: Seq<ValidatorView>, id: Seq<char>, i: int)
    requires
        0 <= i < s.len(),
        s[i].validator_id == id,
        forall|k: int| 0 <= k < i ==> (#[trigger] s[k]).validator_id != id,
    ensures
        find_validator_by_id(s, id) == Some(i),
{
    lemma_find_validator_by_id(s, id);
    match find_validator_by_id(s, id) {
        None => {
            assert(s[i].validator_id != id);
        }
        Some(j) => {
            if j < i {
                assert(s[j].validator_id != id);
            }
            if i < j {
                assert(s[i].validator_id != id);
            }
        }
    }
}

/// The index of the first validator whose `validator_email` is `email`; the post-validation update locates validators by email, not by id, if any.
pub open spec fn find_validator_by_email(s: Seq<ValidatorView>, email: Seq<char>) -> Option<int>
    decreases s.len(),
{
    if s.len() == 0 {
        None
    } else if s[0].validator_email == email {
        Some(0int)
    } else {
        match find_validator_by_email(s.drop_first(), email) {
            None => None,
            Some(i) => Some(i + 1),
        }
    }
}

/// `find_validator_by_email` returns the first matching index: the entity there has
/// the key, no earlier one does, and `None` means none does.
pub proof fn lemma_find_validator_by_email(s: Seq<ValidatorView>, email: Seq<char>)
    ensures
        match find_validator_by_email(s, email) {
            Some(i) => 0 <= i < s.len() && s[i].validator_email == email && (forall|k: int|
                0 <= k < i ==> (#[trigger] s[k]).validator_email != email),
            None => forall|k: int| 0 <= k < s.len() ==> (#[trigger] s[k]).validator_email != email,
        },
    decreases s.len(),
{
    if s.len() != 0 && s[0].validator_email != email {
        let t = s.drop_first();
        lemma_find_validator_by_email(t, email);
        match find_validator_by_email(t, email) {
            None => {
                assert forall|k: int|
                    0 <= k < s.len() implies (#[trigger] s[k]).validator_email != email by {
                    if k >= 1 {
                        assert(s[k] == t[k - 1]);
                        assert(t[k - 1].validator_email != email);
                    }
                }
            }
            Some(j) => {
                assert(s[j + 1] == t[j]);
                assert forall|k: int|
                    0 <= k < j + 1 implies (#[trigger] s[k]).validator_email != email by {
                    if k >= 1 {
                        assert(s[k] == t[k - 1]);
                        assert(t[k - 1].validator_email != email);
                    }
                }
            }
        }
    }
}

/// Conversely: an index whose entity has the key, with no earlier
/// match, is the one `find_validator_by_email` returns.
pub proof fn lemma_find_validator_by_email_at(s: Seq<ValidatorView>, email: Seq<char>, i: int)
    requires
        0 <= i < s.len(),
        s[i].validator_email == email,
        forall|k: int| 0 <= k < i ==> (#[trigger] s[k]).validator_email != email,
    ensures
        find_validator_by_email(s, email) == Some(i),
{
    lemma_find_validator_by_email(s, email);
    match find_validator_by_email(s, email) {
        None => {
            assert(s[i].validator_email != email);
        }
        Some(j) => {
            if j < i {
                assert(s[j].validator_email != email);
            }
            if i < j {
                assert(s[i].validator_email != email);
            }
        }
    }
}

} // verus!
