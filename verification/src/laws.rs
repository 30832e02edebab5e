//! Laws of the ledger: properties relating successive operations,
//! proved once and for all over the transition functions of the model.

use vstd::prelude::*;
use crate::find::{
    find_file, find_folder, find_project, find_user, lemma_find_file, lemma_find_file_at,
    lemma_find_folder, lemma_find_project, lemma_find_project_at, lemma_find_user,
    lemma_find_user_at,
};
use crate::hashing::content_hash;
use crate::model::ProjectView;
use crate::transitions::{
    spec_accept_file, spec_add_folder, spec_add_project, spec_add_user_access, spec_query_project,
    spec_reject_file, spec_update_file,
};

verus! {

/// A project update that keeps the key at `i` and touches nothing else
/// leaves the lookup result as it was.
proof fn lemma_find_project_stable(s: Seq<ProjectView>, h: Seq<char>, i: int, p: ProjectView)
    requires
        find_project(s, h) == Some(i),
        0 <= i < s.len(),
        p.project_hash == s[i].project_hash,
    ensures
        find_project(s.update(i, p), h) == Some(i),
{
    lemma_find_project(s, h);
    lemma_find_project_at(s.update(i, p), h, i);
}

/// Law: `add_project` detects repetition. Whatever the store held, a
/// second call with the same `project_name` and `logo` returns 409,
/// reports the same derived hash, and creates no new aggregate.
pub proof fn lemma_add_project_repeat_conflicts(
    s: Seq<ProjectView>,
    project_name: Seq<char>,
    logo: Seq<char>,
    created_by: Seq<char>,
    created_by2: Seq<char>,
)
    ensures
        ({
            let (s1, r1) = spec_add_project(s, project_name, logo, created_by);
            let (s2, r2) = spec_add_project(s1, project_name, logo, created_by2);
            &&& s2 == s1
            &&& r2.result == 409
            &&& r2.hash == r1.hash
            &&& r2.message == "Project already exists"@
        }),
{
    let h = content_hash(logo, project_name);
    let (s1, r1) = spec_add_project(s, project_name, logo, created_by);
    match find_project(s, h) {
        Some(_) => {
        }
        None => {
            assert(s1[s.len() as int].project_hash == h);
            lemma_find_project(s1, h);
            match find_project(s1, h) {
                None => {
                    assert(s1[s.len() as int].project_hash != h);
                    assert(false);
                }
                Some(_) => {
                }
            }
        }
    }
}

/// Law: folder names are unique per project. When the project exists,
/// inserting a folder whose name is present yields 409 and leaves the
/// store untouched; inserting a fresh name yields 200, grows that
/// project's folder collection by exactly one — the new folder last —
/// and touches no other aggregate.
pub proof fn lemma_add_folder_uniqueness(
    s: Seq<ProjectView>,
    project_hash: Seq<char>,
    project_id: Seq<char>,
    folder_name: Seq<char>,
    i: int,
)
    requires
        find_project(s, project_hash) == Some(i),
    ensures
        ({
            let (s1, r) = spec_add_folder(s, project_hash, project_id, folder_name);
            &&& (find_folder(s[i].folders, folder_name) is Some ==> r.result == 409 && s1 == s)
            &&& (find_folder(s[i].folders, folder_name) is None ==> {
                &&& r.result == 200
                &&& s1.len() == s.len()
                &&& s1[i].folders.len() == s[i].folders.len() + 1
                &&& s1[i].folders.last().folder_name == folder_name
                &&& s1[i].folders.last().folder_hash == content_hash(project_id, folder_name)
                &&& (forall|k: int| 0 <= k < s.len() && k != i ==> s1[k] == s[k])
            })
        }),
{
    lemma_find_project(s, project_hash);
    lemma_find_folder(s[i].folders, folder_name);
}

/// Law: granting access is idempotent. When the project and user
/// exist, two successive grants both report 200, and the second writes
/// nothing: the store after it is exactly the store after the first.
pub proof fn lemma_add_user_access_idempotent(
    s: Seq<ProjectView>,
    project_hash: Seq<char>,
    user_id: Seq<char>,
    i: int,
    j: int,
)
    requires
        find_project(s, project_hash) == Some(i),
        find_user(s[i].users, user_id) == Some(j),
    ensures
        ({
            let (s1, r1) = spec_add_user_access(s, project_hash, user_id);
            let (s2, r2) = spec_add_user_access(s1, project_hash, user_id);
            &&& r1.result == 200
            &&& r2.result == 200
            &&& s2 == s1
            &&& r2.message == "User's access is already enabled"@
            &&& s1[i].users[j].is_revoked == false
        }),
{
    lemma_find_project(s, project_hash);
    lemma_find_user(s[i].users, user_id);
    let (s1, r1) = spec_add_user_access(s, project_hash, user_id);
    if s[i].users[j].is_revoked {
        let p1 = s1[i];
        lemma_find_project_stable(s, project_hash, i, p1);
        lemma_find_user(s[i].users, user_id);
        lemma_find_user_at(p1.users, user_id, j);
    }
}

/// Law: accepting a file is idempotent, and rejection undoes it. When
/// the project and file exist: after one acceptance the file is
/// `GREEN`; a second acceptance reports "already accepted" with 200
/// and writes nothing; a rejection after acceptance flips the status
/// to `RED`.
pub proof fn lemma_accept_file_idempotent_reject_flips(
    s: Seq<ProjectView>,
    project_hash: Seq<char>,
    file_hash: Seq<char>,
    i: int,
    j: int,
)
    requires
        find_project(s, project_hash) == Some(i),
        find_file(s[i].files, file_hash) == Some(j),
    ensures
        ({
            let (s1, r1) = spec_accept_file(s, project_hash, file_hash);
            let (s2, r2) = spec_accept_file(s1, project_hash, file_hash);
            let (s3, r3) = spec_reject_file(s1, project_hash, file_hash);
            &&& r1.result == 200
            &&& s1[i].files[j].file_status == "GREEN"@
            &&& r2.result == 200
            &&& r2.message == "File status already accepted"@
            &&& s2 == s1
            &&& r3.result == 200
            &&& s3[i].files[j].file_status == "RED"@
        }),
{
    reveal_strlit("GREEN");
    reveal_strlit("RED");
    lemma_find_project(s, project_hash);
    lemma_find_file(s[i].files, file_hash);
    let (s1, r1) = spec_accept_file(s, project_hash, file_hash);
    assert("GREEN"@.len() != "RED"@.len());
    if s[i].files[j].file_status != "GREEN"@ {
        let p1 = s1[i];
        lemma_find_project_stable(s, project_hash, i, p1);
        lemma_find_file_at(p1.files, file_hash, j);
    }
    assert(find_project(s1, project_hash) == Some(i)) by {
        if s[i].files[j].file_status == "GREEN"@ {
        } else {
            lemma_find_project_stable(s, project_hash, i, s1[i]);
        }
    }
    assert(find_file(s1[i].files, file_hash) == Some(j)) by {
        if s[i].files[j].file_status == "GREEN"@ {
        } else {
            lemma_find_file_at(s1[i].files, file_hash, j);
        }
    }
    let (s3, r3) = spec_reject_file(s1, project_hash, file_hash);
    assert(s1[i].files[j].file_status != "RED"@);
}

/// Law: `update_file` is an unguarded escape hatch. When the project
/// and file exist, any caller-supplied status string — inside or
/// outside the enumerated set — is persisted verbatim, with 200, and
/// nothing else changes.
pub proof fn lemma_update_file_persists_verbatim(
    s: Seq<ProjectView>,
    project_hash: Seq<char>,
    file_hash: Seq<char>,
    update_status: Seq<char>,
    i: int,
    j: int,
)
    requires
        find_project(s, project_hash) == Some(i),
        find_file(s[i].files, file_hash) == Some(j),
    ensures
        ({
            let (s1, r) = spec_update_file(s, project_hash, file_hash, update_status);
            &&& r.result == 200
            &&& s1[i].files[j].file_status == update_status
            &&& s1.len() == s.len()
            &&& (forall|k: int| 0 <= k < s.len() && k != i ==> s1[k] == s[k])
            &&& (forall|k: int|
                0 <= k < s[i].files.len() && k != j ==> s1[i].files[k] == s[i].files[k])
        }),
{
    lemma_find_project(s, project_hash);
    lemma_find_file(s[i].files, file_hash);
}

/// The store's invariant: at most one aggregate per project hash.
pub open spec fn unique_project_hashes(s: Seq<ProjectView>) -> bool {
    forall|a: int, b: int|
        0 <= a < b < s.len() ==> (#[trigger] s[a]).project_hash != (#[trigger] s[b]).project_hash
}

/// Law: `add_project`, the only operation that creates aggregates,
/// preserves the store's exactly-once-per-key invariant: it appends
/// only after the scan found the key absent.
pub proof fn lemma_add_project_preserves_uniqueness(
    s: Seq<ProjectView>,
    project_name: Seq<char>,
    logo: Seq<char>,
    created_by: Seq<char>,
)
    requires
        unique_project_hashes(s),
    ensures
        unique_project_hashes(spec_add_project(s, project_name, logo, created_by).0),
{
    let h = content_hash(logo, project_name);
    match find_project(s, h) {
        Some(_) => {
        }
        None => {
            lemma_find_project(s, h);
            let s1 = spec_add_project(s, project_name, logo, created_by).0;
            assert forall|a: int, b: int|
                0 <= a < b < s1.len() implies (#[trigger] s1[a]).project_hash
                != (#[trigger] s1[b]).project_hash by {
                if b == s.len() {
                    assert(s1[a] == s[a]);
                    assert(s[a].project_hash != h);
                }
            }
        }
    }
}

/// Law: replacing one aggregate with one that keeps its key — the
/// shape of every mutating operation except `add_project` — preserves
/// the store's exactly-once-per-key invariant.
pub proof fn lemma_update_preserves_uniqueness(s: Seq<ProjectView>, i: int, p: ProjectView)
    requires
        unique_project_hashes(s),
        0 <= i < s.len(),
        p.project_hash == s[i].project_hash,
    ensures
        unique_project_hashes(s.update(i, p)),
{
}

/// Law: the read-only query always reports 200; found and not-found
/// are told apart by the message text alone.
pub proof fn lemma_query_project_always_succeeds(s: Seq<ProjectView>, project_hash: Seq<char>)
    ensures
        spec_query_project(s, project_hash).result == 200,
        find_project(s, project_hash) is Some ==> spec_query_project(s, project_hash).message
            == "Project found"@,
        find_project(s, project_hash) is None ==> spec_query_project(s, project_hash).message
            == "Project not found"@,
{
}

} // verus!
