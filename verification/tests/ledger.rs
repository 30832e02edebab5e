use doc_ledger::Contract;

fn project_with_hash(c: &mut Contract) -> String {
    let r = c.add_project("N".to_owned(), "L".to_owned(), "me".to_owned());
    assert_eq!(r.result, 200);
    r.hash
}

#[test]
fn default_store_is_empty() {
    let c = Contract::default();
    assert_eq!(c.projects.len(), 0);
}

#[test]
fn add_project_succeeds_then_conflicts() {
    let mut c = Contract::default();
    let r1 = c.add_project("N".to_owned(), "L".to_owned(), "me".to_owned());
    assert_eq!(r1.result, 200);
    assert_eq!(r1.message, "Project added successfully");
    assert_eq!(r1.transaction_hash, "Transaction Hash");
    assert_eq!(c.projects.len(), 1);

    let r2 = c.add_project("N".to_owned(), "L".to_owned(), "someone else".to_owned());
    assert_eq!(r2.result, 409);
    assert_eq!(r2.message, "Project already exists");
    assert_eq!(r2.hash, r1.hash);
    assert_eq!(c.projects.len(), 1);
}

#[test]
fn project_hash_is_the_digest_of_logo_then_name() {
    let mut c = Contract::default();
    let r = c.add_project("N".to_owned(), "L".to_owned(), "me".to_owned());
    assert_eq!(r.hash, sha256::digest("LN"));
    assert_eq!(r.hash.len(), 64);
    assert_ne!(r.hash, "LN");
    assert_eq!(c.projects[0].project_hash, r.hash);
    assert_eq!(c.projects[0].created_by, "me");
}

#[test]
fn distinct_logo_name_pairs_make_distinct_projects() {
    let mut c = Contract::default();
    let r1 = c.add_project("N".to_owned(), "L".to_owned(), "me".to_owned());
    let r2 = c.add_project("M".to_owned(), "L".to_owned(), "me".to_owned());
    assert_eq!(r1.result, 200);
    assert_eq!(r2.result, 200);
    assert_ne!(r1.hash, r2.hash);
    assert_eq!(c.projects.len(), 2);
}

#[test]
fn add_folder_grows_count_by_one_and_duplicate_conflicts() {
    let mut c = Contract::default();
    let h = project_with_hash(&mut c);

    let r1 = c.add_folder(h.clone(), "p1".to_owned(), "Contracts".to_owned());
    assert_eq!(r1.result, 200);
    assert_eq!(r1.message, "Folder added successfully");
    assert_eq!(c.projects[0].folders.len(), 1);
    assert_eq!(c.projects[0].folders[0].folder_name, "Contracts");
    assert_eq!(c.projects[0].folders[0].folder_hash, sha256::digest("p1Contracts"));

    let r2 = c.add_folder(h.clone(), "p1".to_owned(), "Contracts".to_owned());
    assert_eq!(r2.result, 409);
    assert_eq!(r2.message, "Folder with the same name already exists");
    assert_eq!(c.projects[0].folders.len(), 1);

    let r3 = c.add_folder(h, "p1".to_owned(), "Invoices".to_owned());
    assert_eq!(r3.result, 200);
    assert_eq!(c.projects[0].folders.len(), 2);
}

#[test]
fn add_folder_without_project_is_404() {
    let mut c = Contract::default();
    let r = c.add_folder("missing".to_owned(), "p1".to_owned(), "Contracts".to_owned());
    assert_eq!(r.result, 404);
    assert_eq!(r.message, "Project not found");
}

#[test]
fn add_sub_folder_scan_is_project_wide() {
    let mut c = Contract::default();
    let h = project_with_hash(&mut c);

    let r1 = c.add_sub_folder(h.clone(), "p1".to_owned(), "f1".to_owned(), "Drafts".to_owned());
    assert_eq!(r1.result, 200);
    assert_eq!(r1.message, "Sub folder added successfully");
    assert_eq!(c.projects[0].sub_folders.len(), 1);
    assert_eq!(c.projects[0].sub_folders[0].sub_folder_hash, sha256::digest("f1Drafts"));

    // Same name under a different parent folder still conflicts: the
    // uniqueness scan runs over the project's flat collection.
    let r2 = c.add_sub_folder(h, "p1".to_owned(), "f2".to_owned(), "Drafts".to_owned());
    assert_eq!(r2.result, 409);
    assert_eq!(r2.message, "Sub folder with the same name already exists");
    assert_eq!(c.projects[0].sub_folders.len(), 1);
}

#[test]
fn add_user_and_duplicate_conflicts() {
    let mut c = Contract::default();
    let h = project_with_hash(&mut c);

    let r1 = c.add_user(h.clone(), "Ada".to_owned(), "u1".to_owned());
    assert_eq!(r1.result, 200);
    assert_eq!(r1.message, "User added successfully");
    assert_eq!(c.projects[0].users.len(), 1);
    assert!(!c.projects[0].users[0].is_revoked);

    let r2 = c.add_user(h, "Ada again".to_owned(), "u1".to_owned());
    assert_eq!(r2.result, 409);
    assert_eq!(r2.message, "User already exists");
    assert_eq!(c.projects[0].users.len(), 1);
}

#[test]
fn user_access_grant_is_idempotent() {
    let mut c = Contract::default();
    let h = project_with_hash(&mut c);
    c.add_user(h.clone(), "Ada".to_owned(), "u1".to_owned());

    // A fresh user already has access: the grant is a no-op.
    let r0 = c.add_user_access(h.clone(), "u1".to_owned());
    assert_eq!(r0.result, 200);
    assert_eq!(r0.message, "User's access is already enabled");
    assert!(!c.projects[0].users[0].is_revoked);

    let r1 = c.remove_user_access(h.clone(), "u1".to_owned());
    assert_eq!(r1.result, 200);
    assert_eq!(r1.message, "User's access removed successfully");
    assert!(c.projects[0].users[0].is_revoked);

    let r2 = c.add_user_access(h.clone(), "u1".to_owned());
    assert_eq!(r2.result, 200);
    assert_eq!(r2.message, "User's access added successfully");
    assert!(!c.projects[0].users[0].is_revoked);

    // Second grant in a row: 200 again, but nothing is written.
    let r3 = c.add_user_access(h, "u1".to_owned());
    assert_eq!(r3.result, 200);
    assert_eq!(r3.message, "User's access is already enabled");
    assert!(!c.projects[0].users[0].is_revoked);
}

#[test]
fn remove_user_access_is_idempotent() {
    let mut c = Contract::default();
    let h = project_with_hash(&mut c);
    c.add_user(h.clone(), "Ada".to_owned(), "u1".to_owned());

    c.remove_user_access(h.clone(), "u1".to_owned());
    let r = c.remove_user_access(h, "u1".to_owned());
    assert_eq!(r.result, 200);
    assert_eq!(r.message, "User's access is already disabled");
    assert!(c.projects[0].users[0].is_revoked);
}

#[test]
fn user_access_without_user_is_404() {
    let mut c = Contract::default();
    let h = project_with_hash(&mut c);
    let r = c.add_user_access(h, "ghost".to_owned());
    assert_eq!(r.result, 404);
    assert_eq!(r.message, "User not found");
}

#[test]
fn add_file_starts_red_and_duplicate_conflicts() {
    let mut c = Contract::default();
    let h = project_with_hash(&mut c);

    let r1 = c.add_file(
        h.clone(),
        "f1".to_owned(),
        "Title".to_owned(),
        "u1".to_owned(),
        "fold1".to_owned(),
        "2031-01-01".to_owned(),
    );
    assert_eq!(r1.result, 200);
    assert_eq!(r1.message, "File added successfully");
    assert_eq!(c.projects[0].files.len(), 1);
    assert_eq!(c.projects[0].files[0].file_status, "RED");
    assert_eq!(c.projects[0].files[0].validators.len(), 0);

    let r2 = c.add_file(
        h,
        "f1".to_owned(),
        "Other title".to_owned(),
        "u2".to_owned(),
        "fold2".to_owned(),
        "2032-01-01".to_owned(),
    );
    assert_eq!(r2.result, 409);
    assert_eq!(r2.message, "File already exists");
    assert_eq!(c.projects[0].files.len(), 1);
}

#[test]
fn accept_file_twice_then_reject_flips_to_red() {
    let mut c = Contract::default();
    let h = project_with_hash(&mut c);
    c.add_file(
        h.clone(),
        "f1".to_owned(),
        "Title".to_owned(),
        "u1".to_owned(),
        "fold1".to_owned(),
        "2031-01-01".to_owned(),
    );

    let r1 = c.accept_file(h.clone(), "f1".to_owned());
    assert_eq!(r1.result, 200);
    assert_eq!(r1.message, "File status accepted successfully");
    assert_eq!(c.projects[0].files[0].file_status, "GREEN");

    let r2 = c.accept_file(h.clone(), "f1".to_owned());
    assert_eq!(r2.result, 200);
    assert_eq!(r2.message, "File status already accepted");
    assert_eq!(c.projects[0].files[0].file_status, "GREEN");

    let r3 = c.reject_file(h, "f1".to_owned());
    assert_eq!(r3.result, 200);
    assert_eq!(r3.message, "File status accepted successfully");
    assert_eq!(c.projects[0].files[0].file_status, "RED");
}

#[test]
fn reject_file_twice_reports_already_rejected() {
    let mut c = Contract::default();
    let h = project_with_hash(&mut c);
    c.add_file(
        h.clone(),
        "f1".to_owned(),
        "Title".to_owned(),
        "u1".to_owned(),
        "fold1".to_owned(),
        "2031-01-01".to_owned(),
    );

    // The file starts RED, so an immediate rejection is a no-op.
    let r = c.reject_file(h, "f1".to_owned());
    assert_eq!(r.result, 200);
    assert_eq!(r.message, "File status already rejected");
    assert_eq!(c.projects[0].files[0].file_status, "RED");
}

#[test]
fn accept_file_without_file_is_404() {
    let mut c = Contract::default();
    let h = project_with_hash(&mut c);
    let r = c.accept_file(h, "ghost".to_owned());
    assert_eq!(r.result, 404);
    assert_eq!(r.message, "File not found");
}

#[test]
fn update_file_persists_arbitrary_status_verbatim() {
    let mut c = Contract::default();
    let h = project_with_hash(&mut c);
    c.add_file(
        h.clone(),
        "f1".to_owned(),
        "Title".to_owned(),
        "u1".to_owned(),
        "fold1".to_owned(),
        "2031-01-01".to_owned(),
    );

    let r = c.update_file(h, "f1".to_owned(), "PURPLE".to_owned());
    assert_eq!(r.result, 200);
    assert_eq!(r.message, "File status updated successfully");
    assert_eq!(c.projects[0].files[0].file_status, "PURPLE");
}

#[test]
fn add_validator_appends_without_uniqueness_check() {
    let mut c = Contract::default();
    let h = project_with_hash(&mut c);
    c.add_file(
        h.clone(),
        "f1".to_owned(),
        "Title".to_owned(),
        "u1".to_owned(),
        "fold1".to_owned(),
        "2031-01-01".to_owned(),
    );

    let r1 = c.add_validator(
        h.clone(),
        "f1".to_owned(),
        "v1".to_owned(),
        "10.0.0.1".to_owned(),
        "v1@example.com".to_owned(),
        "Org".to_owned(),
        "yes".to_owned(),
    );
    assert_eq!(r1.result, 200);
    assert_eq!(r1.message, "File validator added successfully");
    assert_eq!(c.projects[0].files[0].validators.len(), 1);
    assert_eq!(c.projects[0].files[0].validators[0].file_status, "");
    assert_eq!(c.projects[0].files[0].validators[0].file_validation_hash, "");
    assert!(!c.projects[0].files[0].validators[0].is_revoked);

    // No duplicate scan exists for validators: the same id is appended
    // again.
    let r2 = c.add_validator(
        h,
        "f1".to_owned(),
        "v1".to_owned(),
        "10.0.0.1".to_owned(),
        "v1@example.com".to_owned(),
        "Org".to_owned(),
        "yes".to_owned(),
    );
    assert_eq!(r2.result, 200);
    assert_eq!(c.projects[0].files[0].validators.len(), 2);
}

#[test]
fn add_validator_without_file_is_409() {
    let mut c = Contract::default();
    let h = project_with_hash(&mut c);
    let r = c.add_validator(
        h,
        "ghost".to_owned(),
        "v1".to_owned(),
        "10.0.0.1".to_owned(),
        "v1@example.com".to_owned(),
        "Org".to_owned(),
        "yes".to_owned(),
    );
    assert_eq!(r.result, 409);
    assert_eq!(r.message, "File does not exist");
}

#[test]
fn validator_access_toggle_is_idempotent() {
    let mut c = Contract::default();
    let h = project_with_hash(&mut c);
    c.add_file(
        h.clone(),
        "f1".to_owned(),
        "Title".to_owned(),
        "u1".to_owned(),
        "fold1".to_owned(),
        "2031-01-01".to_owned(),
    );
    c.add_validator(
        h.clone(),
        "f1".to_owned(),
        "v1".to_owned(),
        "10.0.0.1".to_owned(),
        "v1@example.com".to_owned(),
        "Org".to_owned(),
        "yes".to_owned(),
    );

    let r1 = c.remove_validator_access(
        h.clone(),
        "f1".to_owned(),
        "v1".to_owned(),
        "v1@example.com".to_owned(),
    );
    assert_eq!(r1.result, 200);
    assert_eq!(r1.message, "File added successfully");
    assert!(c.projects[0].files[0].validators[0].is_revoked);

    let r2 = c.remove_validator_access(
        h.clone(),
        "f1".to_owned(),
        "v1".to_owned(),
        "v1@example.com".to_owned(),
    );
    assert_eq!(r2.result, 200);
    assert_eq!(r2.message, "File validator's access is already disabled");

    let r3 = c.add_validator_access(
        h.clone(),
        "f1".to_owned(),
        "v1".to_owned(),
        "v1@example.com".to_owned(),
    );
    assert_eq!(r3.result, 200);
    assert_eq!(r3.message, "File added successfully");
    assert!(!c.projects[0].files[0].validators[0].is_revoked);

    let r4 = c.add_validator_access(
        h,
        "f1".to_owned(),
        "v1".to_owned(),
        "v1@example.com".to_owned(),
    );
    assert_eq!(r4.result, 200);
    assert_eq!(r4.message, "File validator's access is already enabled");
}

#[test]
fn validator_access_without_validator_is_409() {
    let mut c = Contract::default();
    let h = project_with_hash(&mut c);
    c.add_file(
        h.clone(),
        "f1".to_owned(),
        "Title".to_owned(),
        "u1".to_owned(),
        "fold1".to_owned(),
        "2031-01-01".to_owned(),
    );
    let r = c.add_validator_access(
        h,
        "f1".to_owned(),
        "ghost".to_owned(),
        "ghost@example.com".to_owned(),
    );
    assert_eq!(r.result, 409);
    assert_eq!(r.message, "File validator does not exist");
}

#[test]
fn update_validator_after_file_validation_sets_own_status() {
    let mut c = Contract::default();
    let h = project_with_hash(&mut c);
    c.add_file(
        h.clone(),
        "f1".to_owned(),
        "Title".to_owned(),
        "u1".to_owned(),
        "fold1".to_owned(),
        "2031-01-01".to_owned(),
    );
    c.add_validator(
        h.clone(),
        "f1".to_owned(),
        "v1".to_owned(),
        "10.0.0.1".to_owned(),
        "v1@example.com".to_owned(),
        "Org".to_owned(),
        "yes".to_owned(),
    );

    // The validator is located by email here, not by id.
    let r = c.update_validator_after_file_validation(
        h.clone(),
        "f1".to_owned(),
        "v1@example.com".to_owned(),
        "AMBER".to_owned(),
    );
    assert_eq!(r.result, 200);
    assert_eq!(r.message, "File added successfully");
    assert_eq!(c.projects[0].files[0].validators[0].file_status, "AMBER");
    // The file's aggregate-level status is untouched.
    assert_eq!(c.projects[0].files[0].file_status, "RED");

    let r2 = c.update_validator_after_file_validation(
        h,
        "f1".to_owned(),
        "nobody@example.com".to_owned(),
        "AMBER".to_owned(),
    );
    assert_eq!(r2.result, 409);
    assert_eq!(r2.message, "File validator does not exist");
}

#[test]
fn add_supplier_unique_by_email() {
    let mut c = Contract::default();
    let h = project_with_hash(&mut c);

    let r1 = c.add_supplier(
        h.clone(),
        "steel".to_owned(),
        "Bob".to_owned(),
        "s1".to_owned(),
        "bob@example.com".to_owned(),
        "Bob Ltd".to_owned(),
        "bob.example.com".to_owned(),
        "insurance".to_owned(),
    );
    assert_eq!(r1.result, 200);
    assert_eq!(r1.message, "Folder added successfully");
    assert_eq!(c.projects[0].suppliers.len(), 1);

    let r2 = c.add_supplier(
        h,
        "timber".to_owned(),
        "Bobby".to_owned(),
        "s2".to_owned(),
        "bob@example.com".to_owned(),
        "Bobby Ltd".to_owned(),
        "bobby.example.com".to_owned(),
        "references".to_owned(),
    );
    assert_eq!(r2.result, 409);
    assert_eq!(r2.message, "Supplier with the same email already exists");
    assert_eq!(c.projects[0].suppliers.len(), 1);
}

#[test]
fn query_missing_project_is_200_not_404() {
    let mut c = Contract::default();
    let r = c.query_project("missing".to_owned());
    assert_eq!(r.result, 200);
    assert_eq!(r.message, "Project not found");
}

#[test]
fn query_existing_project_is_200_found() {
    let mut c = Contract::default();
    let h = project_with_hash(&mut c);
    let r = c.query_project(h);
    assert_eq!(r.result, 200);
    assert_eq!(r.message, "Project found");
}

#[test]
fn scenario_project_folder_file_validator() {
    let mut c = Contract::default();

    let p = c.add_project("N".to_owned(), "L".to_owned(), "me".to_owned());
    assert_eq!(p.result, 200);
    let h1 = p.hash;

    let f1 = c.add_folder(h1.clone(), "p1".to_owned(), "Contracts".to_owned());
    assert_eq!(f1.result, 200);
    assert_eq!(c.projects[0].folders.len(), 1);

    let f2 = c.add_folder(h1.clone(), "p1".to_owned(), "Contracts".to_owned());
    assert_eq!(f2.result, 409);

    c.add_file(
        h1.clone(),
        "f1".to_owned(),
        "Title".to_owned(),
        "u1".to_owned(),
        "fold1".to_owned(),
        "2031-01-01".to_owned(),
    );
    assert_eq!(c.projects[0].files[0].file_status, "RED");

    let a = c.accept_file(h1.clone(), "f1".to_owned());
    assert_eq!(a.result, 200);
    assert_eq!(c.projects[0].files[0].file_status, "GREEN");

    c.add_validator(
        h1.clone(),
        "f1".to_owned(),
        "v1".to_owned(),
        "10.0.0.1".to_owned(),
        "v1@example.com".to_owned(),
        "Org".to_owned(),
        "yes".to_owned(),
    );
    assert_eq!(c.projects[0].files[0].validators.len(), 1);

    let g1 = c.add_validator_access(
        h1.clone(),
        "f1".to_owned(),
        "v1".to_owned(),
        "v1@example.com".to_owned(),
    );
    assert_eq!(g1.result, 200);
    let g2 = c.add_validator_access(
        h1,
        "f1".to_owned(),
        "v1".to_owned(),
        "v1@example.com".to_owned(),
    );
    assert_eq!(g2.result, 200);
    assert_eq!(g2.message, "File validator's access is already enabled");
    assert!(!c.projects[0].files[0].validators[0].is_revoked);
}

#[test]
fn entity_constructors_stamp_labels() {
    let f = doc_ledger::Folder::create_folder(
        "fh".to_owned(),
        "p1".to_owned(),
        "Contracts".to_owned(),
        "tx".to_owned(),
    );
    assert_eq!(f.update_logs.transaction_type, "Add Folder");
    assert_eq!(f.update_logs.transaction_hash, "tx");

    let u = doc_ledger::User::create_user("Ada".to_owned(), "u1".to_owned(), "tx".to_owned());
    assert_eq!(u.update_logs.transaction_type, "Add User");
    assert!(!u.is_revoked);

    let v = doc_ledger::Validator::create_validator(
        "v1".to_owned(),
        "10.0.0.1".to_owned(),
        "v1@example.com".to_owned(),
        "Org".to_owned(),
        "yes".to_owned(),
        "tx".to_owned(),
    );
    assert_eq!(v.update_logs.transaction_type, "Add Validator");
    assert_eq!(v.file_status, "");
    assert_eq!(v.can_sign, "yes");

    let s = doc_ledger::Supplier::create_supplier(
        "steel".to_owned(),
        "Bob".to_owned(),
        "s1".to_owned(),
        "bob@example.com".to_owned(),
        "Bob Ltd".to_owned(),
        "bob.example.com".to_owned(),
        "insurance".to_owned(),
        "tx".to_owned(),
    );
    assert_eq!(s.update_logs.transaction_type, "Add Supplier");

    let sf = doc_ledger::SubFolder::create_sub_folder(
        "sh".to_owned(),
        "p1".to_owned(),
        "f1".to_owned(),
        "Drafts".to_owned(),
        "tx".to_owned(),
    );
    assert_eq!(sf.update_logs.transaction_type, "Add Sub Folder");

    let pr = doc_ledger::Project::create_project(
        "me".to_owned(),
        "ph".to_owned(),
        "tx".to_owned(),
    );
    assert_eq!(pr.update_logs.transaction_type, "Add Project");
    assert_eq!(pr.folders.len(), 0);

    let fi = doc_ledger::File::create_file(
        "f1".to_owned(),
        "Title".to_owned(),
        "u1".to_owned(),
        "fold1".to_owned(),
        "2031-01-01".to_owned(),
        "tx".to_owned(),
    );
    assert_eq!(fi.update_logs.transaction_type, "Add File");
    assert_eq!(fi.file_status, "RED");
}
