//! The service-layer rules: role validation, identifier normalization,
//! the subject catalogue, and paging defaults.

use ocr_pipeline::service_api::{
    get_subjects, normalize_id, validate_role, PaginationParams,
};

#[test]
fn validate_role_accepts_the_two_roles() {
    assert!(validate_role("student").is_ok());
    assert!(validate_role("employee").is_ok());
}

#[test]
fn validate_role_rejects_others_with_message() {
    let e = validate_role("teacher").unwrap_err();
    assert_eq!(e, "Invalid role 'teacher'. Must be 'student' or 'employee'.");
    assert!(validate_role("").is_err());
    assert!(validate_role("Student").is_err());
}

#[test]
fn normalize_id_lowercases_and_dashes() {
    assert_eq!(normalize_id("My School"), "my-school");
    assert_eq!(normalize_id("ABC"), "abc");
    assert_eq!(normalize_id("already-normal"), "already-normal");
    assert_eq!(normalize_id(""), "");
    assert_eq!(normalize_id("Two  Spaces"), "two--spaces");
}

#[test]
fn subjects_catalogue_is_complete() {
    let table = get_subjects();
    assert_eq!(table.len(), 19);
    assert_eq!(table[0].0, "Pre-Nursery");
    assert_eq!(
        table[0].1,
        vec!["English", "Hindi", "Mathematics", "Art and Craft"]
    );
    assert_eq!(table[3].0, "Class 1");
    assert_eq!(
        table[3].1,
        vec!["English", "Hindi", "Mathematics", "EVS", "General Knowledge"]
    );
    assert_eq!(table[18].0, "Class 12 Humanities");
    assert_eq!(
        table[18].1,
        vec!["History", "Political Science", "Geography", "English"]
    );
}

#[test]
fn pagination_defaults_to_first_page_of_fifty() {
    let p = PaginationParams::default();
    assert_eq!(p.page, 1);
    assert_eq!(p.limit, 50);
}
