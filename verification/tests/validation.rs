use grindstone::models::{Category, CategoryColor};
use grindstone::validation::{
    validate_new_category_name, validate_session_name, validate_update_category_name,
};

fn make_categories() -> Vec<Category> {
    vec![
        Category {
            id: None,
            name: "Work".to_string(),
            color: CategoryColor::Rgb(255, 0, 0),
        },
        Category {
            id: None,
            name: "Study".to_string(),
            color: CategoryColor::Rgb(0, 0, 255),
        },
    ]
}

#[test]
fn test_validate_session_name_empty() {
    assert!(!validate_session_name(""));
    assert!(!validate_session_name("   "));
    assert!(!validate_session_name("\t\n"));
}

#[test]
fn test_validate_session_name_valid() {
    assert!(validate_session_name("Work session"));
    assert!(validate_session_name("a"));
    assert!(validate_session_name("  trimmed  ")); // Has content after trim
}

#[test]
fn test_validate_new_category_name_empty() {
    let categories = make_categories();
    assert_eq!(
        validate_new_category_name("", &categories),
        Err("Category name cannot be empty")
    );
    assert_eq!(
        validate_new_category_name("   ", &categories),
        Err("Category name cannot be empty")
    );
}

#[test]
fn test_validate_new_category_name_duplicate() {
    let categories = make_categories();
    assert_eq!(
        validate_new_category_name("Work", &categories),
        Err("Category already exists")
    );
}

#[test]
fn test_validate_new_category_name_valid() {
    let categories = make_categories();
    assert_eq!(validate_new_category_name("Exercise", &categories), Ok(()));
}

#[test]
fn test_validate_update_category_same_name() {
    let categories = make_categories();
    // Should allow keeping same name
    assert_eq!(
        validate_update_category_name("Work", &categories, "Work"),
        Ok(())
    );
}

#[test]
fn test_validate_update_category_new_unique_name() {
    let categories = make_categories();
    // Should allow changing to a new unique name
    assert_eq!(
        validate_update_category_name("Exercise", &categories, "Work"),
        Ok(())
    );
}

#[test]
fn test_validate_update_category_name_collision() {
    let categories = make_categories();
    // Should not allow changing to an existing name
    assert_eq!(
        validate_update_category_name("Study", &categories, "Work"),
        Err("Category already exists")
    );
}
