use rustlang_rocket_mongodb::models::document::Document;
use rustlang_rocket_mongodb::models::user_model::{User, UserName};
use rustlang_rocket_mongodb::text::{to_lower_case, to_lower_case_optional};

#[test]
fn to_lower_case_lowers_every_letter() {
    assert_eq!(to_lower_case("Alice LIDDELL"), "alice liddell");
    assert_eq!(to_lower_case("already lower 123"), "already lower 123");
    assert_eq!(to_lower_case(""), "");
    assert_eq!(to_lower_case("ÄÖÜ"), "äöü");
}

#[test]
fn to_lower_case_optional_keeps_absence() {
    assert_eq!(to_lower_case_optional(None), None);
    assert_eq!(to_lower_case_optional(Some("X".to_string())), Some("x".to_string()));
}

#[test]
fn user_is_taken_in_with_the_first_name_in_lower_case() {
    let sent = User {
        id: None,
        firstname: Some("Alice".to_string()),
        lastname: Some("Liddell".to_string()),
        username: Some("Alice".to_string()),
        email: Some("Alice@Example.com".to_string()),
        password: Some("Secret123".to_string()),
        role: None,
    };
    let taken = sent.clone().lower_cased();
    assert_eq!(taken, User { firstname: Some("alice".to_string()), ..sent });
    assert_eq!(User::default().lower_cased(), User::default());
}

#[test]
fn username_is_taken_in_in_lower_case() {
    let name = UserName { username: "Alice".to_string() }.lower_cased();
    assert_eq!(name, UserName { username: "alice".to_string() });
}

#[test]
fn document_is_taken_in_with_the_title_in_lower_case() {
    let sent = Document {
        id: None,
        owner_id: None,
        title: Some("My Notes".to_string()),
        content: Some("Body Text".to_string()),
        date_created: Some(1),
        last_modified: None,
    };
    let taken = sent.clone().lower_cased();
    assert_eq!(taken, Document { title: Some("my notes".to_string()), ..sent });
}
