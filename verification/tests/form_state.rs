use fragments::form::{FieldMap, FormData, FormRejectionData};

#[test]
fn new_form_has_no_values_and_no_errors() {
    let form = FormRejectionData::new();
    assert_eq!(form.values().len(), 0);
    assert_eq!(form.errors().len(), 0);
    assert_eq!(form.values().get("name"), None);
    assert_eq!(form.errors().get("email"), None);
}

#[test]
fn default_form_is_the_empty_form() {
    let form = FormRejectionData::default();
    assert_eq!(form.values().len(), 0);
    assert_eq!(form.errors().len(), 0);
}

#[test]
fn set_value_stores_under_the_key() {
    let mut form = FormRejectionData::new();
    form.set_value("name", "Jane Roe");
    assert_eq!(form.values().get("name"), Some("Jane Roe"));
    assert_eq!(form.values().get("email"), None);
    assert_eq!(form.errors().len(), 0);
}

#[test]
fn set_error_stores_under_the_key() {
    let mut form = FormRejectionData::new();
    form.set_error("email", "Email already exists");
    assert_eq!(form.errors().get("email"), Some("Email already exists"));
    assert_eq!(form.values().len(), 0);
}

#[test]
fn set_value_replaces_what_was_there() {
    let mut form = FormRejectionData::new();
    form.set_value("name", "Jane Roe");
    form.set_value("email", "jane@example.com");
    form.set_value("name", "Jane R2");
    assert_eq!(form.values().len(), 2);
    assert_eq!(form.values().get("name"), Some("Jane R2"));
    assert_eq!(form.values().get("email"), Some("jane@example.com"));
}

#[test]
fn set_error_replaces_what_was_there() {
    let mut form = FormRejectionData::new();
    form.set_error("email", "first");
    form.set_error("email", "second");
    assert_eq!(form.errors().len(), 1);
    assert_eq!(form.errors().get("email"), Some("second"));
}

#[test]
fn values_and_errors_are_kept_apart() {
    let mut form = FormRejectionData::new();
    form.set_value("email", "jane@example.com");
    form.set_error("email", "Email already exists");
    assert_eq!(form.values().get("email"), Some("jane@example.com"));
    assert_eq!(form.errors().get("email"), Some("Email already exists"));
}

#[test]
fn duplicate_email_carries_the_submission_back() {
    let form = FormData { name: "Jane R2".to_string(), email: "jane@example.com".to_string() };
    let rejection = FormRejectionData::duplicate_email(&form);
    assert_eq!(rejection.values().len(), 2);
    assert_eq!(rejection.values().get("name"), Some("Jane R2"));
    assert_eq!(rejection.values().get("email"), Some("jane@example.com"));
    assert_eq!(rejection.errors().len(), 1);
    assert_eq!(rejection.errors().get("email"), Some("Email already exists"));
    assert_eq!(rejection.errors().get("name"), None);
}

#[test]
fn field_map_keeps_entries_in_order_of_first_insert() {
    let mut fields = FieldMap::new();
    fields.insert("b", "1");
    fields.insert("a", "2");
    fields.insert("b", "3");
    assert_eq!(fields.len(), 2);
    assert_eq!(fields.entry(0), ("b", "3"));
    assert_eq!(fields.entry(1), ("a", "2"));
}

#[test]
fn field_map_keys_are_case_sensitive() {
    let mut fields = FieldMap::new();
    fields.insert("email", "x");
    assert_eq!(fields.get("Email"), None);
    assert_eq!(fields.get(""), None);
    fields.insert("", "empty key");
    assert_eq!(fields.get(""), Some("empty key"));
}
