use schema_codegen::{record_type, str_eq, table_file_name};

#[test]
fn snake_case_table_name() {
    assert_eq!(record_type("user_accounts"), "DbUserAccountsRec");
}

#[test]
fn empty_table_name() {
    assert_eq!(record_type(""), "Db".to_string() + "" + "Rec");
}

#[test]
fn non_alphabetic_characters_are_dropped() {
    assert_eq!(record_type("order2items"), "DbOrderItemsRec");
    assert_eq!(record_type("__a__b__"), "DbABRec");
    assert_eq!(record_type("123"), "DbRec");
    assert_eq!(record_type("already_Upper"), "DbAlreadyUpperRec");
}

#[test]
fn non_ascii_letters_are_kept() {
    assert_eq!(record_type("über_straße"), "DbüberStraßeRec");
}

#[test]
fn camel_cased_body_is_a_fixed_point() {
    let once = record_type("user_accounts");
    let body = &once[2..once.len() - 3];
    assert_eq!(record_type(body), once);
}

#[test]
fn table_file_is_named_after_table() {
    assert_eq!(table_file_name("orders"), "orders.rs");
}

#[test]
fn string_equality() {
    assert!(str_eq("abc", "abc"));
    assert!(!str_eq("abc", "abd"));
    assert!(!str_eq("abc", "ab"));
    assert!(str_eq("", ""));
}
