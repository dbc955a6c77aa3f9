use schema_codegen::{
    name_precedes, order_columns, order_table_names, table_columns, ColumnInfo,
};

fn column(name: &str, ordinal: i32) -> ColumnInfo {
    ColumnInfo {
        name: name.to_string(),
        ordinal,
        nullable: false,
        base_type_tag: "int4".to_string(),
        length: None,
    }
}

#[test]
fn columns_ordered_by_ordinal() {
    let cols = vec![column("c", 3), column("a", 1), column("b", 2)];
    let ordered = order_columns(cols);
    let ordinals: Vec<i32> = ordered.iter().map(|c| c.ordinal).collect();
    assert_eq!(ordinals, vec![1, 2, 3]);
    let names: Vec<&str> = ordered.iter().map(|c| c.name.as_str()).collect();
    assert_eq!(names, vec!["a", "b", "c"]);
}

#[test]
fn columns_with_gaps_in_ordinals() {
    let cols = vec![column("x", 10), column("y", 4), column("z", 7)];
    let ordinals: Vec<i32> = order_columns(cols).iter().map(|c| c.ordinal).collect();
    assert_eq!(ordinals, vec![4, 7, 10]);
}

#[test]
fn no_columns() {
    assert!(order_columns(Vec::new()).is_empty());
    assert!(table_columns(Vec::new()).is_empty());
}

#[test]
fn table_columns_follow_ordinals() {
    let defs = table_columns(vec![column("c", 3), column("a", 1), column("b", 2)]);
    let names: Vec<&str> = defs.iter().map(|d| d.col_name.as_str()).collect();
    assert_eq!(names, vec!["a", "b", "c"]);
}

#[test]
fn table_names_sorted() {
    let names = vec!["orders".to_string(), "accounts".to_string(), "order".to_string(), "Zeta".to_string()];
    assert_eq!(order_table_names(names), vec!["Zeta", "accounts", "order", "orders"]);
    assert!(order_table_names(Vec::new()).is_empty());
}

#[test]
fn name_order() {
    assert!(name_precedes("a", "b"));
    assert!(name_precedes("ab", "ab"));
    assert!(name_precedes("ab", "abc"));
    assert!(!name_precedes("abc", "ab"));
    assert!(name_precedes("", "a"));
    assert!(!name_precedes("b", "a"));
}
