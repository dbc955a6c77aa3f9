use schema_codegen::{
    module_path_outcome, module_source, table_columns, table_source, types_source, ColumnDef,
    ColumnInfo, DirCreation, PRIMITIVE_ALIASES,
};

fn def(name: &str, ty: &str) -> ColumnDef {
    ColumnDef { col_name: name.to_string(), type_def: ty.to_string() }
}

#[test]
fn table_source_text() {
    let src = table_source("user_accounts", &[def("id", "DbInt4"), def("email", "Option<DbText>")]);
    assert_eq!(
        src,
        "use super::types::*;\n\n#[derive(Debug)]\npub struct DbUserAccountsRec {\n    pub id: DbInt4,\n    pub email: Option<DbText>,\n}\n"
    );
}

#[test]
fn table_source_without_columns() {
    assert_eq!(
        table_source("t", &[]),
        "use super::types::*;\n\n#[derive(Debug)]\npub struct DbTRec {\n}\n"
    );
}

#[test]
fn module_source_text() {
    let src = module_source(&["accounts".to_string(), "orders".to_string()]);
    assert_eq!(
        src,
        "mod types;\n\npub use types::*;\n\nmod accounts;\nmod orders;\n\npub use accounts::*;\npub use orders::*;\n"
    );
    assert_eq!(module_source(&[]), "mod types;\n\npub use types::*;\n\n\n");
}

#[test]
fn types_source_defines_all_aliases() {
    let src = types_source();
    assert_eq!(src, PRIMITIVE_ALIASES);
    for name in ["DbInt4", "DbInt8", "DbText", "DbVarChar", "DbChar", "DbTimeStamp", "DbUuid", "DbJson", "Connection"] {
        assert!(src.contains(&format!("pub type {name} = ")), "{name}");
    }
}

#[test]
fn directory_creation_outcomes() {
    assert_eq!(module_path_outcome(DirCreation::Created), Ok(false));
    assert_eq!(module_path_outcome(DirCreation::AlreadyExists), Ok(true));
    assert_eq!(module_path_outcome(DirCreation::Failed("denied".to_string())), Err("denied".to_string()));
}

#[test]
fn directory_creation_twice_succeeds() {
    assert!(module_path_outcome(DirCreation::Created).is_ok());
    assert!(module_path_outcome(DirCreation::AlreadyExists).is_ok());
}

#[test]
fn orders_end_to_end() {
    let columns = vec![
        ColumnInfo { name: "code".to_string(), ordinal: 3, nullable: false, base_type_tag: "bpchar".to_string(), length: Some(5) },
        ColumnInfo { name: "id".to_string(), ordinal: 1, nullable: false, base_type_tag: "int4".to_string(), length: None },
        ColumnInfo { name: "tags".to_string(), ordinal: 2, nullable: true, base_type_tag: "_text".to_string(), length: None },
    ];
    let defs = table_columns(columns);
    let src = table_source("orders", &defs);
    assert_eq!(
        src,
        "use super::types::*;\n\n#[derive(Debug)]\npub struct DbOrdersRec {\n    pub id: DbInt4,\n    pub tags: Option<Vec<DbText>>,\n    pub code: DbChar,\n}\n"
    );
    let module = module_source(&["orders".to_string()]);
    assert_eq!(module.matches("mod orders;").count(), 1);
    assert_eq!(module.matches("pub use orders::*;").count(), 1);
    let types = types_source();
    for name in ["DbInt4", "DbText", "DbChar"] {
        assert!(types.contains(&format!("pub type {name} = ")));
    }
}

#[test]
fn module_source_sorts_tables() {
    let src = module_source(&["orders".to_string(), "accounts".to_string()]);
    assert_eq!(
        src,
        "mod types;\n\npub use types::*;\n\nmod accounts;\nmod orders;\n\npub use accounts::*;\npub use orders::*;\n"
    );
    assert_eq!(module_source(&["b".to_string(), "a".to_string()]), module_source(&["a".to_string(), "b".to_string()]));
}
