//! Generates typed record definitions from relational schema metadata:
//! type mapping, type naming, column ordering and emission of source text.

mod column;
mod emitter;
mod inspector;
mod mapper;
mod namer;
mod text;

pub use column::{ColumnDef, ColumnInfo, DescriptorModel, KindModel, TypeDescriptor, TypeKind};
pub use emitter::{
    field_line, fields_text, lines_of, module_path_outcome, module_source, module_text,
    table_file_name, table_source, table_text, types_source, DirCreation, PRIMITIVE_ALIASES,
};
pub use inspector::{
    column_defs, fields_of, lemma_name_le_total, name_le, name_precedes, names_ascending,
    order_columns, order_table_names, ordinals_ascending, table_columns,
};
pub use mapper::{
    column_definition, descriptor_for, element_tag, has_array_marker, kind_for, kind_text,
    lemma_array_marker, lemma_wraps_distinct, nullable_flag, render_type, rendered,
    type_descriptor, wrapped,
};
pub use namer::{
    alphabetic, ascii_upper, camel_case, capitalize_from, identifier_for,
    lemma_camel_case_idempotent, record_type, unicode_alphabetic,
};
pub use text::str_eq;
