use vstd::prelude::*;

verus! {

/// Raw metadata of one column as the catalog reports it.
#[derive(Debug)]
pub struct ColumnInfo {
    pub name: String,
    /// 1-based position of the column within its table.
    pub ordinal: i32,
    pub nullable: bool,
    /// Vendor type tag, e.g. `int4` or `_varchar`.
    pub base_type_tag: String,
    /// Declared length, meaningful for fixed-length character types only.
    pub length: Option<i32>,
}

/// Logical type of a column.
#[derive(Debug)]
pub enum TypeKind {
    Int4,
    Int8,
    Char(Option<i32>),
    VarChar,
    Text,
    Timestamp,
    Json,
    Uuid,
    /// A vendor tag outside the supported set, kept verbatim.
    Unsupported(String),
}

/// Mathematical model of a `TypeKind`.
pub enum KindModel {
    Int4,
    Int8,
    Char(Option<i32>),
    VarChar,
    Text,
    Timestamp,
    Json,
    Uuid,
    Unsupported(Seq<char>),
}

impl View for TypeKind {
    type V = KindModel;

    open spec fn view(&self) -> KindModel {
        match self {
            TypeKind::Int4 => KindModel::Int4,
            TypeKind::Int8 => KindModel::Int8,
            TypeKind::Char(l) => KindModel::Char(*l),
            TypeKind::VarChar => KindModel::VarChar,
            TypeKind::Text => KindModel::Text,
            TypeKind::Timestamp => KindModel::Timestamp,
            TypeKind::Json => KindModel::Json,
            TypeKind::Uuid => KindModel::Uuid,
            TypeKind::Unsupported(t) => KindModel::Unsupported(t@),
        }
    }
}

/// Resolved type of a column: a kind, wrapped in an array, wrapped in an option.
#[derive(Debug)]
pub struct TypeDescriptor {
    pub kind: TypeKind,
    pub is_array: bool,
    pub is_nullable: bool,
}

/// Mathematical model of a `TypeDescriptor`.
pub struct DescriptorModel {
    pub kind: KindModel,
    pub is_array: bool,
    pub is_nullable: bool,
}

impl View for TypeDescriptor {
    type V = DescriptorModel;

    open spec fn view(&self) -> DescriptorModel {
        DescriptorModel { kind: self.kind@, is_array: self.is_array, is_nullable: self.is_nullable }
    }
}

/// One field of a generated record: its name and its rendered type.
#[derive(Debug)]
pub struct ColumnDef {
    pub col_name: String,
    pub type_def: String,
}

} // verus!
