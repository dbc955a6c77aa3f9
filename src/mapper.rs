use vstd::prelude::*;
use crate::column::{ColumnDef, ColumnInfo, DescriptorModel, KindModel, TypeDescriptor, TypeKind};
use crate::text::str_eq;

verus! {

/// Whether a vendor tag carries the array marker `_`.
pub open spec fn has_array_marker(tag: Seq<char>) -> bool {
    tag.len() > 0 && tag[0] == '_'
}

/// The tag of the element type: the tag without its array marker.
pub open spec fn element_tag(tag: Seq<char>) -> Seq<char> {
    if has_array_marker(tag) {
        tag.drop_first()
    } else {
        tag
    }
}

/// The kind that a vendor tag names; unknown tags keep the whole tag.
pub open spec fn kind_for(tag: Seq<char>, length: Option<i32>) -> KindModel {
    let e = element_tag(tag);
    if e == "int4"@ {
        KindModel::Int4
    } else if e == "int8"@ {
        KindModel::Int8
    } else if e == "bpchar"@ {
        KindModel::Char(length)
    } else if e == "varchar"@ {
        KindModel::VarChar
    } else if e == "text"@ {
        KindModel::Text
    } else if e == "timestamp"@ {
        KindModel::Timestamp
    } else if e == "jsonb"@ {
        KindModel::Json
    } else if e == "uuid"@ {
        KindModel::Uuid
    } else {
        KindModel::Unsupported(tag)
    }
}

/// The descriptor that a column's metadata resolves to.
pub open spec fn descriptor_for(c: ColumnInfo) -> DescriptorModel {
    DescriptorModel {
        kind: kind_for(c.base_type_tag@, c.length),
        is_array: has_array_marker(c.base_type_tag@),
        is_nullable: c.nullable,
    }
}

/// The type name that a kind is rendered as. A fixed-length character type
/// renders without its length, which the descriptor keeps.
pub open spec fn kind_text(k: KindModel) -> Seq<char> {
    match k {
        KindModel::Int4 => "DbInt4"@,
        KindModel::Int8 => "DbInt8"@,
        KindModel::Char(_) => "DbChar"@,
        KindModel::VarChar => "DbVarChar"@,
        KindModel::Text => "DbText"@,
        KindModel::Timestamp => "DbTimeStamp"@,
        KindModel::Json => "DbJson"@,
        KindModel::Uuid => "DbUuid"@,
        KindModel::Unsupported(t) => "unsupported udt_name: "@ + t,
    }
}

/// `base`, wrapped in a vector when `is_array`, then in an option when `is_nullable`.
pub open spec fn wrapped(base: Seq<char>, is_array: bool, is_nullable: bool) -> Seq<char> {
    let a = if is_array {
        "Vec<"@ + base + ">"@
    } else {
        base
    };
    if is_nullable {
        "Option<"@ + a + ">"@
    } else {
        a
    }
}

/// The rendered type of a descriptor.
pub open spec fn rendered(d: DescriptorModel) -> Seq<char> {
    wrapped(kind_text(d.kind), d.is_array, d.is_nullable)
}

/// Reads the catalog's two-valued nullability text: only `YES` means nullable.
pub fn nullable_flag(flag: &str) -> (r: bool)
    ensures
        r == (flag@ == "YES"@),
{
    str_eq(flag, "YES")
}

/// Resolves a column's metadata to its type descriptor.
pub fn type_descriptor(column: &ColumnInfo) -> (r: TypeDescriptor)
    ensures
        r@ == descriptor_for(*column),
{
    let tag = column.base_type_tag.as_str();
    let n = tag.unicode_len();
    let is_array = n > 0 && tag.get_char(0) == '_';
    let element = if is_array {
        tag.substring_char(1, n)
    } else {
        tag
    };
    assert(element@ == element_tag(tag@));
    let kind = if str_eq(element, "int4") {
        TypeKind::Int4
    } else if str_eq(element, "int8") {
        TypeKind::Int8
    } else if str_eq(element, "bpchar") {
        TypeKind::Char(column.length)
    } else if str_eq(element, "varchar") {
        TypeKind::VarChar
    } else if str_eq(element, "text") {
        TypeKind::Text
    } else if str_eq(element, "timestamp") {
        TypeKind::Timestamp
    } else if str_eq(element, "jsonb") {
        TypeKind::Json
    } else if str_eq(element, "uuid") {
        TypeKind::Uuid
    } else {
        TypeKind::Unsupported(column.base_type_tag.clone())
    };
    TypeDescriptor { kind, is_array, is_nullable: column.nullable }
}

/// Renders the type name of a kind.
fn kind_name(kind: &TypeKind) -> (r: String)
    ensures
        r@ == kind_text(kind@),
{
    match kind {
        TypeKind::Int4 => String::from_str("DbInt4"),
        TypeKind::Int8 => String::from_str("DbInt8"),
        TypeKind::Char(_) => String::from_str("DbChar"),
        TypeKind::VarChar => String::from_str("DbVarChar"),
        TypeKind::Text => String::from_str("DbText"),
        TypeKind::Timestamp => String::from_str("DbTimeStamp"),
        TypeKind::Json => String::from_str("DbJson"),
        TypeKind::Uuid => String::from_str("DbUuid"),
        TypeKind::Unsupported(t) => String::from_str("unsupported udt_name: ").concat(t.as_str()),
    }
}

/// Renders a descriptor: the kind, then the array wrap, then the optional wrap.
pub fn render_type(d: &TypeDescriptor) -> (r: String)
    ensures
        r@ == rendered(d@),
{
    let base = kind_name(&d.kind);
    let a = if d.is_array {
        String::from_str("Vec<").concat(base.as_str()).concat(">")
    } else {
        base
    };
    if d.is_nullable {
        String::from_str("Option<").concat(a.as_str()).concat(">")
    } else {
        a
    }
}

/// The record field that a column becomes.
pub fn column_definition(column: &ColumnInfo) -> (r: ColumnDef)
    ensures
        r.col_name@ == column.name@,
        r.type_def@ == rendered(descriptor_for(*column)),
{
    let d = type_descriptor(column);
    ColumnDef { col_name: column.name.clone(), type_def: render_type(&d) }
}

/// Array detection: a tag `_X`, where `X` has no marker of its own, sets the
/// array flag and resolves to the kind of `X` when `X` is supported, and to an
/// unsupported kind that keeps the whole tag `_X` otherwise; a tag without the
/// marker never sets the array flag.
pub proof fn lemma_array_marker(plain: ColumnInfo, marked: ColumnInfo)
    requires
        !has_array_marker(plain.base_type_tag@),
        marked.base_type_tag@ == seq!['_'] + plain.base_type_tag@,
        marked.length == plain.length,
    ensures
        descriptor_for(marked).is_array,
        !descriptor_for(plain).is_array,
        !(descriptor_for(plain).kind is Unsupported) ==> descriptor_for(marked).kind
            == descriptor_for(plain).kind,
        descriptor_for(plain).kind is Unsupported ==> descriptor_for(marked).kind
            == KindModel::Unsupported(marked.base_type_tag@),
{
    assert(element_tag(marked.base_type_tag@) =~= plain.base_type_tag@);
}

/// Every rendered kind name is non-empty and starts with `D` or `u`.
proof fn lemma_kind_text_start(k: KindModel)
    ensures
        kind_text(k).len() > 0,
        kind_text(k)[0] == 'D' || kind_text(k)[0] == 'u',
{
    reveal_strlit("DbInt4");
    reveal_strlit("DbInt8");
    reveal_strlit("DbChar");
    reveal_strlit("DbVarChar");
    reveal_strlit("DbText");
    reveal_strlit("DbTimeStamp");
    reveal_strlit("DbJson");
    reveal_strlit("DbUuid");
    reveal_strlit("unsupported udt_name: ");
}

/// The array wrap and the optional wrap are independent: the four
/// combinations render one kind as four different texts.
pub proof fn lemma_wraps_distinct(k: KindModel, a1: bool, n1: bool, a2: bool, n2: bool)
    requires
        a1 != a2 || n1 != n2,
    ensures
        rendered(DescriptorModel { kind: k, is_array: a1, is_nullable: n1 }) != rendered(
            DescriptorModel { kind: k, is_array: a2, is_nullable: n2 },
        ),
{
    lemma_kind_text_start(k);
    reveal_strlit("Vec<");
    reveal_strlit("Option<");
    reveal_strlit(">");
    let b = kind_text(k);
    let r1 = wrapped(b, a1, n1);
    let r2 = wrapped(b, a2, n2);
    if n1 != n2 {
        assert(r1[0] != r2[0]);
    } else if n1 {
        assert(r1[7] != r2[7]);
    } else {
        assert(r1[0] != r2[0]);
    }
}

} // verus!
