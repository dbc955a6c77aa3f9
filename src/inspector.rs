use vstd::prelude::*;
use vstd::multiset::{group_multiset_axioms, lemma_multiset_empty_len, Multiset};
use vstd::seq_lib::{group_to_multiset_ensures, to_multiset_build, to_multiset_insert};
use crate::column::{ColumnDef, ColumnInfo};
use crate::mapper::{column_definition, descriptor_for, rendered};

verus! {

/// Columns are listed by ascending ordinal.
pub open spec fn ordinals_ascending(s: Seq<ColumnInfo>) -> bool {
    forall|i: int, j: int| 0 <= i < j < s.len() ==> s[i].ordinal <= s[j].ordinal
}

/// Sorts columns by ascending ordinal.
pub fn order_columns(columns: Vec<ColumnInfo>) -> (r: Vec<ColumnInfo>)
    ensures
        ordinals_ascending(r@),
        r@.to_multiset() == columns@.to_multiset(),
{
    broadcast use {group_to_multiset_ensures, group_multiset_axioms, lemma_multiset_empty_len};

    let mut rest = columns;
    let mut out: Vec<ColumnInfo> = Vec::new();
    assert(out@.to_multiset() =~= Multiset::empty()) by {
        assert(out@.len() == 0);
    }
    assert(out@.to_multiset().add(rest@.to_multiset()) =~= columns@.to_multiset());
    while rest.len() > 0
        invariant
            ordinals_ascending(out@),
            out@.to_multiset().add(rest@.to_multiset()) == columns@.to_multiset(),
        decreases rest.len(),
    {
        let ghost rest_before = rest@;
        let ghost out_before = out@;
        let c = rest.pop().unwrap();
        assert(rest_before =~= rest@.push(c));
        let mut pos: usize = 0;
        while pos < out.len() && out[pos].ordinal < c.ordinal
            invariant
                pos <= out.len(),
                out@ == out_before,
                forall|k: int| 0 <= k < pos ==> out@[k].ordinal < c.ordinal,
            decreases out.len() - pos,
        {
            pos = pos + 1;
        }
        let ghost ord = c.ordinal;
        let ghost item = c;
        out.insert(pos, c);
        proof {
            to_multiset_insert(out_before, pos as int, item);
            to_multiset_build(rest@, item);
        }
        assert(out@.to_multiset() == out_before.to_multiset().insert(item));
        assert(rest_before.to_multiset() == rest@.to_multiset().insert(item));
        assert forall|i: int, j: int| 0 <= i < j < out@.len() implies out@[i].ordinal
            <= out@[j].ordinal by {
            if j < pos {
            } else if j == pos {
            } else if i < pos {
                assert(out_before[j - 1].ordinal >= ord);
            } else if i == pos {
                assert(out_before[pos as int].ordinal >= ord);
            } else {
            }
        }
        assert(out@.to_multiset().add(rest@.to_multiset()) =~= columns@.to_multiset());
    }
    out
}

/// `defs` holds, position by position, the fields that `columns` become.
pub open spec fn fields_of(defs: Seq<ColumnDef>, columns: Seq<ColumnInfo>) -> bool {
    &&& defs.len() == columns.len()
    &&& forall|i: int|
        0 <= i < defs.len() ==> {
            &&& #[trigger] defs[i].col_name@ == columns[i].name@
            &&& defs[i].type_def@ == rendered(descriptor_for(columns[i]))
        }
}

/// Resolves each column to its record field, keeping the order.
pub fn column_defs(columns: &Vec<ColumnInfo>) -> (r: Vec<ColumnDef>)
    ensures
        fields_of(r@, columns@),
{
    let mut out: Vec<ColumnDef> = Vec::new();
    let mut i: usize = 0;
    while i < columns.len()
        invariant
            i <= columns.len(),
            fields_of(out@, columns@.subrange(0, i as int)),
        decreases columns.len() - i,
    {
        let d = column_definition(&columns[i]);
        out.push(d);
        i = i + 1;
    }
    assert(columns@.subrange(0, i as int) =~= columns@);
    out
}

/// Orders a table's columns by ordinal and resolves each to its record field.
pub fn table_columns(fields: Vec<ColumnInfo>) -> (r: Vec<ColumnDef>)
    ensures
        exists|s: Seq<ColumnInfo>|
            ordinals_ascending(s) && s.to_multiset() == fields@.to_multiset() && fields_of(
                r@,
                s,
            ),
{
    let ordered = order_columns(fields);
    let r = column_defs(&ordered);
    assert(fields_of(r@, ordered@));
    r
}

/// Lexicographic order of names, character by character by code point.
pub open spec fn name_le(a: Seq<char>, b: Seq<char>) -> bool
    decreases a.len(),
{
    if a.len() == 0 {
        true
    } else if b.len() == 0 {
        false
    } else if (a[0] as u32) < (b[0] as u32) {
        true
    } else if (a[0] as u32) > (b[0] as u32) {
        false
    } else {
        name_le(a.drop_first(), b.drop_first())
    }
}

/// Of two names, one precedes the other.
pub proof fn lemma_name_le_total(a: Seq<char>, b: Seq<char>)
    ensures
        name_le(a, b) || name_le(b, a),
    decreases a.len(),
{
    if a.len() > 0 && b.len() > 0 {
        lemma_name_le_total(a.drop_first(), b.drop_first());
    }
}

/// Each name precedes the next one.
pub open spec fn names_ascending(s: Seq<String>) -> bool {
    forall|i: int| 0 <= i < s.len() - 1 ==> name_le(#[trigger] s[i]@, s[i + 1]@)
}

/// Whether name `a` precedes or equals name `b`.
pub fn name_precedes(a: &str, b: &str) -> (r: bool)
    ensures
        r == name_le(a@, b@),
{
    let n = a.unicode_len();
    let m = b.unicode_len();
    let mut i: usize = 0;
    assert(a@.subrange(0, n as int) =~= a@);
    assert(b@.subrange(0, m as int) =~= b@);
    while i < n && i < m
        invariant
            n == a@.len(),
            m == b@.len(),
            i <= n,
            i <= m,
            name_le(a@, b@) == name_le(a@.subrange(i as int, n as int), b@.subrange(i as int, m as int)),
        decreases n - i,
    {
        let x = a.get_char(i);
        let y = b.get_char(i);
        if (x as u32) < (y as u32) {
            return true;
        } else if (x as u32) > (y as u32) {
            return false;
        }
        assert(a@.subrange(i as int, n as int).drop_first() =~= a@.subrange(i + 1, n as int));
        assert(b@.subrange(i as int, m as int).drop_first() =~= b@.subrange(i + 1, m as int));
        i = i + 1;
    }
    i == n
}

/// Sorts table names in ascending order.
pub fn order_table_names(names: Vec<String>) -> (r: Vec<String>)
    ensures
        names_ascending(r@),
        r@.to_multiset() == names@.to_multiset(),
{
    broadcast use {group_to_multiset_ensures, group_multiset_axioms, lemma_multiset_empty_len};

    let mut rest = names;
    let mut out: Vec<String> = Vec::new();
    assert(out@.to_multiset() =~= Multiset::empty()) by {
        assert(out@.len() == 0);
    }
    assert(out@.to_multiset().add(rest@.to_multiset()) =~= names@.to_multiset());
    while rest.len() > 0
        invariant
            names_ascending(out@),
            out@.to_multiset().add(rest@.to_multiset()) == names@.to_multiset(),
        decreases rest.len(),
    {
        let ghost rest_before = rest@;
        let ghost out_before = out@;
        let c = rest.pop().unwrap();
        assert(rest_before =~= rest@.push(c));
        let mut pos: usize = 0;
        while pos < out.len() && !name_precedes(c.as_str(), out[pos].as_str())
            invariant
                pos <= out.len(),
                out@ == out_before,
                forall|k: int| 0 <= k < pos ==> !name_le(c@, #[trigger] out@[k]@),
            decreases out.len() - pos,
        {
            pos = pos + 1;
        }
        let ghost item = c;
        out.insert(pos, c);
        assert forall|i: int| 0 <= i < out@.len() - 1 implies name_le(
            #[trigger] out@[i]@,
            out@[i + 1]@,
        ) by {
            if i + 1 < pos {
                assert(out@[i] == out_before[i] && out@[i + 1] == out_before[i + 1]);
            } else if i + 1 == pos {
                lemma_name_le_total(item@, out_before[i]@);
            } else if i == pos {
            } else {
                assert(out@[i] == out_before[i - 1] && out@[i + 1] == out_before[i]);
            }
        }
        proof {
            to_multiset_insert(out_before, pos as int, item);
            to_multiset_build(rest@, item);
        }
        assert(out@.to_multiset().add(rest@.to_multiset()) =~= names@.to_multiset());
    }
    out
}

} // verus!
