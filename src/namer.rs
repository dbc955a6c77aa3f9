use vstd::prelude::*;

verus! {

/// Whether a non-ASCII character has the Unicode Alphabetic property.
pub uninterp spec fn unicode_alphabetic(c: char) -> bool;

/// Whether a character is alphabetic: an ASCII letter, or a non-ASCII
/// character with the Unicode Alphabetic property.
pub open spec fn alphabetic(c: char) -> bool {
    (97 <= (c as u32) <= 122 || 65 <= (c as u32) <= 90) || ((c as u32) > 127 && unicode_alphabetic(c))
}

/// Relies on char::is_alphabetic: true for the ASCII letters, false for other
/// ASCII characters, and the Unicode Alphabetic property beyond ASCII.
#[verifier::external_body]
fn is_alphabetic(c: char) -> (r: bool)
    ensures
        r == ((97 <= (c as u32) <= 122 || 65 <= (c as u32) <= 90) || ((c as u32) > 127 && unicode_alphabetic(c))),
{
    c.is_alphabetic()
}

/// ASCII upper case of a character (`a` to `z` are code points 97 to 122); other characters stay as they are.
pub open spec fn ascii_upper(c: char) -> char {
    if 97 <= (c as u32) <= 122 {
        ((c as u32) - 32) as char
    } else {
        c
    }
}

/// Upper-cases an ASCII lower-case letter; other characters stay as they are.
fn to_ascii_upper(c: char) -> (r: char)
    ensures
        r == ascii_upper(c),
{
    let x = c as u32;
    if 97 <= x && x <= 122 {
        let b = (x - 32) as u8;
        assert(b as u32 == x - 32);
        b as char
    } else {
        c
    }
}

/// Relies on String::push: appends one character.
#[verifier::external_body]
fn push_char(s: &mut String, c: char)
    ensures
        final(s)@ == old(s)@.push(c),
{
    s.push(c)
}

/// Keeps the alphabetic characters of `s`, upper-casing each one that starts
/// `s` (when `cap` holds) or follows a dropped non-alphabetic character.
pub open spec fn capitalize_from(s: Seq<char>, cap: bool) -> Seq<char>
    decreases s.len(),
{
    if s.len() == 0 {
        Seq::empty()
    } else if alphabetic(s[0]) {
        seq![if cap { ascii_upper(s[0]) } else { s[0] }] + capitalize_from(s.drop_first(), false)
    } else {
        capitalize_from(s.drop_first(), true)
    }
}

/// The camel-cased body of a table's type name.
pub open spec fn camel_case(s: Seq<char>) -> Seq<char> {
    capitalize_from(s, true)
}

/// The generated type name of a table.
pub open spec fn identifier_for(table: Seq<char>) -> Seq<char> {
    "Db"@ + camel_case(table) + "Rec"@
}

/// Derives the generated record type name of a table: `user_accounts` gives
/// `DbUserAccountsRec`.
pub fn record_type(table_name: &str) -> (r: String)
    ensures
        r@ == identifier_for(table_name@),
{
    let n = table_name.unicode_len();
    let mut output = String::new();
    let mut capitalize = true;
    let mut i: usize = 0;
    assert(table_name@.subrange(0, n as int) =~= table_name@);
    assert(output@ + camel_case(table_name@) =~= camel_case(table_name@));
    while i < n
        invariant
            n == table_name@.len(),
            i <= n,
            output@ + capitalize_from(table_name@.subrange(i as int, n as int), capitalize)
                == camel_case(table_name@),
        decreases n - i,
    {
        let ch = table_name.get_char(i);
        let ghost rest = table_name@.subrange(i as int, n as int);
        assert(rest.drop_first() =~= table_name@.subrange(i + 1, n as int));
        if is_alphabetic(ch) {
            let out = if capitalize {
                to_ascii_upper(ch)
            } else {
                ch
            };
            let ghost before = output@;
            push_char(&mut output, out);
            assert(output@ + capitalize_from(rest.drop_first(), false) =~= before + (seq![out]
                + capitalize_from(rest.drop_first(), false)));
            capitalize = false;
        } else {
            capitalize = true;
        }
        i = i + 1;
    }
    assert(table_name@.subrange(n as int, n as int) =~= Seq::<char>::empty());
    assert(output@ + Seq::<char>::empty() =~= output@);
    String::from_str("Db").concat(output.as_str()).concat("Rec")
}

/// Upper-casing an ASCII letter yields a letter that upper-casing keeps.
proof fn lemma_upper_fixed(c: char)
    requires
        alphabetic(c),
    ensures
        alphabetic(ascii_upper(c)),
        ascii_upper(ascii_upper(c)) == ascii_upper(c),
{
    if 97 <= (c as u32) <= 122 {
        let x = (c as u32) - 32;
        assert((x as char) as u32 == x);
    }
}

/// A pass that starts capitalizing yields a first character that
/// upper-casing keeps.
proof fn lemma_capitalize_first(s: Seq<char>)
    ensures
        capitalize_from(s, true).len() > 0 ==> alphabetic(capitalize_from(s, true)[0])
            && ascii_upper(capitalize_from(s, true)[0]) == capitalize_from(s, true)[0],
    decreases s.len(),
{
    if s.len() > 0 {
        if alphabetic(s[0]) {
            lemma_upper_fixed(s[0]);
        } else {
            lemma_capitalize_first(s.drop_first());
        }
    }
}

/// Applying the capitalizing pass to its own output changes nothing.
proof fn lemma_capitalize_idempotent(s: Seq<char>, cap: bool)
    ensures
        capitalize_from(capitalize_from(s, cap), cap) == capitalize_from(s, cap),
    decreases s.len(),
{
    if s.len() > 0 {
        if alphabetic(s[0]) {
            let c = if cap { ascii_upper(s[0]) } else { s[0] };
            let rest = capitalize_from(s.drop_first(), false);
            let u = seq![c] + rest;
            assert(u.drop_first() =~= rest);
            lemma_upper_fixed(s[0]);
            assert(capitalize_from(u, cap) == seq![if cap { ascii_upper(c) } else { c }]
                + capitalize_from(u.drop_first(), false));
            lemma_capitalize_idempotent(s.drop_first(), false);
            assert(capitalize_from(u, cap) =~= u);
        } else {
            let v = capitalize_from(s.drop_first(), true);
            lemma_capitalize_idempotent(s.drop_first(), true);
            lemma_capitalize_first(s.drop_first());
            if v.len() > 0 {
                assert(capitalize_from(v, false) == seq![v[0]] + capitalize_from(v.drop_first(), false));
                assert(capitalize_from(v, true) == seq![ascii_upper(v[0])] + capitalize_from(
                    v.drop_first(),
                    false,
                ));
            }
        }
    }
}

/// The camel-cased body of a type name is a fixed point of camel-casing; the
/// full name, with its prefix and suffix, is not.
pub proof fn lemma_camel_case_idempotent(s: Seq<char>)
    ensures
        camel_case(camel_case(s)) == camel_case(s),
{
    lemma_capitalize_idempotent(s, true);
}

} // verus!
