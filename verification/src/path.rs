//! The path resolver: where the objects of a table lie under the root
//! prefix. Every path is a function of its arguments and of nothing else.

use vstd::prelude::*;
use crate::codec::{
    bytes_lt, encode_hex, hex, hex_digit, lemma_hex_injective, lemma_hex_preserves_order, str_lt,
    str_lt_at,
};

verus! {

/// What is appended to a key's token in the name of a row object.
pub open spec fn row_suffix() -> Seq<char> {
    seq!['.', 'r', 'o', 'n']
}

/// The reserved name of the object that holds a table's schema.
pub open spec fn schema_file() -> Seq<char> {
    seq!['s', 'c', 'h', 'e', 'm', 'a', '.', 's', 'q', 'l']
}

/// Whether a path ends with the separator `/`.
pub open spec fn ends_with_separator(path: Seq<char>) -> bool {
    path.len() > 0 && path.last() == '/'
}

/// A path made ready to take a further segment: the separator is added
/// unless the path is empty or already ends with it.
pub open spec fn open_path(base: Seq<char>) -> Seq<char> {
    if base.len() == 0 || ends_with_separator(base) {
        base
    } else {
        base.push('/')
    }
}

/// `base` extended by one segment. The segment is taken as it is.
pub open spec fn join(base: Seq<char>, segment: Seq<char>) -> Seq<char> {
    open_path(base) + segment
}

/// The path of a table: the root prefix and the table's name.
pub open spec fn table_path(prefix: Seq<char>, table_name: Seq<char>) -> Seq<char> {
    join(prefix, table_name)
}

/// The path of the row object of the key with canonical bytes `key`.
pub open spec fn row_path(prefix: Seq<char>, table_name: Seq<char>, key: Seq<u8>) -> Seq<char> {
    join(table_path(prefix, table_name), hex(key)) + row_suffix()
}

/// The path of the schema object of a table.
pub open spec fn schema_path(prefix: Seq<char>, table_name: Seq<char>) -> Seq<char> {
    join(table_path(prefix, table_name), schema_file())
}

/// The root prefix as a directory-like object: it ends with the separator.
pub open spec fn directory(prefix: Seq<char>) -> Seq<char> {
    if ends_with_separator(prefix) {
        prefix
    } else {
        prefix.push('/')
    }
}

/// A table name that keeps the objects of its table apart from those of
/// every other: one segment, not empty, and not the reserved name.
pub open spec fn sanitized(name: Seq<char>) -> bool {
    &&& name.len() > 0
    &&& !name.contains('/')
    &&& name != schema_file()
}

/// Row paths keep the order of keys: within one table, the path of a key
/// that comes first as bytes comes first as a plain string.
pub proof fn lemma_row_path_preserves_order(
    prefix: Seq<char>,
    table_name: Seq<char>,
    a: Seq<u8>,
    b: Seq<u8>,
)
    requires
        bytes_lt(a, b),
    ensures
        str_lt(row_path(prefix, table_name, a), row_path(prefix, table_name, b)),
{
    let base = open_path(table_path(prefix, table_name));
    let x = row_path(prefix, table_name, a);
    let y = row_path(prefix, table_name, b);
    let n = base.len() as int;
    lemma_hex_preserves_order(a, b);
    let k = choose|k: int| str_lt_at(hex(a), hex(b), k);
    assert forall|i: int| 0 <= i < n + k implies x[i] == y[i] by {
        if i >= n {
            assert(x[i] == hex(a)[i - n]);
            assert(y[i] == hex(b)[i - n]);
        }
    }
    assert(y[n + k] == hex(b)[k]);
    if k < hex(a).len() {
        assert(x[n + k] == hex(a)[k]);
    } else {
        assert(x[n + k] == '.');
        let half = b[k / 2] as int;
        assert(0 <= half / 16 < 16 && 0 <= half % 16 < 16);
        assert(hex(b)[k] == hex_digit(half / 16) || hex(b)[k] == hex_digit(half % 16));
        lemma_digit_after_dot(half / 16);
        lemma_digit_after_dot(half % 16);
    }
    assert(str_lt_at(x, y, n + k));
}

/// Every digit of a token has a greater code than the dot of the suffix.
proof fn lemma_digit_after_dot(nibble: int)
    requires
        0 <= nibble < 16,
    ensures
        ('.' as u32) < (hex_digit(nibble) as u32),
{
}

/// Within one table, different keys have different row paths.
pub proof fn lemma_row_path_injective(
    prefix: Seq<char>,
    table_name: Seq<char>,
    a: Seq<u8>,
    b: Seq<u8>,
)
    requires
        row_path(prefix, table_name, a) == row_path(prefix, table_name, b),
    ensures
        a == b,
{
    let base = open_path(table_path(prefix, table_name));
    let x = row_path(prefix, table_name, a);
    let y = row_path(prefix, table_name, b);
    let n = base.len() as int;
    assert(x.len() == n + 2 * a.len() + 4);
    assert(y.len() == n + 2 * b.len() + 4);
    assert forall|i: int| 0 <= i < hex(a).len() implies hex(a)[i] == hex(b)[i] by {
        assert(x[n + i] == hex(a)[i]);
        assert(y[n + i] == hex(b)[i]);
    }
    assert(hex(a) =~= hex(b));
    lemma_hex_injective(a, b);
}

/// The schema object of a table is no row object, of any table and key.
pub proof fn lemma_schema_path_is_no_row_path(
    prefix: Seq<char>,
    table_name: Seq<char>,
    other_prefix: Seq<char>,
    other_table: Seq<char>,
    key: Seq<u8>,
)
    ensures
        schema_path(prefix, table_name) != row_path(other_prefix, other_table, key),
{
    let s = schema_path(prefix, table_name);
    let r = row_path(other_prefix, other_table, key);
    assert(s.last() == 'l');
    assert(r.last() == 'n');
}

/// The objects of a table with a sanitized name lie one separator below
/// the table's path.
pub proof fn lemma_objects_lie_under_table(prefix: Seq<char>, table_name: Seq<char>)
    requires
        sanitized(table_name),
    ensures
        open_path(table_path(prefix, table_name)) == open_path(prefix) + table_name + seq!['/'],
{
    let path = table_path(prefix, table_name);
    assert(path.last() == table_name.last());
    assert(table_name.contains(table_name.last()));
    assert(path.push('/') =~= open_path(prefix) + table_name + seq!['/']);
}

/// Two texts that agree, each a segment, a separator and a rest behind a
/// common start, agree in the segment and in the rest.
proof fn lemma_segments_agree(
    base: Seq<char>,
    a: Seq<char>,
    rest_a: Seq<char>,
    b: Seq<char>,
    rest_b: Seq<char>,
)
    requires
        !a.contains('/'),
        !b.contains('/'),
        base + a + seq!['/'] + rest_a == base + b + seq!['/'] + rest_b,
    ensures
        a == b,
        rest_a == rest_b,
{
    let x = base + a + seq!['/'] + rest_a;
    let y = base + b + seq!['/'] + rest_b;
    let n = base.len() as int;
    if a.len() < b.len() {
        assert(x[n + a.len()] == '/');
        assert(y[n + a.len()] == b[a.len() as int]);
        assert(b.contains(b[a.len() as int]));
    } else if b.len() < a.len() {
        assert(y[n + b.len()] == '/');
        assert(x[n + b.len()] == a[b.len() as int]);
        assert(a.contains(a[b.len() as int]));
    }
    assert(a.len() == b.len());
    assert forall|i: int| 0 <= i < a.len() implies a[i] == b[i] by {
        assert(x[n + i] == a[i]);
        assert(y[n + i] == b[i]);
    }
    assert(a =~= b);
    let m = n + a.len() + 1;
    assert(x.len() == m + rest_a.len());
    assert(y.len() == m + rest_b.len());
    assert forall|i: int| 0 <= i < rest_a.len() implies rest_a[i] == rest_b[i] by {
        assert(x[m + i] == rest_a[i]);
        assert(y[m + i] == rest_b[i]);
    }
    assert(rest_a =~= rest_b);
}

/// Tables with sanitized names share no object: two row objects at one
/// path are the same row of the same table, two schema objects at one
/// path are of the same table, and no row object is a schema object.
pub proof fn lemma_tables_share_no_object(
    prefix: Seq<char>,
    table_name: Seq<char>,
    key: Seq<u8>,
    other_table: Seq<char>,
    other_key: Seq<u8>,
)
    requires
        sanitized(table_name),
        sanitized(other_table),
    ensures
        row_path(prefix, table_name, key) == row_path(prefix, other_table, other_key) ==> table_name
            == other_table && key == other_key,
        schema_path(prefix, table_name) == schema_path(prefix, other_table) ==> table_name
            == other_table,
        schema_path(prefix, table_name) != row_path(prefix, other_table, other_key),
{
    let base = open_path(prefix);
    lemma_objects_lie_under_table(prefix, table_name);
    lemma_objects_lie_under_table(prefix, other_table);
    lemma_schema_path_is_no_row_path(prefix, table_name, prefix, other_table, other_key);
    if row_path(prefix, table_name, key) == row_path(prefix, other_table, other_key) {
        let rest = hex(key) + row_suffix();
        let other_rest = hex(other_key) + row_suffix();
        assert(row_path(prefix, table_name, key) =~= base + table_name + seq!['/'] + rest);
        assert(row_path(prefix, other_table, other_key) =~= base + other_table + seq!['/']
            + other_rest);
        lemma_segments_agree(base, table_name, rest, other_table, other_rest);
        lemma_row_path_injective(prefix, table_name, key, other_key);
    }
    if schema_path(prefix, table_name) == schema_path(prefix, other_table) {
        lemma_segments_agree(base, table_name, schema_file(), other_table, schema_file());
    }
}

/// The path of a table with a sanitized name is no object of any table
/// with a sanitized name.
pub proof fn lemma_table_path_is_no_object(
    prefix: Seq<char>,
    table_name: Seq<char>,
    other_table: Seq<char>,
    key: Seq<u8>,
)
    requires
        sanitized(table_name),
        sanitized(other_table),
    ensures
        table_path(prefix, table_name) != schema_path(prefix, other_table),
        table_path(prefix, table_name) != row_path(prefix, other_table, key),
{
    let base = open_path(prefix);
    let n = base.len() as int;
    let path = table_path(prefix, table_name);
    lemma_objects_lie_under_table(prefix, other_table);
    let under = base + other_table + seq!['/'];
    let at = n + other_table.len();
    assert(under[at] == '/');
    let schema = schema_path(prefix, other_table);
    let row = row_path(prefix, other_table, key);
    assert(schema =~= under + schema_file());
    assert(row =~= under + (hex(key) + row_suffix()));
    assert(schema[at] == '/');
    assert(row[at] == '/');
    if path == schema || path == row {
        if at < path.len() {
            assert(path[at] == table_name[at - n]);
            assert(table_name.contains(table_name[at - n]));
        }
    }
}

/// Whether `path` ends with the separator.
pub fn has_trailing_separator(path: &str) -> (out: bool)
    ensures
        out == ends_with_separator(path@),
{
    broadcast use vstd::string::axiom_spec_iter;

    let mut last: Option<char> = None;
    for c in it: path.chars()
        invariant
            it.seq() == path@,
            last == if it.index() == 0 {
                None
            } else {
                Some(path@[it.index() - 1])
            },
    {
        last = Some(c);
    }
    match last {
        Some(c) => c == '/',
        None => false,
    }
}

/// Extends `base` by one segment.
pub fn join_path(base: &str, segment: &str) -> (out: String)
    ensures
        out@ == join(base@, segment@),
{
    let mut out = base.to_owned();
    if !base.is_empty() && !has_trailing_separator(base) {
        proof {
            reveal_strlit("/");
        }
        out.append("/");
        assert(out@ =~= base@.push('/'));
    }
    out.append(segment);
    out
}

/// The path of a table under the root prefix.
pub fn resolve_table_path(prefix: &str, table_name: &str) -> (out: String)
    ensures
        out@ == table_path(prefix@, table_name@),
{
    join_path(prefix, table_name)
}

/// The path of the row object of a key, from the key's canonical bytes.
pub fn resolve_row_path(prefix: &str, table_name: &str, key: &[u8]) -> (out: String)
    ensures
        out@ == row_path(prefix@, table_name@, key@),
{
    let table = resolve_table_path(prefix, table_name);
    let token = encode_hex(key);
    let mut out = join_path(table.as_str(), token.as_str());
    proof {
        reveal_strlit(".ron");
        assert(".ron"@ =~= row_suffix());
    }
    out.append(".ron");
    out
}

/// The path of the schema object of a table.
pub fn resolve_schema_path(prefix: &str, table_name: &str) -> (out: String)
    ensures
        out@ == schema_path(prefix@, table_name@),
{
    let table = resolve_table_path(prefix, table_name);
    proof {
        reveal_strlit("schema.sql");
        assert("schema.sql"@ =~= schema_file());
    }
    join_path(table.as_str(), "schema.sql")
}

/// The root prefix as the directory-like object that is probed and created.
pub fn root_directory(prefix: &str) -> (out: String)
    ensures
        out@ == directory(prefix@),
{
    let mut out = prefix.to_owned();
    if !has_trailing_separator(prefix) {
        proof {
            reveal_strlit("/");
        }
        out.append("/");
        assert(out@ =~= prefix@.push('/'));
    }
    out
}

/// Whether a name holds the separator.
pub fn has_separator(name: &str) -> (out: bool)
    ensures
        out == name@.contains('/'),
{
    broadcast use vstd::string::axiom_spec_iter;

    let mut found: bool = false;
    for c in it: name.chars()
        invariant
            it.seq() == name@,
            found == exists|j: int| 0 <= j < it.index() && name@[j] == '/',
    {
        if c == '/' {
            found = true;
        }
    }
    found
}

/// Whether a name is the one reserved for schema objects, which no table
/// may bear.
pub fn is_reserved_name(name: &str) -> (out: bool)
    ensures
        out == (name@ == schema_file()),
{
    proof {
        reveal_strlit("schema.sql");
        assert("schema.sql"@ =~= schema_file());
    }
    name.to_owned() == "schema.sql".to_owned()
}

/// Whether a table name is sanitized: one segment, not empty, and not
/// the reserved name.
pub fn is_sanitized(name: &str) -> (out: bool)
    ensures
        out == sanitized(name@),
{
    !name.is_empty() && !has_separator(name) && !is_reserved_name(name)
}

} // verus!
