//! WQL text: string literals, identifiers, and the `SELECT` and
//! `ASSOCIATORS OF` statements built from a class description and filters.

use vstd::prelude::*;
use crate::text::{chars_of, push_str_chars, string_of};
use crate::num::{int_text, push_int_text};
use crate::order::{join_with, views, text_le, insert_sorted, push_joined, lemma_sorted_is_sort_by};
use vstd::relations::sorted_by;

verus! {

broadcast use vstd::seq_lib::group_to_multiset_ensures;

/// The escaped form of one character inside a WQL string literal:
/// `"` and `\` get a `\` before them, every other character stands as is.
pub open spec fn escape_char(c: char) -> Seq<char> {
    if c == '"' {
        seq!['\\', '"']
    } else if c == '\\' {
        seq!['\\', '\\']
    } else {
        seq![c]
    }
}

/// The escaped form of a whole string.
pub open spec fn escape_wql(s: Seq<char>) -> Seq<char>
    decreases s.len(),
{
    if s.len() == 0 {
        Seq::empty()
    } else {
        escape_wql(s.drop_last()) + escape_char(s.last())
    }
}

/// A WQL string literal holding `s`: the escaped text between double quotes.
pub open spec fn quoted_wql(s: Seq<char>) -> Seq<char> {
    seq!['"'] + escape_wql(s) + seq!['"']
}

/// Reads back the body of a WQL string literal: `\` takes the next character
/// literally (only `"` and `\` may follow it), and a bare `"` cannot occur.
pub open spec fn unescape_wql(t: Seq<char>) -> Option<Seq<char>>
    decreases t.len(),
{
    if t.len() == 0 {
        Some(Seq::empty())
    } else if t[0] == '\\' {
        if t.len() >= 2 && (t[1] == '"' || t[1] == '\\') {
            match unescape_wql(t.skip(2)) {
                Some(rest) => Some(seq![t[1]] + rest),
                None => None,
            }
        } else {
            None
        }
    } else if t[0] == '"' {
        None
    } else {
        match unescape_wql(t.drop_first()) {
            Some(rest) => Some(seq![t[0]] + rest),
            None => None,
        }
    }
}

/// Reads back a WQL string literal: its quotes, then its body.
pub open spec fn unquote_wql(t: Seq<char>) -> Option<Seq<char>> {
    if t.len() >= 2 && t[0] == '"' && t.last() == '"' {
        unescape_wql(t.subrange(1, t.len() - 1))
    } else {
        None
    }
}

proof fn lemma_escape_concat(a: Seq<char>, b: Seq<char>)
    ensures
        escape_wql(a + b) == escape_wql(a) + escape_wql(b),
    decreases b.len(),
{
    if b.len() == 0 {
        assert(a + b =~= a);
        assert(escape_wql(a) + escape_wql(b) =~= escape_wql(a));
    } else {
        lemma_escape_concat(a, b.drop_last());
        assert((a + b).drop_last() =~= a + b.drop_last());
        assert((a + b).last() == b.last());
        assert(escape_wql(a + b) =~= escape_wql(a) + escape_wql(b.drop_last()) + escape_char(b.last()));
    }
}

proof fn lemma_escape_first(s: Seq<char>)
    requires
        s.len() > 0,
    ensures
        escape_wql(s) == escape_char(s[0]) + escape_wql(s.drop_first()),
{
    let head = seq![s[0]];
    assert(s =~= head + s.drop_first());
    lemma_escape_concat(head, s.drop_first());
    assert(head.drop_last() =~= Seq::<char>::empty());
    assert(escape_wql(head.drop_last()) =~= Seq::<char>::empty());
    assert(head.last() == s[0]);
    assert(escape_wql(head) =~= escape_char(s[0]));
}

/// Escaping loses nothing: the body of an escaped string reads back as the
/// string itself.
pub proof fn lemma_unescape_escape(s: Seq<char>)
    ensures
        unescape_wql(escape_wql(s)) == Some(s),
    decreases s.len(),
{
    if s.len() == 0 {
    } else {
        lemma_escape_first(s);
        lemma_unescape_escape(s.drop_first());
        let e = escape_wql(s);
        let rest = escape_wql(s.drop_first());
        let c = s[0];
        if c == '"' || c == '\\' {
            assert(e =~= seq!['\\', c] + rest);
            assert(e.skip(2) =~= rest);
        } else {
            assert(e =~= seq![c] + rest);
            assert(e.drop_first() =~= rest);
        }
        assert(seq![c] + s.drop_first() =~= s);
    }
}

/// A quoted string literal reads back as the string that was quoted: no two
/// different strings are quoted the same way, and the quoting cannot end early.
pub proof fn lemma_quote_round_trip(s: Seq<char>)
    ensures
        unquote_wql(quoted_wql(s)) == Some(s),
{
    let q = quoted_wql(s);
    lemma_unescape_escape(s);
    assert(q.subrange(1, q.len() - 1) =~= escape_wql(s));
}

/// Appends the escaped form of `s` to `out`.
fn push_escaped(out: &mut Vec<char>, s: &Vec<char>)
    ensures
        final(out)@ == old(out)@ + escape_wql(s@),
{
    let mut i: usize = 0;
    while i < s.len()
        invariant
            0 <= i <= s.len(),
            out@ == old(out)@ + escape_wql(s@.take(i as int)),
        decreases s.len() - i,
    {
        let c = s[i];
        if c == '"' {
            out.push('\\');
            out.push('"');
        } else if c == '\\' {
            out.push('\\');
            out.push('\\');
        } else {
            out.push(c);
        }
        proof {
            assert(s@.take(i + 1).drop_last() =~= s@.take(i as int));
            assert(s@.take(i + 1).last() == c);
        }
        i = i + 1;
    }
    assert(s@.take(s.len() as int) =~= s@);
}

/// Appends the WQL string literal for `s` to `out`.
fn push_quoted(out: &mut Vec<char>, s: &Vec<char>)
    ensures
        final(out)@ == old(out)@ + quoted_wql(s@),
{
    out.push('"');
    push_escaped(out, s);
    out.push('"');
    assert(final(out)@ =~= old(out)@ + quoted_wql(s@));
}

/// Quotes and escapes a string for use as a WQL string literal: the result is
/// `"` + the string with `\` before each `"` and `\` + `"`.
pub fn quote_and_escape_wql_str(s: &str) -> (r: String)
    ensures
        r@ == quoted_wql(s@),
{
    let cs = chars_of(s);
    let mut out: Vec<char> = Vec::new();
    push_quoted(&mut out, &cs);
    assert(out@ =~= quoted_wql(s@));
    string_of(&out)
}

/// The characters that may start a namespace, class or property name:
/// `_`, ASCII letters, and U+0080 to U+FFEF.
pub open spec fn is_identifier_start(c: char) -> bool {
    c == '_' || ('A' <= c && c <= 'Z') || ('a' <= c && c <= 'z')
        || ('\u{80}' <= c && c <= '\u{FFEF}')
}

/// The characters that may follow the first one: those that may start a
/// name, and the ASCII digits.
pub open spec fn is_identifier_char(c: char) -> bool {
    ('0' <= c && c <= '9') || is_identifier_start(c)
}

/// Why a name is not a valid WQL identifier.
#[derive(Debug, Clone, Copy, PartialEq, Eq)]
pub enum IdentifierError {
    /// The name is empty.
    Empty,
    /// The first character may not start a name.
    BadStart,
    /// A later character may not occur in a name.
    BadChar,
}

/// The text of each identifier error.
pub open spec fn identifier_error_text(e: IdentifierError) -> Seq<char> {
    match e {
        IdentifierError::Empty => "An empty string is not a valid namespace, class, or property name"@,
        IdentifierError::BadStart => "An identifier must start with '_' or an alphabetic character"@,
        IdentifierError::BadChar => "An identifier must only consist of '_', alphabetic, or numeric characters"@,
    }
}

impl IdentifierError {
    /// The text of the error.
    pub fn message(&self) -> (r: &'static str)
        ensures
            r@ == identifier_error_text(*self),
    {
        match self {
            IdentifierError::Empty => "An empty string is not a valid namespace, class, or property name",
            IdentifierError::BadStart => "An identifier must start with '_' or an alphabetic character",
            IdentifierError::BadChar => "An identifier must only consist of '_', alphabetic, or numeric characters",
        }
    }
}

/// The outcome of checking a name against the identifier rules.
pub open spec fn identifier_check(s: Seq<char>) -> Result<(), IdentifierError> {
    if s.len() == 0 {
        Err(IdentifierError::Empty)
    } else if !is_identifier_start(s[0]) {
        Err(IdentifierError::BadStart)
    } else if exists|i: int| 1 <= i < s.len() && !is_identifier_char(#[trigger] s[i]) {
        Err(IdentifierError::BadChar)
    } else {
        Ok(())
    }
}

fn is_start_char(c: char) -> (r: bool)
    ensures
        r == is_identifier_start(c),
{
    c == '_' || ('A' <= c && c <= 'Z') || ('a' <= c && c <= 'z') || ('\u{80}' <= c && c <= '\u{FFEF}')
}

fn is_name_char(c: char) -> (r: bool)
    ensures
        r == is_identifier_char(c),
{
    ('0' <= c && c <= '9') || is_start_char(c)
}

/// Checks a namespace, class or property name: it must start with `_`, a
/// letter or a character of U+0080..U+FFEF, and go on with those or digits.
pub fn validate_identifier(s: &str) -> (r: Result<(), IdentifierError>)
    ensures
        r == identifier_check(s@),
{
    let cs = chars_of(s);
    if cs.len() == 0 {
        return Err(IdentifierError::Empty);
    }
    if !is_start_char(cs[0]) {
        return Err(IdentifierError::BadStart);
    }
    let mut i: usize = 1;
    while i < cs.len()
        invariant
            1 <= i <= cs.len(),
            cs@ == s@,
            cs@.len() > 0,
            is_identifier_start(cs@[0]),
            forall|j: int| 1 <= j < i ==> is_identifier_char(#[trigger] cs@[j]),
        decreases cs.len() - i,
    {
        if !is_name_char(cs[i]) {
            assert(!is_identifier_char(s@[i as int]));
            return Err(IdentifierError::BadChar);
        }
        i = i + 1;
    }
    Ok(())
}

/// No valid identifier holds a quote or a backslash, so a class or property
/// name that passes the check cannot end a string literal or escape from one
/// in the query it is put into.
pub proof fn lemma_identifier_has_no_quotes(s: Seq<char>, i: int)
    requires
        0 <= i < s.len(),
        s[i] == '"' || s[i] == '\\',
    ensures
        identifier_check(s) is Err,
{
    if i > 0 && is_identifier_start(s[0]) {
        assert(!is_identifier_char(s[i]));
    }
}

/// The first failure among a class name and its field names, checked in
/// that order.
pub open spec fn names_check(name: Seq<char>, fields: Seq<Seq<char>>) -> Result<(), IdentifierError>
    decreases fields.len(),
{
    if fields.len() == 0 {
        identifier_check(name)
    } else {
        match names_check(name, fields.drop_last()) {
            Err(e) => Err(e),
            Ok(()) => identifier_check(fields.last()),
        }
    }
}

/// The views of a list of names.
pub open spec fn name_views(fields: Seq<&str>) -> Seq<Seq<char>> {
    Seq::new(fields.len(), |i: int| fields[i]@)
}

/// Checks a class name, then each of its field names, and reports the first
/// name that is not a valid identifier.
pub fn validate_struct_name_and_fields(name: &str, fields: &[&str]) -> (r: Result<(), IdentifierError>)
    ensures
        r == names_check(name@, name_views(fields@)),
{
    let first = validate_identifier(name);
    if first.is_err() {
        proof { lemma_names_check_prefix_err(name@, name_views(fields@), 0); }
        return first;
    }
    let mut i: usize = 0;
    while i < fields.len()
        invariant
            0 <= i <= fields.len(),
            names_check(name@, name_views(fields@).take(i as int)) == Ok::<(), IdentifierError>(()),
        decreases fields.len() - i,
    {
        let ghost pre = name_views(fields@).take(i + 1);
        assert(pre.drop_last() =~= name_views(fields@).take(i as int));
        let r = validate_identifier(fields[i]);
        if r.is_err() {
            proof { lemma_names_check_prefix_err(name@, name_views(fields@), i + 1); }
            return r;
        }
        i = i + 1;
    }
    assert(name_views(fields@).take(fields.len() as int) =~= name_views(fields@));
    Ok(())
}

proof fn lemma_names_check_prefix_err(name: Seq<char>, fields: Seq<Seq<char>>, k: int)
    requires
        0 <= k <= fields.len(),
        names_check(name, fields.take(k)) is Err,
    ensures
        names_check(name, fields) == names_check(name, fields.take(k)),
    decreases fields.len() - k,
{
    if k < fields.len() {
        assert(fields.take(k + 1).drop_last() =~= fields.take(k));
        lemma_names_check_prefix_err(name, fields, k + 1);
    } else {
        assert(fields.take(k) =~= fields);
    }
}


/// A value that a property is compared with in a `WHERE` clause.
#[non_exhaustive]
#[derive(Debug, Clone, PartialEq)]
pub enum FilterValue {
    /// `property = true` or `property = false`.
    Bool(bool),
    /// `property = <number>`.
    Number(i64),
    /// `property = "<text>"`.
    Str(&'static str),
    /// `property = "<text>"`.
    String(String),
    /// `property LIKE "<pattern>"`.
    StrLike(&'static str),
    /// `property LIKE "<pattern>"`.
    StringLike(String),
    /// `property ISA "<class>"`.
    IsA(&'static str),
}

impl FilterValue {
    /// A filter that matches objects of the given class (`ISA`); the class
    /// name must be a valid identifier.
    pub fn is_a(class_name: &'static str) -> (r: Result<FilterValue, IdentifierError>)
        ensures
            match identifier_check(class_name@) {
                Ok(()) => r == Ok::<FilterValue, IdentifierError>(FilterValue::IsA(class_name)),
                Err(e) => r == Err::<FilterValue, IdentifierError>(e),
            },
    {
        match validate_identifier(class_name) {
            Ok(()) => Ok(FilterValue::IsA(class_name)),
            Err(e) => Err(e),
        }
    }
}

impl From<String> for FilterValue {
    fn from(value: String) -> (r: FilterValue) {
        FilterValue::String(value)
    }
}

impl vstd::std_specs::convert::FromSpecImpl<String> for FilterValue {
    open spec fn obeys_from_spec() -> bool {
        true
    }

    open spec fn from_spec(v: String) -> FilterValue {
        FilterValue::String(v)
    }
}

impl From<&'static str> for FilterValue {
    fn from(value: &'static str) -> (r: FilterValue) {
        FilterValue::Str(value)
    }
}

impl vstd::std_specs::convert::FromSpecImpl<&'static str> for FilterValue {
    open spec fn obeys_from_spec() -> bool {
        true
    }

    open spec fn from_spec(v: &'static str) -> FilterValue {
        FilterValue::Str(v)
    }
}

impl From<i64> for FilterValue {
    fn from(value: i64) -> (r: FilterValue) {
        FilterValue::Number(value)
    }
}

impl vstd::std_specs::convert::FromSpecImpl<i64> for FilterValue {
    open spec fn obeys_from_spec() -> bool {
        true
    }

    open spec fn from_spec(v: i64) -> FilterValue {
        FilterValue::Number(v)
    }
}

impl From<bool> for FilterValue {
    fn from(value: bool) -> (r: FilterValue) {
        FilterValue::Bool(value)
    }
}

impl vstd::std_specs::convert::FromSpecImpl<bool> for FilterValue {
    open spec fn obeys_from_spec() -> bool {
        true
    }

    open spec fn from_spec(v: bool) -> FilterValue {
        FilterValue::Bool(v)
    }
}

/// The condition that one filter puts on a property.
pub open spec fn condition_text(field: Seq<char>, f: FilterValue) -> Seq<char> {
    match f {
        FilterValue::Bool(b) => field + " = "@ + (if b { "true"@ } else { "false"@ }),
        FilterValue::Number(n) => field + " = "@ + int_text(n as int),
        FilterValue::Str(s) => field + " = "@ + quoted_wql(s@),
        FilterValue::String(s) => field + " = "@ + quoted_wql(s@),
        FilterValue::StrLike(s) => field + " LIKE "@ + quoted_wql(s@),
        FilterValue::StringLike(s) => field + " LIKE "@ + quoted_wql(s@),
        FilterValue::IsA(s) => field + " ISA "@ + quoted_wql(s@),
    }
}

/// The condition of each filter, in the order of the filters.
pub open spec fn conditions(filters: Seq<(String, FilterValue)>) -> Seq<Seq<char>> {
    filters.map_values(|e: (String, FilterValue)| condition_text(e.0@, e.1))
}

/// The `WHERE` clause for the filters: empty without filters, else `WHERE`
/// and the conditions in sorted order joined by `AND`.
pub open spec fn where_clause_text(filters: Option<Seq<(String, FilterValue)>>) -> Seq<char> {
    match filters {
        None => Seq::empty(),
        Some(f) => if f.len() == 0 {
            Seq::empty()
        } else {
            "WHERE "@ + join_with(conditions(f).sort_by(text_le()), " AND "@)
        },
    }
}

fn condition(field: &String, f: &FilterValue) -> (r: Vec<char>)
    ensures
        r@ == condition_text(field@, *f),
{
    let mut out = chars_of(field.as_str());
    match f {
        FilterValue::Bool(b) => {
            push_str_chars(&mut out, " = ");
            if *b {
                push_str_chars(&mut out, "true");
            } else {
                push_str_chars(&mut out, "false");
            }
        },
        FilterValue::Number(n) => {
            push_str_chars(&mut out, " = ");
            push_int_text(&mut out, *n as i128);
        },
        FilterValue::Str(s) => {
            push_str_chars(&mut out, " = ");
            push_quoted(&mut out, &chars_of(s));
        },
        FilterValue::String(s) => {
            push_str_chars(&mut out, " = ");
            push_quoted(&mut out, &chars_of(s.as_str()));
        },
        FilterValue::StrLike(s) => {
            push_str_chars(&mut out, " LIKE ");
            push_quoted(&mut out, &chars_of(s));
        },
        FilterValue::StringLike(s) => {
            push_str_chars(&mut out, " LIKE ");
            push_quoted(&mut out, &chars_of(s.as_str()));
        },
        FilterValue::IsA(s) => {
            push_str_chars(&mut out, " ISA ");
            push_quoted(&mut out, &chars_of(s));
        },
    }
    assert(out@ =~= condition_text(field@, *f));
    out
}

/// Appends the `WHERE` clause for the filters to `out`.
fn push_where_clause(out: &mut Vec<char>, filters: Option<&[(String, FilterValue)]>)
    ensures
        final(out)@ == old(out)@ + where_clause_text(
            match filters { Some(f) => Some(f@), None => None },
        ),
{
    match filters {
        None => {
            assert(old(out)@ + Seq::<char>::empty() =~= old(out)@);
        },
        Some(f) => {
            if f.len() == 0 {
                assert(old(out)@ + Seq::<char>::empty() =~= old(out)@);
                return;
            }
            let ghost conds = conditions(f@);
            let mut sorted: Vec<Vec<char>> = Vec::new();
            let mut i: usize = 0;
            assert(views(sorted@).to_multiset() =~= conds.take(0).to_multiset()) by {
                assert(views(sorted@) =~= Seq::<Seq<char>>::empty());
                assert(conds.take(0) =~= Seq::<Seq<char>>::empty());
            }
            while i < f.len()
                invariant
                    0 <= i <= f.len(),
                    conds == conditions(f@),
                    conds.len() == f@.len(),
                    sorted_by(views(sorted@), text_le()),
                    views(sorted@).to_multiset() =~= conds.take(i as int).to_multiset(),
                decreases f.len() - i,
            {
                let c = condition(&f[i].0, &f[i].1);
                assert(c@ == conds[i as int]);
                let ghost before = views(sorted@).to_multiset();
                insert_sorted(&mut sorted, c);
                assert(conds.take(i + 1) =~= conds.take(i as int).push(conds[i as int]));
                assert(conds.take(i + 1).to_multiset() =~= conds.take(i as int).to_multiset().insert(conds[i as int]));
                i = i + 1;
            }
            assert(conds.take(f.len() as int) =~= conds);
            proof {
                lemma_sorted_is_sort_by(conds, views(sorted@));
            }
            push_str_chars(out, "WHERE ");
            push_joined(out, &sorted, &chars_of(" AND "));
            assert(final(out)@ =~= old(out)@ + where_clause_text(Some(f@)));
        },
    }
}

proof fn lemma_map_values_multiset<A, B>(s1: Seq<A>, s2: Seq<A>, g: spec_fn(A) -> B)
    requires
        s1.to_multiset() =~= s2.to_multiset(),
    ensures
        s1.map_values(g).to_multiset() =~= s2.map_values(g).to_multiset(),
    decreases s1.len(),
{
    broadcast use vstd::multiset::group_multiset_axioms;
    assert(s1.len() == s1.to_multiset().len());
    assert(s2.len() == s2.to_multiset().len());
    if s1.len() == 0 {
        assert(s1.map_values(g) =~= s2.map_values(g));
    } else {
        let x = s1[0];
        assert(s1.contains(x));
        assert(s1.to_multiset().count(x) > 0);
        assert(s2.to_multiset().count(x) > 0);
        assert(s2.contains(x));
        let j = choose|j: int| 0 <= j < s2.len() && s2[j] == x;
        let r1 = s1.remove(0);
        let r2 = s2.remove(j);
        assert(r1.to_multiset() =~= s1.to_multiset().remove(x));
        assert(r2.to_multiset() =~= s2.to_multiset().remove(x));
        lemma_map_values_multiset(r1, r2, g);
        let m1 = s1.map_values(g);
        let m2 = s2.map_values(g);
        assert(m1.remove(0) =~= r1.map_values(g));
        assert(m2.remove(j) =~= r2.map_values(g));
        assert(m1.to_multiset().remove(g(x)) =~= r1.map_values(g).to_multiset());
        assert(m2.to_multiset().remove(g(x)) =~= r2.map_values(g).to_multiset());
        assert(m1.contains(g(x))) by { assert(m1[0] == g(x)); }
        assert(m2.contains(g(x))) by { assert(m2[j] == g(x)); }
        assert(m1.to_multiset().count(g(x)) > 0);
        assert(m2.to_multiset().count(g(x)) > 0);
        assert(m1.to_multiset() =~= m1.to_multiset().remove(g(x)).insert(g(x)));
        assert(m2.to_multiset() =~= m2.to_multiset().remove(g(x)).insert(g(x)));
    }
}

/// The `WHERE` clause does not depend on the order in which the filters are
/// given: any two lists that hold the same filters, each as often, give the
/// same clause (so the order in which a hash map yields its entries does not
/// show in the query).
pub proof fn lemma_where_clause_order_free(f1: Seq<(String, FilterValue)>, f2: Seq<(String, FilterValue)>)
    requires
        f1.to_multiset() =~= f2.to_multiset(),
    ensures
        where_clause_text(Some(f1)) == where_clause_text(Some(f2)),
{
    let g = |e: (String, FilterValue)| condition_text(e.0@, e.1);
    lemma_map_values_multiset(f1, f2, g);
    assert(f1.len() == f1.to_multiset().len());
    assert(f2.len() == f2.to_multiset().len());
    let c1 = conditions(f1);
    let c2 = conditions(f2);
    assert(c1 == f1.map_values(g));
    assert(c2 == f2.map_values(g));
    crate::order::lemma_text_le_total_ordering();
    c1.lemma_sort_by_ensures(text_le());
    c2.lemma_sort_by_ensures(text_le());
    crate::order::lemma_sorted_unique(c1.sort_by(text_le()), c2.sort_by(text_le()));
}

/// The filters as an optional sequence.
pub open spec fn filters_view(filters: Option<&[(String, FilterValue)]>) -> Option<Seq<(String, FilterValue)>> {
    match filters {
        Some(f) => Some(f@),
        None => None,
    }
}

/// The text of `SELECT <fields> FROM <class> <where clause>`.
pub open spec fn select_query_text(
    class_name: Seq<char>,
    fields: Seq<Seq<char>>,
    filters: Option<Seq<(String, FilterValue)>>,
) -> Seq<char> {
    "SELECT "@ + join_with(fields, ", "@) + " FROM "@ + class_name + " "@ + where_clause_text(filters)
}

/// With no filter, the query for one field `a` is `SELECT a FROM <class> `,
/// and for two fields `a` and `b` it is `SELECT a, b FROM <class> `: the
/// fields are separated by a comma and a space.
pub proof fn lemma_select_query_fields(class_name: Seq<char>, a: Seq<char>, b: Seq<char>)
    ensures
        select_query_text(class_name, seq![a], None) == "SELECT "@ + a + " FROM "@ + class_name + " "@,
        select_query_text(class_name, seq![a, b], None)
            == "SELECT "@ + a + ","@ + " "@ + b + " FROM "@ + class_name + " "@,
{
    reveal_strlit(", ");
    reveal_strlit(",");
    reveal_strlit(" ");
    assert(seq![a, b].drop_last() =~= seq![a]);
    assert(join_with(seq![a], ", "@) == a);
    assert(", "@ =~= ","@ + " "@);
    assert(join_with(seq![a, b], ", "@) == join_with(seq![a], ", "@) + ", "@ + b);
    assert(join_with(seq![a, b], ", "@) =~= a + ","@ + " "@ + b);
    assert(select_query_text(class_name, seq![a, b], None)
        =~= "SELECT "@ + a + ","@ + " "@ + b + " FROM "@ + class_name + " "@);
    assert(select_query_text(class_name, seq![a], None) =~= "SELECT "@ + a + " FROM "@ + class_name + " "@);
}

/// Builds the query that selects the given fields of a class, restricted by
/// the filters.
pub fn build_query(class_name: &str, fields: &[&str], filters: Option<&[(String, FilterValue)]>) -> (r: String)
    ensures
        r@ == select_query_text(class_name@, name_views(fields@), filters_view(filters)),
{
    let mut out = chars_of("SELECT ");
    let mut parts: Vec<Vec<char>> = Vec::new();
    let mut i: usize = 0;
    while i < fields.len()
        invariant
            0 <= i <= fields.len(),
            parts@.len() == i,
            views(parts@) == name_views(fields@).take(i as int),
        decreases fields.len() - i,
    {
        let c = chars_of(fields[i]);
        let ghost old_parts = parts@;
        parts.push(c);
        assert(parts@ == old_parts.push(c));
        assert forall|j: int| 0 <= j < i + 1 implies #[trigger] views(parts@)[j] == name_views(fields@).take(i + 1)[j] by {
            if j < i {
                assert(parts@[j] == old_parts[j]);
                assert(views(old_parts)[j] == name_views(fields@).take(i as int)[j]);
            }
        }
        assert(views(parts@) =~= name_views(fields@).take(i + 1));
        i = i + 1;
    }
    assert(name_views(fields@).take(fields.len() as int) =~= name_views(fields@));
    push_joined(&mut out, &parts, &chars_of(", "));
    push_str_chars(&mut out, " FROM ");
    push_str_chars(&mut out, class_name);
    push_str_chars(&mut out, " ");
    push_where_clause(&mut out, filters);
    assert(out@ =~= select_query_text(class_name@, name_views(fields@), filters_view(filters)));
    string_of(&out)
}

/// The text of `SELECT * FROM <class> [WITHIN <seconds> ]<where clause>`.
pub open spec fn notification_query_text(
    class_name: Seq<char>,
    filters: Option<Seq<(String, FilterValue)>>,
    within_secs: Option<Seq<char>>,
) -> Seq<char> {
    "SELECT * FROM "@ + class_name + " "@
        + (match within_secs { Some(w) => "WITHIN "@ + w + " "@, None => Seq::empty() })
        + where_clause_text(filters)
}

/// Whenever a polling interval `w` is given, the query begins with
/// `SELECT * FROM <class> WITHIN <w> `, whatever the filters; the where
/// clause of the filters follows, and with no filter there is nothing after.
/// Without an interval the query begins `SELECT * FROM <class> ` and the
/// where clause follows directly.
pub proof fn lemma_notification_query_shape(
    class_name: Seq<char>,
    filters: Option<Seq<(String, FilterValue)>>,
    w: Seq<char>,
)
    ensures
        ({
            let q = notification_query_text(class_name, filters, Some(w));
            let head = "SELECT * FROM "@ + class_name + " WITHIN "@ + w + " "@;
            &&& q.len() >= head.len()
            &&& q.subrange(0, head.len() as int) == head
            &&& q.subrange(head.len() as int, q.len() as int) == where_clause_text(filters)
            &&& (match filters { Some(f) => f.len() == 0, None => true }) ==> q == head
        }),
        ({
            let q = notification_query_text(class_name, filters, None);
            let head = "SELECT * FROM "@ + class_name + " "@;
            &&& q.len() >= head.len()
            &&& q.subrange(0, head.len() as int) == head
            &&& q.subrange(head.len() as int, q.len() as int) == where_clause_text(filters)
        }),
{
    let q = notification_query_text(class_name, filters, Some(w));
    let head = "SELECT * FROM "@ + class_name + " WITHIN "@ + w + " "@;
    reveal_strlit("WITHIN ");
    reveal_strlit(" WITHIN ");
    reveal_strlit(" ");
    assert(" "@ + "WITHIN "@ =~= " WITHIN "@);
    assert(q =~= head + where_clause_text(filters));
    assert(q.subrange(0, head.len() as int) =~= head);
    assert(q.subrange(head.len() as int, q.len() as int) =~= where_clause_text(filters));
    let q2 = notification_query_text(class_name, filters, None);
    let head2 = "SELECT * FROM "@ + class_name + " "@;
    assert(q2 =~= head2 + where_clause_text(filters));
    assert(q2.subrange(0, head2.len() as int) =~= head2);
    assert(q2.subrange(head2.len() as int, q2.len() as int) =~= where_clause_text(filters));
}

/// Builds the query of an event subscription to a class, restricted by the
/// filters, with an optional polling interval given as its decimal number of
/// seconds.
pub fn build_notification_query(
    class_name: &str,
    filters: Option<&[(String, FilterValue)]>,
    within_secs: Option<&str>,
) -> (r: String)
    ensures
        r@ == notification_query_text(
            class_name@,
            filters_view(filters),
            match within_secs { Some(w) => Some(w@), None => None },
        ),
{
    let mut out = chars_of("SELECT * FROM ");
    push_str_chars(&mut out, class_name);
    push_str_chars(&mut out, " ");
    match within_secs {
        Some(w) => {
            push_str_chars(&mut out, "WITHIN ");
            push_str_chars(&mut out, w);
            push_str_chars(&mut out, " ");
        },
        None => {},
    }
    push_where_clause(&mut out, filters);
    assert(out@ =~= notification_query_text(
        class_name@,
        filters_view(filters),
        match within_secs { Some(w) => Some(w@), None => None },
    ));
    string_of(&out)
}

/// The text of the query for the objects associated with an object.
pub open spec fn associators_query_text(object_path: Seq<char>, association_class: Seq<char>, class_name: Seq<char>) -> Seq<char> {
    "ASSOCIATORS OF {"@ + object_path + "} WHERE AssocClass = "@ + association_class
        + " ResultClass = "@ + class_name
}

/// The associators query is `ASSOCIATORS OF {`, the object path, `}`, then
/// ` WHERE AssocClass = ` with the association class and ` ResultClass = `
/// with the class, in that order and with nothing else.
pub proof fn lemma_associators_query_layout(object_path: Seq<char>, association_class: Seq<char>, class_name: Seq<char>)
    ensures
        ({
            let q = associators_query_text(object_path, association_class, class_name);
            let a: int = 16 + object_path.len() as int;
            let b: int = a + 21 + association_class.len();
            &&& q.len() == b + 15 + class_name.len()
            &&& q.subrange(0, 16) == "ASSOCIATORS OF {"@
            &&& q.subrange(16, a) == object_path
            &&& q[a] == '}'
            &&& q.subrange(a + 1, a + 21) == " WHERE AssocClass = "@
            &&& q.subrange(a + 21, b) == association_class
            &&& q.subrange(b, b + 15) == " ResultClass = "@
            &&& q.subrange(b + 15, q.len() as int) == class_name
        }),
{
    reveal_strlit("ASSOCIATORS OF {");
    reveal_strlit("} WHERE AssocClass = ");
    reveal_strlit(" WHERE AssocClass = ");
    reveal_strlit(" ResultClass = ");
    let q = associators_query_text(object_path, association_class, class_name);
    let a: int = 16 + object_path.len() as int;
    let b: int = a + 21 + association_class.len();
    assert(q.subrange(0, 16) =~= "ASSOCIATORS OF {"@);
    assert(q.subrange(16, a) =~= object_path);
    assert(q.subrange(a + 1, a + 21) =~= " WHERE AssocClass = "@);
    assert(q.subrange(a + 21, b) =~= association_class);
    assert(q.subrange(b, b + 15) =~= " ResultClass = "@);
    assert(q.subrange(b + 15, q.len() as int) =~= class_name);
}

/// Builds the query for the objects of a class that an association class
/// links to the object at the given path.
pub fn associators_query(object_path: &str, association_class: &str, class_name: &str) -> (r: String)
    ensures
        r@ == associators_query_text(object_path@, association_class@, class_name@),
{
    let mut out = chars_of("ASSOCIATORS OF {");
    push_str_chars(&mut out, object_path);
    push_str_chars(&mut out, "} WHERE AssocClass = ");
    push_str_chars(&mut out, association_class);
    push_str_chars(&mut out, " ResultClass = ");
    push_str_chars(&mut out, class_name);
    assert(out@ =~= associators_query_text(object_path@, association_class@, class_name@));
    string_of(&out)
}

} // verus!
