//! Parameterised queries and the reading of their answers.

use vstd::prelude::*;
use crate::models::FloatBits;
use crate::reply::DbError;

verus! {

/// A parameterised query: its text and, in order, the values of its `?`
/// placeholders.
#[derive(Debug)]
pub struct SqlQuery {
    pub sql: String,
    pub binds: Vec<String>,
}

/// `clause` when `present`, nothing otherwise.
pub open spec fn clause_if(present: bool, clause: Seq<char>) -> Seq<char> {
    if present {
        clause
    } else {
        Seq::empty()
    }
}

/// The bound value of an optional filter, if it is given.
pub open spec fn bind_of(filter: Option<String>) -> Seq<Seq<char>> {
    match filter {
        Some(v) => seq![v@],
        None => Seq::empty(),
    }
}

/// The views of a list of strings.
pub open spec fn string_views(v: Seq<String>) -> Seq<Seq<char>> {
    v.map_values(|s: String| s@)
}

/// `t` occurs in `s`.
pub open spec fn has_text(s: Seq<char>, t: Seq<char>) -> bool {
    exists|i: int| 0 <= i && i + t.len() <= s.len() && #[trigger] s.subrange(i, i + t.len()) == t
}

/// The number of `?` placeholders in a query text.
pub open spec fn count_placeholders(s: Seq<char>) -> nat
    decreases s.len(),
{
    if s.len() == 0 {
        0
    } else {
        count_placeholders(s.drop_last()) + if s.last() == '?' {
            1nat
        } else {
            0nat
        }
    }
}

pub proof fn lemma_count_concat(a: Seq<char>, b: Seq<char>)
    ensures
        count_placeholders(a + b) == count_placeholders(a) + count_placeholders(b),
    decreases b.len(),
{
    if b.len() == 0 {
        assert(a + b =~= a);
    } else {
        lemma_count_concat(a, b.drop_last());
        assert((a + b).drop_last() =~= a + b.drop_last());
    }
}

pub proof fn lemma_count_free(s: Seq<char>)
    requires
        forall|i: int| 0 <= i < s.len() ==> s[i] != '?',
    ensures
        count_placeholders(s) == 0,
    decreases s.len(),
{
    if s.len() > 0 {
        lemma_count_free(s.drop_last());
    }
}

pub proof fn lemma_count_one_last(s: Seq<char>)
    requires
        s.len() > 0,
        s.last() == '?',
        forall|i: int| 0 <= i < s.len() - 1 ==> s[i] != '?',
    ensures
        count_placeholders(s) == 1,
{
    lemma_count_free(s.drop_last());
}

/// A text whose only placeholder is at position `k` holds one placeholder.
pub proof fn lemma_count_one_inside(s: Seq<char>, k: int)
    requires
        0 <= k < s.len(),
        s[k] == '?',
        forall|i: int| 0 <= i < s.len() && i != k ==> s[i] != '?',
    ensures
        count_placeholders(s) == 1,
{
    let a = s.subrange(0, k);
    let b = s.subrange(k, k + 1);
    let c = s.subrange(k + 1, s.len() as int);
    assert(s =~= a + b + c);
    lemma_count_free(a);
    lemma_count_free(c);
    lemma_count_free(Seq::<char>::empty());
    assert(b.drop_last() =~= Seq::<char>::empty());
    lemma_count_concat(a, b);
    lemma_count_concat(a + b, c);
}

/// A text whose placeholders stand exactly at the increasing positions `ps`
/// holds `ps.len()` placeholders.
pub proof fn lemma_count_at(s: Seq<char>, ps: Seq<int>)
    requires
        forall|j: int, k: int| 0 <= j < k < ps.len() ==> ps[j] < ps[k],
        forall|j: int| 0 <= j < ps.len() ==> 0 <= #[trigger] ps[j] < s.len(),
        forall|i: int| 0 <= i < s.len() ==> (s[i] == '?' <==> ps.contains(i)),
    ensures
        count_placeholders(s) == ps.len(),
    decreases s.len(),
{
    if s.len() == 0 {
        if ps.len() > 0 {
            assert(0 <= ps[0] < s.len());
        }
    } else {
        let last = s.len() - 1;
        let t = s.drop_last();
        if s[last] == '?' {
            assert(ps.contains(last));
            let j = choose|j: int| 0 <= j < ps.len() && ps[j] == last;
            if j < ps.len() - 1 {
                assert(ps[j] < ps[ps.len() - 1]);
                assert(false);
            }
            let qs = ps.drop_last();
            assert forall|i: int| 0 <= i < t.len() implies (t[i] == '?' <==> qs.contains(i)) by {
                if ps.contains(i) {
                    let k = choose|k: int| 0 <= k < ps.len() && ps[k] == i;
                    assert(k != ps.len() - 1);
                    assert(qs[k] == i);
                }
                if qs.contains(i) {
                    let k = choose|k: int| 0 <= k < qs.len() && qs[k] == i;
                    assert(ps[k] == i);
                }
            }
            assert forall|j: int| 0 <= j < qs.len() implies 0 <= #[trigger] qs[j] < t.len() by {
                assert(ps[j] < ps[ps.len() - 1]);
            }
            lemma_count_at(t, qs);
        } else {
            assert forall|j: int| 0 <= j < ps.len() implies 0 <= #[trigger] ps[j] < t.len() by {
                assert(ps.contains(ps[j]));
            }
            lemma_count_at(t, ps);
        }
    }
}

/// The query `sql`, whose one placeholder is bound to `value`.
pub fn single_value_query(sql: &'static str, value: String) -> (r: SqlQuery)
    requires
        count_placeholders(sql@) == 1,
    ensures
        r.sql@ == sql@,
        string_views(r.binds@) == seq![value@],
        count_placeholders(r.sql@) == r.binds@.len(),
{
    let ghost v = value;
    let mut binds: Vec<String> = Vec::new();
    binds.push(value);
    proof {
        assert(string_views(binds@) =~= seq![v@]);
    }
    SqlQuery { sql: String::from_str(sql), binds }
}

/// A value bound to a placeholder of a statement that writes a row.
#[derive(Debug)]
pub enum Param {
    Text(String),
    MaybeText(Option<String>),
    Int(i32),
    MaybeInt(Option<i32>),
    Bool(bool),
    Real(FloatBits),
    MaybeReal(Option<FloatBits>),
}

/// A statement with values of several types: its text and, in order, the
/// values of its `?` placeholders.
#[derive(Debug)]
pub struct Statement {
    pub sql: String,
    pub params: Vec<Param>,
}

/// Whether the answer of an existence query says the popup exists: a failed
/// query counts as "no".
pub open spec fn spec_confirms(check: Result<i32, DbError>) -> bool {
    match check {
        Ok(n) => n != 0,
        Err(_) => false,
    }
}

/// Whether the answer of `SELECT EXISTS(..)` says the row exists; a failed
/// query is read as `0`.
pub fn confirms_existence(check: Result<i32, DbError>) -> (b: bool)
    ensures
        b == spec_confirms(check),
        check is Err ==> !b,
        check matches Ok(n) ==> (b <==> n != 0),
{
    match check {
        Ok(n) => n != 0,
        Err(_) => false,
    }
}

} // verus!
