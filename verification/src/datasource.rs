//! The database: the statements of the initialisation script.
use vstd::prelude::*;
use crate::text::{split_char, split_on, strings_view, trim, trimmed, lemma_split_char_join,
    lemma_split_char_no_sep};

verus! {

/// The non-empty pieces of a list, each without its surrounding white
/// space, in order.
pub open spec fn trimmed_nonempty(pieces: Seq<Seq<char>>) -> Seq<Seq<char>>
    decreases pieces.len(),
{
    if pieces.len() == 0 {
        Seq::empty()
    } else {
        let rest = trimmed_nonempty(pieces.drop_last());
        let t = trimmed(pieces.last());
        if t.len() > 0 {
            rest.push(t)
        } else {
            rest
        }
    }
}

/// The statements of an SQL script: the pieces between semicolons, without
/// their surrounding white space, leaving out the empty ones.
pub open spec fn sql_statements(script: Seq<char>) -> Seq<Seq<char>> {
    trimmed_nonempty(split_char(script, ';'))
}

/// The statements of an SQL script, in order.
pub fn split_sql_statements(script: &str) -> (r: Vec<String>)
    ensures
        strings_view(r@) == sql_statements(script@),
{
    let pieces = split_on(script, ';');
    let ghost ps = strings_view(pieces@);
    let mut out: Vec<String> = Vec::new();
    let mut i: usize = 0;
    while i < pieces.len()
        invariant
            i <= pieces@.len(),
            ps == strings_view(pieces@),
            strings_view(out@) == trimmed_nonempty(ps.take(i as int)),
        decreases pieces.len() - i,
    {
        assert(ps.take(i + 1).drop_last() =~= ps.take(i as int));
        assert(ps.take(i + 1).last() == pieces@[i as int]@);
        let t = trim(pieces[i].as_str());
        if t.as_str().unicode_len() > 0 {
            let ghost before = strings_view(out@);
            let ghost tv = t@;
            out.push(t);
            assert(strings_view(out@) =~= before.push(tv));
        }
        i = i + 1;
    }
    assert(ps.take(ps.len() as int) =~= ps);
    out
}

proof fn lemma_trimmed_nonempty_concat(x: Seq<Seq<char>>, y: Seq<Seq<char>>)
    ensures
        trimmed_nonempty(x + y) == trimmed_nonempty(x) + trimmed_nonempty(y),
    decreases y.len(),
{
    if y.len() == 0 {
        assert(x + y =~= x);
        assert(trimmed_nonempty(x) + trimmed_nonempty(y) =~= trimmed_nonempty(x));
    } else {
        assert((x + y).drop_last() =~= x + y.drop_last());
        assert((x + y).last() == y.last());
        lemma_trimmed_nonempty_concat(x, y.drop_last());
        let t = trimmed(y.last());
        if t.len() > 0 {
            assert((trimmed_nonempty(x) + trimmed_nonempty(y.drop_last())).push(t) =~= trimmed_nonempty(x)
                + trimmed_nonempty(y.drop_last()).push(t));
        }
    }
}

/// A script without a semicolon is one statement: the whole script without
/// its surrounding white space, or no statement when nothing else is left.
pub proof fn lemma_script_without_semicolon(script: Seq<char>, r: Vec<String>)
    requires
        !script.contains(';'),
        strings_view(r@) == sql_statements(script),
    ensures
        strings_view(r@) == (if trimmed(script).len() > 0 {
            seq![trimmed(script)]
        } else {
            Seq::<Seq<char>>::empty()
        }),
{
    lemma_split_char_no_sep(script, ';');
    let ps = seq![script];
    assert(ps.drop_last() =~= Seq::<Seq<char>>::empty());
    assert(ps.last() == script);
    assert(trimmed_nonempty(ps.drop_last()) == Seq::<Seq<char>>::empty());
    assert(sql_statements(script) == trimmed_nonempty(ps));
    if trimmed(script).len() > 0 {
        assert(Seq::<Seq<char>>::empty().push(trimmed(script)) =~= seq![trimmed(script)]);
    }
}

/// The statements of two scripts joined by a semicolon are the statements
/// of the first followed by those of the second: every piece between
/// semicolons counts, the one after the last semicolon included.
pub proof fn lemma_script_join(a: Seq<char>, b: Seq<char>, ra: Vec<String>, rb: Vec<String>, r: Vec<String>)
    requires
        strings_view(ra@) == sql_statements(a),
        strings_view(rb@) == sql_statements(b),
        strings_view(r@) == sql_statements(a + seq![';'] + b),
    ensures
        strings_view(r@) == strings_view(ra@) + strings_view(rb@),
{
    lemma_split_char_join(a, b, ';');
    lemma_trimmed_nonempty_concat(split_char(a, ';'), split_char(b, ';'));
}

} // verus!
