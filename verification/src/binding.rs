//! Which value each placeholder of a statement receives. SQLite binds a
//! numbered placeholder `?n` to the n-th parameter, and a bare `?` to the
//! parameter after the largest one bound before it; in a statement whose
//! placeholders are all bare, that is the k-th parameter for the k-th `?`.
//! The predicates below name the placeholder by the text written right
//! before it (a column and its comparison, such as `title = `).
use vstd::prelude::*;

use crate::sql::{comma_list, binding_values, render_item, render_list, update_head, update_statement, where_word, and_sep, comma_sep, Binding, SqlValueView, StatementView};
use crate::text::{
    decimal, digits_value, is_digit, leading_digits, lemma_all_digits_leading,
    lemma_decimal_digits, lemma_leading_digits_concat, lemma_placeholder_bare,
    lemma_placeholders_concat, lemma_placeholders_none, placeholders,
};

verus! {

/// The number written right after the `?` at position `j` of `s` (0 when no
/// digit follows it).
pub open spec fn number_after(s: Seq<char>, j: int) -> nat {
    let rest = s.skip(j + 1);
    digits_value(rest.take(leading_digits(rest) as int))
}

/// Whether position `j` of `s` holds a `?` written right after `key`, and
/// `key` begins a word: it starts `s` or follows a space.
pub open spec fn key_before(s: Seq<char>, key: Seq<char>, j: int) -> bool {
    &&& key.len() <= j < s.len()
    &&& s.subrange(j - key.len(), j) == key
    &&& (j == key.len() || s[j - key.len() - 1] == ' ')
    &&& s[j] == '?'
}

/// In a statement with numbered placeholders: the placeholder written right
/// after `key` is bound to `v`.
pub open spec fn binds_numbered(st: StatementView, key: Seq<char>, v: SqlValueView) -> bool {
    exists|j: int|
        #[trigger] key_before(st.sql, key, j) && 1 <= number_after(st.sql, j) <= st.params.len()
            && st.params[number_after(st.sql, j) - 1] == v
}

/// Every placeholder of a scanned list is a bare `?`.
pub open spec fn all_bare(p: Seq<nat>) -> bool {
    forall|i: int| 0 <= i < p.len() ==> p[i] == 0
}

/// In a statement with bare placeholders: the `?` written right after `key`
/// is bare, every placeholder before it is bare, and the parameter at its
/// position among the placeholders is `v`.
pub open spec fn binds_bare(st: StatementView, key: Seq<char>, v: SqlValueView) -> bool {
    exists|j: int|
        #[trigger] key_before(st.sql, key, j) && !(j + 1 < st.sql.len() && is_digit(st.sql[j + 1]))
            && all_bare(placeholders(st.sql.take(j)))
            && placeholders(st.sql.take(j)).len() < st.params.len()
            && st.params[placeholders(st.sql.take(j)).len() as int] == v
}

/// `?n` written at position `j` of `s` right after `key`, the number ending
/// the text or followed by a character that is not a digit.
pub open spec fn numbered_at(s: Seq<char>, key: Seq<char>, j: int, n: nat) -> bool {
    &&& key_before(s, key, j)
    &&& j + 1 + decimal(n).len() <= s.len()
    &&& s.subrange(j + 1, j + 1 + decimal(n).len()) == decimal(n)
    &&& (j + 1 + decimal(n).len() == s.len() || !is_digit(s[j + 1 + decimal(n).len()]))
}

proof fn lemma_number_after(s: Seq<char>, key: Seq<char>, j: int, n: nat)
    requires
        numbered_at(s, key, j, n),
    ensures
        number_after(s, j) == n,
{
    let d = decimal(n);
    let rest = s.skip(j + 1);
    let tail = rest.skip(d.len() as int);
    assert(rest =~= d + tail);
    lemma_decimal_digits(n);
    lemma_all_digits_leading(d);
    if tail.len() > 0 {
        assert(tail[0] == s[j + 1 + d.len()]);
    }
    lemma_leading_digits_concat(d, tail);
    assert(rest.take(d.len() as int) =~= d);
}

/// Placing text around a numbered placeholder keeps it, provided a key at
/// the start is preceded by a space and a number at the end is not followed
/// by a digit.
proof fn lemma_numbered_lift(p: Seq<char>, s: Seq<char>, q: Seq<char>, key: Seq<char>, j: int, n: nat)
    requires
        numbered_at(s, key, j, n),
        j == key.len() ==> p.len() == 0 || p.last() == ' ',
        j + 1 + decimal(n).len() == s.len() ==> q.len() == 0 || !is_digit(q[0]),
    ensures
        numbered_at(p + s + q, key, p.len() + j, n),
{
    let t = p + s + q;
    let jj = p.len() + j;
    assert(t.subrange(jj - key.len(), jj) =~= s.subrange(j - key.len(), j));
    assert(t.subrange(jj + 1, jj + 1 + decimal(n).len()) =~= s.subrange(j + 1, j + 1 + decimal(n).len()));
    assert(t[jj] == s[j]);
    if j > key.len() {
        assert(t[jj - key.len() - 1] == s[j - key.len() - 1]);
    } else if p.len() > 0 {
        assert(t[jj - key.len() - 1] == p.last());
    }
    if j + 1 + decimal(n).len() < s.len() {
        assert(t[jj + 1 + decimal(n).len()] == s[j + 1 + decimal(n).len()]);
    } else if q.len() > 0 {
        assert(t[jj + 1 + decimal(n).len()] == q[0]);
    }
}

/// `key`, `?` and the decimal form of `n`, after some text that ends with a
/// space (or nothing): a numbered placeholder.
proof fn lemma_item_numbered(p: Seq<char>, key: Seq<char>, n: nat)
    requires
        p.len() > 0 ==> p.last() == ' ',
    ensures
        numbered_at(p + key + (seq!['?'] + decimal(n)), key, (p.len() + key.len()) as int, n),
{
    let l = p + key + (seq!['?'] + decimal(n));
    let j = (p.len() + key.len()) as int;
    assert(l.subrange(j - key.len(), j) =~= key);
    assert(l.subrange(j + 1, j + 1 + decimal(n).len()) =~= decimal(n));
    assert(l[j] == '?');
    if p.len() > 0 {
        assert(l[j - key.len() - 1] == p.last());
    }
}

/// The item for `items[k]` of a rendered list: `col = ?(start + k)`.
proof fn lemma_render_list_item(items: Seq<Binding>, sep: Seq<char>, start: nat, k: int) -> (j: int)
    requires
        0 <= k < items.len(),
        sep.len() > 0,
        sep.last() == ' ',
        !is_digit(sep[0]),
    ensures
        numbered_at(render_list(items, sep, start), items[k].0 + seq![' ', '=', ' '], j, (start + k) as nat),
        j == (items[k].0 + seq![' ', '=', ' ']).len() ==> k == 0,
    decreases items.len(),
{
    let m = items.len() - 1;
    let prev = items.drop_last();
    let p = render_list(prev, sep, start);
    let n = (start + m) as nat;
    let item = render_item(m > 0, items.last().0, sep, n);
    let l = render_list(items, sep, start);
    assert(l == p + item);
    let key = items[k].0 + seq![' ', '=', ' '];
    lemma_decimal_digits(n);
    if k == m {
        let s0 = if m > 0 { sep } else { seq![] };
        assert(item =~= s0 + key + (seq!['?'] + decimal(n)));
        assert(s0.len() > 0 ==> s0.last() == ' ');
        lemma_item_numbered(p + s0, key, n);
        assert(p + s0 + key + (seq!['?'] + decimal(n)) =~= l);
        (p.len() + s0.len() + key.len()) as int
    } else {
        assert(prev[k] == items[k]);
        let j0 = lemma_render_list_item(prev, sep, start, k);
        let d = decimal((start + k) as nat);
        assert(item[0] == sep[0]);
        lemma_numbered_lift(seq![], p, item, key, j0, (start + k) as nat);
        assert(seq![] + p + item =~= l);
        j0
    }
}

/// Law: in a rendered `UPDATE`, the placeholder written after `col = ` for
/// each assignment and each condition is bound to that binding's value.
pub proof fn lemma_update_binds(table: Seq<char>, sets: Seq<Binding>, wheres: Seq<Binding>)
    ensures
        forall|k: int|
            0 <= k < sets.len() ==> binds_numbered(
                update_statement(table, sets, wheres),
                #[trigger] sets[k].0 + seq![' ', '=', ' '],
                sets[k].1,
            ),
        forall|k: int|
            0 <= k < wheres.len() ==> binds_numbered(
                update_statement(table, sets, wheres),
                #[trigger] wheres[k].0 + seq![' ', '=', ' '],
                wheres[k].1,
            ),
{
    let st = update_statement(table, sets, wheres);
    let h = update_head(table);
    let a = render_list(sets, comma_sep(), 1);
    let w = where_word();
    let b = render_list(wheres, and_sep(), (1 + sets.len()) as nat);
    assert(st.sql == h + a + w + b);
    assert(binding_values(sets).len() == sets.len());
    assert(binding_values(wheres).len() == wheres.len());
    assert(h.last() == ' ');
    assert(w.last() == ' ');
    assert(w[0] == ' ');
    assert forall|k: int| 0 <= k < sets.len() implies binds_numbered(
        st,
        #[trigger] sets[k].0 + seq![' ', '=', ' '],
        sets[k].1,
    ) by {
        let key = sets[k].0 + seq![' ', '=', ' '];
        let j = lemma_render_list_item(sets, comma_sep(), 1, k);
        lemma_numbered_lift(h, a, w + b, key, j, (1 + k) as nat);
        assert(h + a + (w + b) =~= st.sql);
        lemma_number_after(st.sql, key, h.len() + j, (1 + k) as nat);
        assert(st.params[k] == binding_values(sets)[k]);
        assert(key_before(st.sql, key, h.len() + j));
    }
    assert forall|k: int| 0 <= k < wheres.len() implies binds_numbered(
        st,
        #[trigger] wheres[k].0 + seq![' ', '=', ' '],
        wheres[k].1,
    ) by {
        let key = wheres[k].0 + seq![' ', '=', ' '];
        let j = lemma_render_list_item(wheres, and_sep(), (1 + sets.len()) as nat, k);
        lemma_numbered_lift(h + a + w, b, seq![], key, j, (1 + sets.len() + k) as nat);
        assert(h + a + w + b + seq![] =~= st.sql);
        lemma_number_after(st.sql, key, (h + a + w).len() + j, (1 + sets.len() + k) as nat);
        assert(st.params[sets.len() + k] == binding_values(wheres)[k]);
        assert(key_before(st.sql, key, (h + a + w).len() + j));
    }
}

/// Law: in a rendered `UPDATE`, an assignment or condition listed among its
/// bindings is bound to its value at the placeholder after `col = `.
pub proof fn lemma_update_binds_member(
    table: Seq<char>,
    sets: Seq<Binding>,
    wheres: Seq<Binding>,
    col: Seq<char>,
    key: Seq<char>,
    v: SqlValueView,
)
    requires
        sets.contains((col, v)) || wheres.contains((col, v)),
        key == col + seq![' ', '=', ' '],
    ensures
        binds_numbered(update_statement(table, sets, wheres), key, v),
{
    lemma_update_binds(table, sets, wheres);
    if sets.contains((col, v)) {
        let k = choose|k: int| 0 <= k < sets.len() && sets[k] == (col, v);
        assert(sets[k].0 + seq![' ', '=', ' '] == key);
    } else {
        let k = choose|k: int| 0 <= k < wheres.len() && wheres[k] == (col, v);
        assert(wheres[k].0 + seq![' ', '=', ' '] == key);
    }
}

/// Texts joined by bare `?` placeholders: `p0 ? p1 ? ... ? pn`.
pub open spec fn bare_join(pieces: Seq<Seq<char>>) -> Seq<char>
    decreases pieces.len(),
{
    if pieces.len() == 0 {
        seq![]
    } else if pieces.len() == 1 {
        pieces[0]
    } else {
        pieces[0] + seq!['?'] + bare_join(pieces.drop_first())
    }
}

/// The pieces hold no `?`, and none after the first starts with a digit (so
/// every `?` between them stays bare).
pub open spec fn bare_pieces(pieces: Seq<Seq<char>>) -> bool {
    &&& forall|i: int, c: int| 0 <= i < pieces.len() && 0 <= c < pieces[i].len() ==> #[trigger] pieces[i][c] != '?'
    &&& forall|i: int| 1 <= i < pieces.len() && pieces[i].len() > 0 ==> !is_digit(#[trigger] pieces[i][0])
}

proof fn lemma_bare_join_first(pieces: Seq<Seq<char>>)
    requires
        bare_pieces(pieces),
        pieces.len() > 0,
    ensures
        bare_join(pieces).len() == 0 || !is_digit(bare_join(pieces)[0]) || (pieces[0].len() > 0 && bare_join(pieces)[0] == pieces[0][0]),
{
    if pieces.len() > 1 {
        if pieces[0].len() > 0 {
            assert(bare_join(pieces)[0] == pieces[0][0]);
        } else {
            assert(bare_join(pieces)[0] == '?');
        }
    }
}

proof fn lemma_bare_join_pos(pieces: Seq<Seq<char>>, k: int) -> (j: int)
    requires
        bare_pieces(pieces),
        0 <= k < pieces.len() - 1,
    ensures
        pieces[k].len() <= j < bare_join(pieces).len(),
        bare_join(pieces).subrange(j - pieces[k].len(), j) == pieces[k],
        bare_join(pieces)[j] == '?',
        j + 1 < bare_join(pieces).len() ==> !is_digit(bare_join(pieces)[j + 1]),
        placeholders(bare_join(pieces).take(j)) == Seq::new(k as nat, |i: int| 0nat),
        j == pieces[k].len() ==> k == 0,
        k == 0 ==> j == pieces[0].len(),
        k > 0 ==> bare_join(pieces)[j - pieces[k].len() - 1] == '?',
    decreases k,
{
    let p0 = pieces[0];
    let rest = pieces.drop_first();
    let sr = bare_join(rest);
    let sql = bare_join(pieces);
    assert(sql == p0 + seq!['?'] + sr);
    assert(bare_pieces(rest)) by {
        assert forall|i: int, c: int| 0 <= i < rest.len() && 0 <= c < rest[i].len() implies #[trigger] rest[i][c] != '?' by {
            assert(rest[i] == pieces[i + 1]);
        }
        assert forall|i: int| 1 <= i < rest.len() && rest[i].len() > 0 implies !is_digit(#[trigger] rest[i][0]) by {
            assert(rest[i] == pieces[i + 1]);
        }
    }
    assert forall|c: int| 0 <= c < p0.len() implies #[trigger] p0[c] != '?' by {
        assert(pieces[0][c] != '?');
    }
    if k == 0 {
        let j = p0.len() as int;
        assert(sql.subrange(j - p0.len(), j) =~= p0);
        assert(sql.take(j) =~= p0);
        lemma_placeholders_none(p0);
        assert(Seq::new(0nat, |i: int| 0nat) =~= Seq::<nat>::empty());
        if j + 1 < sql.len() {
            assert(sql[j + 1] == sr[0]);
            if rest[0].len() > 0 {
                assert(pieces[1] == rest[0]);
                assert(sr[0] == rest[0][0]) by {
                    if rest.len() > 1 {
                        assert(sr == rest[0] + seq!['?'] + bare_join(rest.drop_first()));
                    }
                }
            } else {
                assert(rest.len() > 1) by {
                    if rest.len() == 1 {
                        assert(sr == rest[0]);
                    }
                }
                assert(sr == rest[0] + seq!['?'] + bare_join(rest.drop_first()));
                assert(sr[0] == '?');
            }
        }
        j
    } else {
        assert(rest[k - 1] == pieces[k]);
        let j0 = lemma_bare_join_pos(rest, k - 1);
        let off = (p0.len() + 1) as int;
        let j = off + j0;
        assert(sql.subrange(j - pieces[k].len(), j) =~= sr.subrange(j0 - pieces[k].len(), j0));
        assert(sql[j] == sr[j0]);
        if j + 1 < sql.len() {
            assert(sql[j + 1] == sr[j0 + 1]);
        }
        if k > 1 {
            assert(sql[j - pieces[k].len() - 1] == sr[j0 - pieces[k].len() - 1]);
        } else if j0 == pieces[k].len() {
            assert(sql[j - pieces[k].len() - 1] == '?');
        } else {
            assert(sql[j - pieces[k].len() - 1] == sr[j0 - pieces[k].len() - 1]);
        }
        let pre = p0 + seq!['?'];
        assert(sql.take(j) =~= pre + sr.take(j0));
        lemma_placeholder_bare(p0);
        if j0 > 0 {
            assert(sr.take(j0)[0] == sr[0]);
            if rest[0].len() > 0 {
                assert(sr[0] == rest[0][0]) by {
                    assert(sr == rest[0] + seq!['?'] + bare_join(rest.drop_first()));
                }
                assert(rest[0] == pieces[1]);
            } else {
                assert(sr == rest[0] + seq!['?'] + bare_join(rest.drop_first()));
                assert(sr[0] == '?');
            }
        }
        lemma_placeholders_concat(pre, sr.take(j0));
        assert(Seq::new(k as nat, |i: int| 0nat) =~= seq![0nat] + Seq::new((k - 1) as nat, |i: int| 0nat));
        j
    }
}

/// Law: in texts joined by bare `?`, the k-th `?` is bound to the k-th
/// parameter, and is named by the text that ends the piece before it.
pub proof fn lemma_bare_join_binds(
    pieces: Seq<Seq<char>>,
    params: Seq<SqlValueView>,
    k: int,
    key: Seq<char>,
)
    requires
        bare_pieces(pieces),
        0 <= k < pieces.len() - 1,
        k < params.len(),
        key.len() <= pieces[k].len(),
        pieces[k].subrange(pieces[k].len() - key.len(), pieces[k].len() as int) =~= key,
        pieces[k].len() == key.len() ==> k == 0,
        pieces[k].len() > key.len() ==> pieces[k][pieces[k].len() - key.len() - 1] == ' ',
    ensures
        binds_bare(StatementView { sql: bare_join(pieces), params }, key, params[k]),
{
    let sql = bare_join(pieces);
    let j = lemma_bare_join_pos(pieces, k);
    let pk = pieces[k];
    assert(sql.subrange(j - key.len(), j) =~= pk.subrange(pk.len() - key.len(), pk.len() as int)) by {
        assert forall|c: int| 0 <= c < key.len() implies #[trigger] sql.subrange(j - key.len(), j)[c] == pk.subrange(pk.len() - key.len(), pk.len() as int)[c] by {
            assert(sql.subrange(j - pk.len(), j)[pk.len() - key.len() + c] == pk[pk.len() - key.len() + c]);
        }
    }
    if j > key.len() {
        if pk.len() > key.len() {
            assert(sql.subrange(j - pk.len(), j)[pk.len() - key.len() - 1] == pk[pk.len() - key.len() - 1]);
        } else {
            assert(k > 0);
        }
    }
    let st = StatementView { sql, params };
    assert(all_bare(placeholders(sql.take(j))));
    assert(key_before(st.sql, key, j));
}

/// Texts joined by numbered placeholders in order: `p0 ?s p1 ?(s+1) ... pn`.
pub open spec fn numbered_join(pieces: Seq<Seq<char>>, start: nat) -> Seq<char>
    decreases pieces.len(),
{
    if pieces.len() == 0 {
        seq![]
    } else if pieces.len() == 1 {
        pieces[0]
    } else {
        pieces[0] + (seq!['?'] + decimal(start)) + numbered_join(pieces.drop_first(), start + 1)
    }
}

proof fn lemma_numbered_join_pos(pieces: Seq<Seq<char>>, start: nat, k: int) -> (j: int)
    requires
        bare_pieces(pieces),
        0 <= k < pieces.len() - 1,
    ensures
        pieces[k].len() <= j < numbered_join(pieces, start).len(),
        numbered_join(pieces, start).subrange(j - pieces[k].len(), j) == pieces[k],
        numbered_join(pieces, start)[j] == '?',
        j + 1 + decimal((start + k) as nat).len() <= numbered_join(pieces, start).len(),
        numbered_join(pieces, start).subrange(j + 1, j + 1 + decimal((start + k) as nat).len()) == decimal((start + k) as nat),
        j + 1 + decimal((start + k) as nat).len() == numbered_join(pieces, start).len()
            || !is_digit(numbered_join(pieces, start)[j + 1 + decimal((start + k) as nat).len()]),
        k == 0 ==> j == pieces[0].len(),
    decreases k,
{
    let p0 = pieces[0];
    let rest = pieces.drop_first();
    let d = decimal(start);
    let sr = numbered_join(rest, start + 1);
    let sql = numbered_join(pieces, start);
    assert(sql == p0 + (seq!['?'] + d) + sr);
    lemma_decimal_digits(start);
    assert(bare_pieces(rest)) by {
        assert forall|i: int, c: int| 0 <= i < rest.len() && 0 <= c < rest[i].len() implies #[trigger] rest[i][c] != '?' by {
            assert(rest[i] == pieces[i + 1]);
        }
        assert forall|i: int| 1 <= i < rest.len() && rest[i].len() > 0 implies !is_digit(#[trigger] rest[i][0]) by {
            assert(rest[i] == pieces[i + 1]);
        }
    }
    if k == 0 {
        let j = p0.len() as int;
        assert(sql.subrange(j - p0.len(), j) =~= p0);
        assert(sql.subrange(j + 1, j + 1 + d.len()) =~= d);
        if j + 1 + d.len() < sql.len() {
            assert(sql[j + 1 + d.len()] == sr[0]);
            if rest[0].len() > 0 {
                assert(rest[0] == pieces[1]);
                assert(sr[0] == rest[0][0]) by {
                    if rest.len() > 1 {
                        assert(sr == rest[0] + (seq!['?'] + decimal(start + 1)) + numbered_join(rest.drop_first(), start + 2));
                    }
                }
            } else {
                assert(rest.len() > 1) by {
                    if rest.len() == 1 {
                        assert(sr == rest[0]);
                    }
                }
                assert(sr == rest[0] + (seq!['?'] + decimal(start + 1)) + numbered_join(rest.drop_first(), start + 2));
                assert(sr[0] == '?');
            }
        }
        j
    } else {
        assert(rest[k - 1] == pieces[k]);
        let j0 = lemma_numbered_join_pos(rest, start + 1, k - 1);
        let off = (p0.len() + 1 + d.len()) as int;
        let j = off + j0;
        let dk = decimal((start + k) as nat);
        assert((start + 1 + (k - 1)) as nat == (start + k) as nat);
        assert(sql.subrange(j - pieces[k].len(), j) =~= sr.subrange(j0 - pieces[k].len(), j0));
        assert(sql.subrange(j + 1, j + 1 + dk.len()) =~= sr.subrange(j0 + 1, j0 + 1 + dk.len()));
        assert(sql[j] == sr[j0]);
        if j + 1 + dk.len() < sql.len() {
            assert(sql[j + 1 + dk.len()] == sr[j0 + 1 + dk.len()]);
        }
        j
    }
}

/// Law: in texts joined by `?1`, `?2`, ... in order, the k-th placeholder is
/// bound to the k-th parameter, and is named by the text that ends the piece
/// before it.
pub proof fn lemma_numbered_join_binds(
    pieces: Seq<Seq<char>>,
    params: Seq<SqlValueView>,
    k: int,
    key: Seq<char>,
)
    requires
        bare_pieces(pieces),
        0 <= k < pieces.len() - 1,
        k < params.len(),
        key.len() < pieces[k].len(),
        pieces[k].subrange(pieces[k].len() - key.len(), pieces[k].len() as int) =~= key,
        pieces[k][pieces[k].len() - key.len() - 1] == ' ',
    ensures
        binds_numbered(StatementView { sql: numbered_join(pieces, 1), params }, key, params[k]),
{
    let sql = numbered_join(pieces, 1);
    let j = lemma_numbered_join_pos(pieces, 1, k);
    let pk = pieces[k];
    assert(sql.subrange(j - key.len(), j) =~= pk.subrange(pk.len() - key.len(), pk.len() as int)) by {
        assert forall|c: int| 0 <= c < key.len() implies #[trigger] sql.subrange(j - key.len(), j)[c] == pk.subrange(pk.len() - key.len(), pk.len() as int)[c] by {
            assert(sql.subrange(j - pk.len(), j)[pk.len() - key.len() + c] == pk[pk.len() - key.len() + c]);
        }
    }
    assert(sql.subrange(j - pk.len(), j)[pk.len() - key.len() - 1] == pk[pk.len() - key.len() - 1]);
    let st = StatementView { sql, params };
    assert(key_before(st.sql, key, j));
    assert(numbered_at(sql, key, j, (1 + k) as nat));
    lemma_number_after(sql, key, j, (1 + k) as nat);
}

/// Items written in a list of an `INSERT` without commas or brackets, so the
/// list splits into them in one way only.
pub open spec fn plain_items(items: Seq<Seq<char>>) -> bool {
    forall|i: int, c: int|
        0 <= i < items.len() && 0 <= c < items[i].len() ==> #[trigger] items[i][c] != ',' && items[i][c] != '('
            && items[i][c] != ')'
}

/// The text of `<verb><table> (<cols>) VALUES (<vals>)<rest>`.
pub open spec fn insert_sql(
    verb: Seq<char>,
    table: Seq<char>,
    cols: Seq<Seq<char>>,
    vals: Seq<Seq<char>>,
    rest: Seq<char>,
) -> Seq<char> {
    verb + table + " ("@ + comma_list(cols) + ") VALUES ("@ + comma_list(vals) + ")"@ + rest
}

/// The `i`-th value of an `INSERT` is `v`: `NULL` for the null value, `?n`
/// for the n-th parameter, or a bare `?` (all earlier ones bare too) for the
/// parameter at its position.
pub open spec fn value_binds(vals: Seq<Seq<char>>, i: int, params: Seq<SqlValueView>, v: SqlValueView) -> bool {
    ||| vals[i] == "NULL"@ && v == SqlValueView::Null
    ||| exists|n: nat|
        1 <= n <= params.len() && vals[i] == seq!['?'] + #[trigger] decimal(n) && params[n - 1] == v
    ||| vals[i] == seq!['?'] && (forall|m: int| 0 <= m < i ==> #[trigger] vals[m] == seq!['?']) && i
        < params.len() && params[i] == v
}

/// The statement inserts `v` into the column `col`: it is an `INSERT` (or
/// `INSERT OR REPLACE`) whose column list names `col` at the position where
/// its value list holds `v`.
pub open spec fn inserts(st: StatementView, col: Seq<char>, v: SqlValueView) -> bool {
    exists|verb: Seq<char>, table: Seq<char>, cols: Seq<Seq<char>>, vals: Seq<Seq<char>>, rest: Seq<char>, i: int|
        #![trigger insert_sql(verb, table, cols, vals, rest), cols[i]]
        (verb == "INSERT INTO "@ || verb == "INSERT OR REPLACE INTO "@)
            && (forall|c: int| 0 <= c < table.len() ==> #[trigger] table[c] != '(' && table[c] != ' ')
            && st.sql == insert_sql(verb, table, cols, vals, rest) && plain_items(cols) && plain_items(vals)
            && cols.len() == vals.len() && 0 <= i < cols.len() && cols[i] == col && value_binds(
            vals,
            i,
            st.params,
            v,
        )
}

/// Law: the `i`-th column of an `INSERT` receives the value written at the
/// same position of its value list.
pub proof fn lemma_inserts_at(
    st: StatementView,
    verb: Seq<char>,
    table: Seq<char>,
    cols: Seq<Seq<char>>,
    vals: Seq<Seq<char>>,
    rest: Seq<char>,
    i: int,
    v: SqlValueView,
)
    requires
        verb == "INSERT INTO "@ || verb == "INSERT OR REPLACE INTO "@,
        forall|c: int| 0 <= c < table.len() ==> #[trigger] table[c] != '(' && table[c] != ' ',
        st.sql == insert_sql(verb, table, cols, vals, rest),
        plain_items(cols),
        plain_items(vals),
        cols.len() == vals.len(),
        0 <= i < cols.len(),
        value_binds(vals, i, st.params, v),
    ensures
        inserts(st, cols[i], v),
{
}

/// Law: `key` followed by `?n`, after text ending with a space and before
/// text that does not start with a digit, names the placeholder bound to the
/// n-th parameter.
pub proof fn lemma_numbered_binds_at(
    sql: Seq<char>,
    params: Seq<SqlValueView>,
    pre: Seq<char>,
    key: Seq<char>,
    n: nat,
    post: Seq<char>,
)
    requires
        sql == pre + key + (seq!['?'] + decimal(n)) + post,
        pre.len() > 0 ==> pre.last() == ' ',
        post.len() > 0 ==> !is_digit(post[0]),
        1 <= n <= params.len(),
    ensures
        binds_numbered(StatementView { sql, params }, key, params[n - 1]),
{
    lemma_item_numbered(pre, key, n);
    let s = pre + key + (seq!['?'] + decimal(n));
    let j = (pre.len() + key.len()) as int;
    lemma_decimal_digits(n);
    assert(j + 1 + decimal(n).len() == s.len());
    lemma_numbered_lift(seq![], s, post, key, j, n);
    assert(seq![] + s + post =~= sql);
    lemma_number_after(sql, key, j, n);
    let st = StatementView { sql, params };
    assert(key_before(st.sql, key, j));
}

/// The statement is `<verb><table> (<cols>) VALUES (<vals>)<rest>`, with a
/// plain table name and plain list items, as many values as columns.
pub open spec fn insert_layout(
    st: StatementView,
    verb: Seq<char>,
    table: Seq<char>,
    cols: Seq<Seq<char>>,
    vals: Seq<Seq<char>>,
    rest: Seq<char>,
) -> bool {
    &&& verb == "INSERT INTO "@ || verb == "INSERT OR REPLACE INTO "@
    &&& forall|c: int| 0 <= c < table.len() ==> #[trigger] table[c] != '(' && table[c] != ' '
    &&& st.sql == insert_sql(verb, table, cols, vals, rest)
    &&& plain_items(cols)
    &&& plain_items(vals)
    &&& cols.len() == vals.len()
}

/// Law: the column at the position of `?n` in the value list receives the
/// n-th parameter.
pub proof fn lemma_inserts_numbered(
    st: StatementView,
    verb: Seq<char>,
    table: Seq<char>,
    cols: Seq<Seq<char>>,
    vals: Seq<Seq<char>>,
    rest: Seq<char>,
    i: int,
    n: nat,
)
    requires
        insert_layout(st, verb, table, cols, vals, rest),
        0 <= i < cols.len(),
        vals[i] == seq!['?'] + decimal(n),
        1 <= n <= st.params.len(),
    ensures
        inserts(st, cols[i], st.params[n - 1]),
{
    assert(value_binds(vals, i, st.params, st.params[n - 1]));
    lemma_inserts_at(st, verb, table, cols, vals, rest, i, st.params[n - 1]);
}

/// Law: the column at the position of `NULL` in the value list receives the
/// null value.
pub proof fn lemma_inserts_null(
    st: StatementView,
    verb: Seq<char>,
    table: Seq<char>,
    cols: Seq<Seq<char>>,
    vals: Seq<Seq<char>>,
    rest: Seq<char>,
    i: int,
)
    requires
        insert_layout(st, verb, table, cols, vals, rest),
        0 <= i < cols.len(),
        vals[i] == "NULL"@,
    ensures
        inserts(st, cols[i], SqlValueView::Null),
{
    lemma_inserts_at(st, verb, table, cols, vals, rest, i, SqlValueView::Null);
}

/// Law: when every value is a bare `?`, the i-th column receives the i-th
/// parameter.
pub proof fn lemma_inserts_bare(
    st: StatementView,
    verb: Seq<char>,
    table: Seq<char>,
    cols: Seq<Seq<char>>,
    vals: Seq<Seq<char>>,
    rest: Seq<char>,
    i: int,
)
    requires
        insert_layout(st, verb, table, cols, vals, rest),
        0 <= i < cols.len(),
        forall|m: int| 0 <= m < vals.len() ==> #[trigger] vals[m] == seq!['?'],
        i < st.params.len(),
    ensures
        inserts(st, cols[i], st.params[i]),
{
    assert(vals[i] == seq!['?']);
    assert(value_binds(vals, i, st.params, st.params[i]));
    lemma_inserts_at(st, verb, table, cols, vals, rest, i, st.params[i]);
}

} // verus!
