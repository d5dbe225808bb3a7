//! SQL statements as text plus bound parameters, and the renderer of
//! `UPDATE ... SET ... WHERE ...` statements with numbered placeholders.
use vstd::prelude::*;
use vstd::string::*;

use crate::model::{Real, Timestamp};
use crate::text::{decimal, is_digit, is_name, lemma_placeholder_single, lemma_placeholders_concat, lemma_placeholders_none, owned, placeholders, push_decimal};

verus! {

/// A value bound to a statement parameter.
#[derive(Debug, PartialEq)]
pub enum SqlValue {
    Null,
    Integer(i64),
    Bool(bool),
    Size(usize),
    Real(Real),
    Text(String),
    DateTime(Timestamp),
    Blob(Vec<u8>),
}

/// The mathematical value of a bound parameter.
pub enum SqlValueView {
    Null,
    Integer(i64),
    Bool(bool),
    Size(usize),
    Real(Real),
    Text(Seq<char>),
    DateTime(Timestamp),
    Blob(Seq<u8>),
}

impl View for SqlValue {
    type V = SqlValueView;

    open spec fn view(&self) -> SqlValueView {
        match self {
            SqlValue::Null => SqlValueView::Null,
            SqlValue::Integer(i) => SqlValueView::Integer(*i),
            SqlValue::Bool(b) => SqlValueView::Bool(*b),
            SqlValue::Size(n) => SqlValueView::Size(*n),
            SqlValue::Real(r) => SqlValueView::Real(*r),
            SqlValue::Text(s) => SqlValueView::Text(s@),
            SqlValue::DateTime(t) => SqlValueView::DateTime(*t),
            SqlValue::Blob(b) => SqlValueView::Blob(b@),
        }
    }
}

/// The view of an optional text parameter: `NULL` when absent.
pub open spec fn opt_text(s: Option<String>) -> SqlValueView {
    match s {
        Some(t) => SqlValueView::Text(t@),
        None => SqlValueView::Null,
    }
}

/// The view of an optional timestamp parameter: `NULL` when absent.
pub open spec fn opt_time(t: Option<Timestamp>) -> SqlValueView {
    match t {
        Some(v) => SqlValueView::DateTime(v),
        None => SqlValueView::Null,
    }
}

/// The view of an optional float parameter: `NULL` when absent.
pub open spec fn opt_real(r: Option<Real>) -> SqlValueView {
    match r {
        Some(v) => SqlValueView::Real(v),
        None => SqlValueView::Null,
    }
}

/// Builds the parameter for an optional text.
pub fn text_or_null(s: Option<String>) -> (v: SqlValue)
    ensures
        v@ == opt_text(s),
{
    match s {
        Some(t) => SqlValue::Text(t),
        None => SqlValue::Null,
    }
}

/// Builds the parameter for an optional borrowed text.
pub fn str_or_null(s: Option<&str>) -> (v: SqlValue)
    ensures
        v@ == (match s {
            Some(t) => SqlValueView::Text(t@),
            None => SqlValueView::Null,
        }),
{
    match s {
        Some(t) => SqlValue::Text(owned(t)),
        None => SqlValue::Null,
    }
}

/// Builds the parameter for an optional timestamp.
pub fn time_or_null(t: Option<Timestamp>) -> (v: SqlValue)
    ensures
        v@ == opt_time(t),
{
    match t {
        Some(x) => SqlValue::DateTime(x),
        None => SqlValue::Null,
    }
}

/// Builds the parameter for an optional float.
pub fn real_or_null(r: Option<Real>) -> (v: SqlValue)
    ensures
        v@ == opt_real(r),
{
    match r {
        Some(x) => SqlValue::Real(x),
        None => SqlValue::Null,
    }
}

/// Builds a text parameter from a borrowed string.
pub fn text(s: &str) -> (v: SqlValue)
    ensures
        v@ == SqlValueView::Text(s@),
{
    SqlValue::Text(owned(s))
}

/// A statement: its SQL text and the values bound to its parameters, in order.
#[derive(Debug, PartialEq)]
pub struct Statement {
    pub sql: String,
    pub params: Vec<SqlValue>,
}

pub struct StatementView {
    pub sql: Seq<char>,
    pub params: Seq<SqlValueView>,
}

/// The views of a sequence of parameters.
pub open spec fn values_view(params: Seq<SqlValue>) -> Seq<SqlValueView> {
    params.map_values(|p: SqlValue| p@)
}

impl View for Statement {
    type V = StatementView;

    open spec fn view(&self) -> StatementView {
        StatementView { sql: self.sql@, params: values_view(self.params@) }
    }
}

/// A column of an `UPDATE` and the value it is compared with or set to.
pub type Binding = (Seq<char>, SqlValueView);

/// `c1 = ?s, c2 = ?(s+1), ...` with `sep` between the items.
pub open spec fn render_list(items: Seq<Binding>, sep: Seq<char>, start: nat) -> Seq<char>
    decreases items.len(),
{
    if items.len() == 0 {
        seq![]
    } else {
        render_list(items.drop_last(), sep, start) + render_item(
            items.len() > 1,
            items.last().0,
            sep,
            (start + items.len() - 1) as nat,
        )
    }
}

/// One item of a list: an optional separator, the column, ` = ?` and the number.
pub open spec fn render_item(with_sep: bool, col: Seq<char>, sep: Seq<char>, n: nat) -> Seq<char> {
    (if with_sep { sep } else { seq![] }) + col + seq![' ', '=', ' '] + (seq!['?'] + decimal(n))
}

pub open spec fn comma_sep() -> Seq<char> {
    seq![',', ' ']
}

pub open spec fn and_sep() -> Seq<char> {
    seq![' ', 'A', 'N', 'D', ' ']
}

pub open spec fn update_head(table: Seq<char>) -> Seq<char> {
    seq!['U', 'P', 'D', 'A', 'T', 'E', ' '] + table + seq![' ', 'S', 'E', 'T', ' ']
}

pub open spec fn where_word() -> Seq<char> {
    seq![' ', 'W', 'H', 'E', 'R', 'E', ' ']
}

/// The text of `UPDATE table SET <sets> WHERE <wheres>`, numbering the
/// placeholders of the assignments first and of the conditions after them.
pub open spec fn update_sql(table: Seq<char>, sets: Seq<Binding>, wheres: Seq<Binding>) -> Seq<
    char,
> {
    update_head(table) + render_list(sets, comma_sep(), 1) + where_word() + render_list(
        wheres,
        and_sep(),
        (1 + sets.len()) as nat,
    )
}

/// The values of a list of bindings, in order.
pub open spec fn binding_values(items: Seq<Binding>) -> Seq<SqlValueView> {
    items.map_values(|b: Binding| b.1)
}

/// The full `UPDATE` statement for the given bindings.
pub open spec fn update_statement(
    table: Seq<char>,
    sets: Seq<Binding>,
    wheres: Seq<Binding>,
) -> StatementView {
    StatementView {
        sql: update_sql(table, sets, wheres),
        params: binding_values(sets) + binding_values(wheres),
    }
}

/// Whether every column of a list is a valid name.
pub open spec fn all_names(items: Seq<Binding>) -> bool {
    forall|i: int| 0 <= i < items.len() ==> is_name(#[trigger] items[i].0)
}

/// Column names joined by `, `, as they are listed in an `INSERT`.
pub open spec fn comma_list(cols: Seq<Seq<char>>) -> Seq<char>
    decreases cols.len(),
{
    if cols.len() == 0 {
        seq![]
    } else if cols.len() == 1 {
        cols[0]
    } else {
        comma_list(cols.drop_last()) + ", "@ + cols.last()
    }
}

/// Whether a `CREATE TABLE` text declares the column `col`: the name stands
/// right after the opening `(` or after `, `, and is followed by a space (its
/// type), as column definitions are written.
pub open spec fn declares_column(create: Seq<char>, col: Seq<char>) -> bool {
    exists|i: int|
        #![trigger create.subrange(i, i + col.len())]
        2 <= i && i + col.len() < create.len()
        && (create[i - 1] == '(' || (create[i - 2] == ',' && create[i - 1] == ' '))
        && create.subrange(i, i + col.len()) == col
        && create[i + col.len()] == ' '
}

/// A column name found at position `i` of a `CREATE TABLE` text, preceded
/// by `(` or `, ` and followed by a space, is declared there.
pub proof fn lemma_declares_column_at(create: Seq<char>, col: Seq<char>, i: int)
    requires
        2 <= i,
        i + col.len() < create.len(),
        create[i - 1] == '(' || (create[i - 2] == ',' && create[i - 1] == ' '),
        create.subrange(i, i + col.len()) =~= col,
        create[i + col.len()] == ' ',
    ensures
        declares_column(create, col),
{
    assert(create.subrange(i, i + col.len()) == col);
}

/// The numbers `start, start + 1, ..., start + n - 1`.
pub open spec fn numbered(n: nat, start: nat) -> Seq<nat> {
    Seq::new(n, |i: int| (start + i) as nat)
}

proof fn lemma_render_item(with_sep: bool, col: Seq<char>, sep: Seq<char>, n: nat)
    requires
        is_name(col),
        sep.len() > 0,
        !is_digit(sep[0]),
        forall|i: int| 0 <= i < sep.len() ==> #[trigger] sep[i] != '?',
    ensures
        placeholders(render_item(with_sep, col, sep, n)) == seq![n],
        !is_digit(render_item(with_sep, col, sep, n)[0]),
        render_item(with_sep, col, sep, n).len() > 0,
{
    let pre = (if with_sep { sep } else { seq![] }) + col + seq![' ', '=', ' '];
    let q = seq!['?'] + decimal(n);
    assert(render_item(with_sep, col, sep, n) == pre + q);
    assert forall|i: int| 0 <= i < pre.len() implies #[trigger] pre[i] != '?' by {
        let s0 = if with_sep { sep } else { seq![] };
        if i < s0.len() {
            assert(pre[i] == s0[i]);
        } else if i < s0.len() + col.len() {
            assert(pre[i] == col[i - s0.len()]);
        } else {
            assert(pre[i] == seq![' ', '=', ' '][i - s0.len() - col.len()]);
        }
    }
    lemma_placeholders_none(pre);
    assert(q[0] == '?');
    lemma_placeholders_concat(pre, q);
    lemma_placeholder_single(n);
    assert(placeholders(pre + q) =~= seq![n]);
    if with_sep {
        assert((pre + q)[0] == sep[0]);
    } else {
        assert((pre + q)[0] == col[0]);
    }
}

proof fn lemma_render_list(items: Seq<Binding>, sep: Seq<char>, start: nat)
    requires
        all_names(items),
        sep.len() > 0,
        !is_digit(sep[0]),
        forall|i: int| 0 <= i < sep.len() ==> #[trigger] sep[i] != '?',
    ensures
        placeholders(render_list(items, sep, start)) == numbered(items.len(), start),
        items.len() > 0 ==> !is_digit(render_list(items, sep, start)[0]),
    decreases items.len(),
{
    if items.len() == 0 {
        assert(numbered(0, start) =~= Seq::<nat>::empty());
    } else {
        let prev = items.drop_last();
        assert forall|i: int| 0 <= i < prev.len() implies is_name(#[trigger] prev[i].0) by {
            assert(prev[i] == items[i]);
        }
        lemma_render_list(prev, sep, start);
        let n = (start + items.len() - 1) as nat;
        assert(is_name(items[items.len() - 1].0));
        lemma_render_item(items.len() > 1, items.last().0, sep, n);
        let block = render_item(items.len() > 1, items.last().0, sep, n);
        lemma_placeholders_concat(render_list(prev, sep, start), block);
        assert(numbered(items.len(), start) =~= numbered(prev.len(), start) + seq![n]);
        if prev.len() > 0 {
            assert((render_list(prev, sep, start) + block)[0] == render_list(prev, sep, start)[0]);
        } else {
            assert(render_list(prev, sep, start) =~= Seq::<char>::empty());
            assert((render_list(prev, sep, start) + block) =~= block);
        }
    }
}

/// Law: in every rendered `UPDATE` statement whose table and column names are
/// valid names, the placeholders read in order are exactly `?1, ?2, ..., ?n`,
/// where `n` is the number of bound values, so the k-th placeholder is bound to
/// the k-th value and none is left unbound.
pub proof fn lemma_update_placeholders(table: Seq<char>, sets: Seq<Binding>, wheres: Seq<Binding>)
    requires
        is_name(table),
        all_names(sets),
        all_names(wheres),
    ensures
        placeholders(update_statement(table, sets, wheres).sql) == numbered(
            update_statement(table, sets, wheres).params.len(),
            1,
        ),
{
    let h = update_head(table);
    let a = render_list(sets, comma_sep(), 1);
    let w = where_word();
    let b = render_list(wheres, and_sep(), (1 + sets.len()) as nat);
    assert(comma_sep()[0] == ',');
    assert(comma_sep()[1] == ' ');
    assert(and_sep()[0] == ' ');
    assert(forall|i: int| 0 <= i < comma_sep().len() ==> #[trigger] comma_sep()[i] != '?');
    assert(forall|i: int| 0 <= i < and_sep().len() ==> #[trigger] and_sep()[i] != '?');
    lemma_render_list(sets, comma_sep(), 1);
    lemma_render_list(wheres, and_sep(), (1 + sets.len()) as nat);
    assert forall|i: int| 0 <= i < h.len() implies #[trigger] h[i] != '?' by {
        if i < 7 {
            assert(h[i] == seq!['U', 'P', 'D', 'A', 'T', 'E', ' '][i]);
        } else if i < 7 + table.len() {
            assert(h[i] == table[i - 7]);
        } else {
            assert(h[i] == seq![' ', 'S', 'E', 'T', ' '][i - 7 - table.len()]);
        }
    }
    lemma_placeholders_none(h);
    assert(forall|i: int| 0 <= i < w.len() ==> #[trigger] w[i] != '?');
    lemma_placeholders_none(w);
    // h + a
    lemma_placeholders_concat(h, a);
    // (h + a) + w
    assert(w[0] == ' ');
    lemma_placeholders_concat(h + a, w);
    // ((h + a) + w) + b
    lemma_placeholders_concat(h + a + w, b);
    let st = update_statement(table, sets, wheres);
    assert(st.sql == h + a + w + b);
    assert(binding_values(sets).len() == sets.len());
    assert(binding_values(wheres).len() == wheres.len());
    assert(numbered(sets.len() + wheres.len(), 1) =~= numbered(sets.len(), 1) + numbered(
        wheres.len(),
        (1 + sets.len()) as nat,
    ));
}

/// Incremental construction of an `UPDATE` statement.
pub struct UpdateBuilder {
    sql: String,
    params: Vec<SqlValue>,
    in_where: bool,
    table: Ghost<Seq<char>>,
    sets: Ghost<Seq<Binding>>,
    wheres: Ghost<Seq<Binding>>,
}

impl UpdateBuilder {
    pub closed spec fn table(&self) -> Seq<char> {
        self.table@
    }

    pub closed spec fn sets(&self) -> Seq<Binding> {
        self.sets@
    }

    pub closed spec fn wheres(&self) -> Seq<Binding> {
        self.wheres@
    }

    pub closed spec fn in_where(&self) -> bool {
        self.in_where
    }

    pub closed spec fn wf(&self) -> bool {
        &&& values_view(self.params@) == binding_values(self.sets@) + binding_values(self.wheres@)
        &&& !self.in_where ==> self.wheres@.len() == 0
        &&& self.in_where ==> self.wheres@.len() > 0
        &&& self.sql@ == (if self.in_where {
            update_sql(self.table@, self.sets@, self.wheres@)
        } else {
            update_head(self.table@) + render_list(self.sets@, comma_sep(), 1)
        })
    }

    /// Starts `UPDATE table SET ` with no assignment yet.
    pub fn new(table: &str) -> (b: Self)
        ensures
            b.wf(),
            b.table() == table@,
            b.sets() == Seq::<Binding>::empty(),
            b.wheres() == Seq::<Binding>::empty(),
            !b.in_where(),
    {
        let mut sql = String::new();
        proof {
            reveal_strlit("UPDATE ");
            reveal_strlit(" SET ");
        }
        sql.append("UPDATE ");
        sql.append(table);
        sql.append(" SET ");
        let b = UpdateBuilder {
            sql,
            params: Vec::new(),
            in_where: false,
            table: Ghost(table@),
            sets: Ghost(Seq::empty()),
            wheres: Ghost(Seq::empty()),
        };
        assert(values_view(b.params@) =~= Seq::<SqlValueView>::empty());
        assert(binding_values(Seq::<Binding>::empty()) =~= Seq::<SqlValueView>::empty());
        assert(render_list(Seq::<Binding>::empty(), comma_sep(), 1) =~= Seq::<char>::empty());
        assert(b.sql@ =~= update_head(table@) + render_list(Seq::<Binding>::empty(), comma_sep(), 1));
        b
    }

    /// Number of values bound so far.
    pub fn len(&self) -> (n: usize)
        requires
            self.wf(),
        ensures
            n == self.sets().len() + self.wheres().len(),
    {
        proof {
            assert(values_view(self.params@).len() == self.params@.len());
            assert(binding_values(self.sets@).len() == self.sets@.len());
            assert(binding_values(self.wheres@).len() == self.wheres@.len());
        }
        self.params.len()
    }

    proof fn lemma_values_push(params: Seq<SqlValue>, items: Seq<Binding>, col: Seq<char>, v: SqlValue)
        requires
            values_view(params) == binding_values(items),
        ensures
            values_view(params.push(v)) == binding_values(items.push((col, v@))),
    {
        let l = params.push(v);
        let r = items.push((col, v@));
        assert(values_view(params).len() == params.len());
        assert(binding_values(items).len() == items.len());
        assert forall|i: int| 0 <= i < l.len() implies values_view(l)[i] == binding_values(r)[i] by {
            assert(values_view(l)[i] == l[i]@);
            assert(binding_values(r)[i] == r[i].1);
            if i < params.len() {
                assert(values_view(params)[i] == binding_values(items)[i]);
                assert(values_view(params)[i] == params[i]@);
                assert(binding_values(items)[i] == items[i].1);
                assert(l[i] == params[i]);
                assert(r[i] == items[i]);
            }
        }
        assert(values_view(l) =~= binding_values(r));
    }

    /// Appends an assignment `col = ?n`, `n` being the next parameter number.
    proof fn lemma_set_values(params: Seq<SqlValue>, sets: Seq<Binding>, col: Seq<char>, v: SqlValue)
        requires
            values_view(params) == binding_values(sets) + binding_values(Seq::<Binding>::empty()),
        ensures
            values_view(params.push(v)) == binding_values(sets.push((col, v@))) + binding_values(
                Seq::<Binding>::empty(),
            ),
            params.len() == sets.len(),
    {
        assert(binding_values(Seq::<Binding>::empty()) =~= Seq::<SqlValueView>::empty());
        assert(binding_values(sets) + binding_values(Seq::<Binding>::empty()) =~= binding_values(sets));
        assert(values_view(params).len() == params.len());
        assert(binding_values(sets).len() == sets.len());
        Self::lemma_values_push(params, sets, col, v);
        assert(binding_values(sets.push((col, v@))) + binding_values(Seq::<Binding>::empty())
            =~= binding_values(sets.push((col, v@))));
    }

    proof fn lemma_set_sql(table: Seq<char>, sets: Seq<Binding>, col: Seq<char>, v: SqlValueView)
        ensures
            update_head(table) + render_list(sets.push((col, v)), comma_sep(), 1) == update_head(
                table,
            ) + render_list(sets, comma_sep(), 1) + render_item(
                sets.len() > 0,
                col,
                comma_sep(),
                (sets.len() + 1) as nat,
            ),
    {
        let ns = sets.push((col, v));
        assert(ns.drop_last() =~= sets);
        assert(render_list(ns, comma_sep(), 1) == render_list(sets, comma_sep(), 1) + render_item(
            ns.len() > 1,
            col,
            comma_sep(),
            (1 + ns.len() - 1) as nat,
        ));
        assert(update_head(table) + render_list(ns, comma_sep(), 1) =~= update_head(table)
            + render_list(sets, comma_sep(), 1) + render_item(
            sets.len() > 0,
            col,
            comma_sep(),
            (sets.len() + 1) as nat,
        ));
    }

    /// Appends an assignment `col = ?n`, `n` being the next parameter number.
    pub fn set(&mut self, col: &str, value: SqlValue)
        requires
            old(self).wf(),
            !old(self).in_where(),
            old(self).sets().len() < usize::MAX - 1,
        ensures
            final(self).wf(),
            !final(self).in_where(),
            final(self).table() == old(self).table(),
            final(self).sets() == old(self).sets().push((col@, value@)),
            final(self).wheres() == old(self).wheres(),
    {
        proof {
            Self::lemma_set_values(self.params@, self.sets@, col@, value);
            Self::lemma_set_sql(self.table@, self.sets@, col@, value@);
            reveal_strlit(", ");
            reveal_strlit(" = ?");
        }
        let n = self.params.len();
        let ghost new_sets = self.sets@.push((col@, value@));
        let ghost old_sql = self.sql@;
        if n > 0 {
            self.sql.append(", ");
        }
        self.sql.append(col);
        self.sql.append(" = ?");
        push_decimal(&mut self.sql, (n + 1) as u64);
        self.params.push(value);
        self.sets = Ghost(new_sets);
        assert(self.sql@ =~= old_sql + render_item(n > 0, col@, comma_sep(), (n + 1) as nat));
    }

    /// Appends a condition `col = ?n` after the assignments.
    pub fn where_eq(&mut self, col: &str, value: SqlValue)
        requires
            old(self).wf(),
            old(self).sets().len() + old(self).wheres().len() < usize::MAX - 1,
        ensures
            final(self).wf(),
            final(self).in_where(),
            final(self).table() == old(self).table(),
            final(self).sets() == old(self).sets(),
            final(self).wheres() == old(self).wheres().push((col@, value@)),
    {
        let n = self.params.len();
        proof {
            assert(values_view(self.params@).len() == self.params@.len());
            assert(binding_values(self.sets@).len() == self.sets@.len());
            assert(binding_values(self.wheres@).len() == self.wheres@.len());
            reveal_strlit(" WHERE ");
            reveal_strlit(" AND ");
            reveal_strlit(" = ?");
        }
        let ghost old_wheres = self.wheres@;
        let ghost new_wheres = old_wheres.push((col@, value@));
        let ghost was_where = self.in_where;
        let ghost old_sql = self.sql@;
        if !self.in_where {
            self.sql.append(" WHERE ");
            proof {
                assert(render_list(Seq::<Binding>::empty(), and_sep(), (1 + self.sets@.len()) as nat) =~= Seq::<char>::empty());
            }
        } else {
            self.sql.append(" AND ");
        }
        self.sql.append(col);
        self.sql.append(" = ?");
        push_decimal(&mut self.sql, (n + 1) as u64);
        proof {
            assert(values_view(self.params@.push(value)) =~= values_view(self.params@).push(value@));
            assert(binding_values(new_wheres) =~= binding_values(old_wheres).push(value@));
        }
        self.params.push(value);
        self.in_where = true;
        self.wheres = Ghost(new_wheres);
        proof {
            assert(new_wheres.drop_last() =~= old_wheres);
            let start = (1 + self.sets@.len()) as nat;
            assert(render_list(new_wheres, and_sep(), start) == render_list(old_wheres, and_sep(), start)
                + render_item(new_wheres.len() > 1, col@, and_sep(), (start + new_wheres.len() - 1) as nat));
            assert(values_view(self.params@) =~= binding_values(self.sets@) + binding_values(new_wheres));
            let item = render_item(new_wheres.len() > 1, col@, and_sep(), (start + new_wheres.len() - 1) as nat);
            let hs = update_head(self.table@) + render_list(self.sets@, comma_sep(), 1);
            if was_where {
                assert(old_sql == hs + where_word() + render_list(old_wheres, and_sep(), start));
                assert(new_wheres.len() > 1);
                assert(self.sql@ =~= old_sql + item);
            } else {
                assert(old_wheres.len() == 0);
                assert(old_sql == hs);
                assert(render_list(old_wheres, and_sep(), start) =~= Seq::<char>::empty());
                assert(self.sql@ =~= old_sql + where_word() + item);
            }
            assert(self.sql@ =~= update_sql(self.table@, self.sets@, new_wheres));
        }
    }

    /// The finished statement.
    pub fn finish(self) -> (st: Statement)
        requires
            self.wf(),
            self.in_where(),
        ensures
            st@ == update_statement(self.table(), self.sets(), self.wheres()),
    {
        Statement { sql: self.sql, params: self.params }
    }
}

} // verus!

verus! {

/// A statement with the given text and parameters.
pub fn statement(sql: &str, params: Vec<SqlValue>) -> (st: Statement)
    ensures
        st@.sql == sql@,
        st@.params == values_view(params@),
{
    Statement { sql: owned(sql), params }
}

/// The assignment of `col` when a value is present, none otherwise.
pub open spec fn opt_set(col: Seq<char>, v: Option<SqlValueView>) -> Seq<Binding> {
    match v {
        Some(x) => seq![(col, x)],
        None => seq![],
    }
}

pub open spec fn text_view(o: Option<String>) -> Option<SqlValueView> {
    match o {
        Some(s) => Some(SqlValueView::Text(s@)),
        None => None,
    }
}

pub open spec fn bool_view(o: Option<bool>) -> Option<SqlValueView> {
    match o {
        Some(b) => Some(SqlValueView::Bool(b)),
        None => None,
    }
}

pub open spec fn time_view(o: Option<Timestamp>) -> Option<SqlValueView> {
    match o {
        Some(t) => Some(SqlValueView::DateTime(t)),
        None => None,
    }
}

pub open spec fn real_view(o: Option<Real>) -> Option<SqlValueView> {
    match o {
        Some(r) => Some(SqlValueView::Real(r)),
        None => None,
    }
}

pub open spec fn int_view(o: Option<i32>) -> Option<SqlValueView> {
    match o {
        Some(i) => Some(SqlValueView::Integer(i as i64)),
        None => None,
    }
}

/// The conditions `id = ? AND uid = ?`.
pub open spec fn id_and_uid(id: Seq<char>, uid: Seq<char>) -> Seq<Binding> {
    seq![("id"@, SqlValueView::Text(id)), ("uid"@, SqlValueView::Text(uid))]
}

impl UpdateBuilder {
    /// Sets `col` when a value is given.
    pub fn set_opt(&mut self, col: &str, value: Option<SqlValue>)
        requires
            old(self).wf(),
            !old(self).in_where(),
            old(self).sets().len() < usize::MAX - 1,
        ensures
            final(self).wf(),
            !final(self).in_where(),
            final(self).table() == old(self).table(),
            final(self).sets() == old(self).sets() + opt_set(
                col@,
                match value {
                    Some(v) => Some(v@),
                    None => None,
                },
            ),
            final(self).sets().len() <= old(self).sets().len() + 1,
            final(self).wheres() == old(self).wheres(),
    {
        match value {
            Some(v) => {
                let ghost vv = v@;
                self.set(col, v);
                assert(self.sets() =~= old(self).sets() + seq![(col@, vv)]);
            },
            None => {
                assert(old(self).sets() + seq![] =~= old(self).sets());
            },
        }
    }

    /// Adds the conditions `id = ? AND uid = ?`.
    pub fn where_id_uid(&mut self, id: &str, uid: &str)
        requires
            old(self).wf(),
            old(self).wheres().len() == 0,
            old(self).sets().len() < usize::MAX - 2,
        ensures
            final(self).wf(),
            final(self).in_where(),
            final(self).table() == old(self).table(),
            final(self).sets() == old(self).sets(),
            final(self).wheres() == id_and_uid(id@, uid@),
    {
        self.where_eq("id", text(id));
        self.where_eq("uid", text(uid));
        assert(self.wheres() =~= id_and_uid(id@, uid@));
    }
}

pub fn opt_text_value(o: Option<String>) -> (r: Option<SqlValue>)
    ensures
        (match r {
            Some(v) => Some(v@),
            None => None,
        }) == text_view(o),
{
    match o {
        Some(s) => Some(SqlValue::Text(s)),
        None => None,
    }
}

pub fn opt_bool_value(o: Option<bool>) -> (r: Option<SqlValue>)
    ensures
        (match r {
            Some(v) => Some(v@),
            None => None,
        }) == bool_view(o),
{
    match o {
        Some(b) => Some(SqlValue::Bool(b)),
        None => None,
    }
}

pub fn opt_time_value(o: Option<Timestamp>) -> (r: Option<SqlValue>)
    ensures
        (match r {
            Some(v) => Some(v@),
            None => None,
        }) == time_view(o),
{
    match o {
        Some(t) => Some(SqlValue::DateTime(t)),
        None => None,
    }
}

pub fn opt_real_value(o: Option<Real>) -> (r: Option<SqlValue>)
    ensures
        (match r {
            Some(v) => Some(v@),
            None => None,
        }) == real_view(o),
{
    match o {
        Some(x) => Some(SqlValue::Real(x)),
        None => None,
    }
}

pub fn opt_int_value(o: Option<i32>) -> (r: Option<SqlValue>)
    ensures
        (match r {
            Some(v) => Some(v@),
            None => None,
        }) == int_view(o),
{
    match o {
        Some(i) => Some(SqlValue::Integer(i as i64)),
        None => None,
    }
}

} // verus!
