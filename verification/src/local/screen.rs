//! Screen activity rows of the local database, and the byte encoding of
//! their embeddings.
use vstd::prelude::*;
use vstd::string::*;

use crate::binding::{bare_join, bare_pieces, binds_bare, insert_layout, insert_sql, inserts, lemma_bare_join_binds, lemma_inserts_bare, plain_items};
use crate::model::Real;
use crate::sql::{comma_list, statement, text, values_view, SqlValue, SqlValueView, Statement, StatementView};
use crate::text::{lemma_placeholder_bare, lemma_placeholders_concat, owned, placeholders};

verus! {

/// One screen activity sample; the embedding is a list of 64-bit floats.
#[derive(Debug)]
pub struct ScreenActivityRow {
    pub id: i64,
    pub timestamp: String,
    pub app_name: String,
    pub window_title: String,
    pub ocr_text: String,
    pub embedding: Option<Vec<Real>>,
}

/// The 8 little-endian bytes of a 64-bit word.
pub open spec fn le_bytes(w: u64) -> Seq<u8> {
    seq![
        (w & 0xff) as u8,
        ((w >> 8u64) & 0xff) as u8,
        ((w >> 16u64) & 0xff) as u8,
        ((w >> 24u64) & 0xff) as u8,
        ((w >> 32u64) & 0xff) as u8,
        ((w >> 40u64) & 0xff) as u8,
        ((w >> 48u64) & 0xff) as u8,
        ((w >> 56u64) & 0xff) as u8,
    ]
}

/// The 64-bit word whose little-endian bytes are the first 8 of `b`.
pub open spec fn le_word(b: Seq<u8>) -> u64 {
    (b[0] as u64) | ((b[1] as u64) << 8u64) | ((b[2] as u64) << 16u64) | ((b[3] as u64) << 24u64)
        | ((b[4] as u64) << 32u64) | ((b[5] as u64) << 40u64) | ((b[6] as u64) << 48u64) | ((
    b[7] as u64) << 56u64)
}

/// The stored bytes of an embedding: each float's bit pattern, little-endian,
/// one after the other.
pub open spec fn encode_embedding(v: Seq<Real>) -> Seq<u8>
    decreases v.len(),
{
    if v.len() == 0 {
        seq![]
    } else {
        le_bytes(v[0].bits) + encode_embedding(v.drop_first())
    }
}

/// The embedding read back from stored bytes: one float per whole group of 8
/// bytes; a trailing group of fewer bytes is ignored.
pub open spec fn decode_embedding(b: Seq<u8>) -> Seq<Real>
    decreases b.len(),
{
    if b.len() < 8 {
        seq![]
    } else {
        seq![Real { bits: le_word(b) }] + decode_embedding(b.skip(8))
    }
}

proof fn lemma_le_roundtrip(w: u64)
    ensures
        le_word(le_bytes(w)) == w,
{
    let b = le_bytes(w);
    let b0 = (w & 0xff) as u8;
    let b1 = ((w >> 8u64) & 0xff) as u8;
    let b2 = ((w >> 16u64) & 0xff) as u8;
    let b3 = ((w >> 24u64) & 0xff) as u8;
    let b4 = ((w >> 32u64) & 0xff) as u8;
    let b5 = ((w >> 40u64) & 0xff) as u8;
    let b6 = ((w >> 48u64) & 0xff) as u8;
    let b7 = ((w >> 56u64) & 0xff) as u8;
    assert(b[0] == b0 && b[1] == b1 && b[2] == b2 && b[3] == b3);
    assert(b[4] == b4 && b[5] == b5 && b[6] == b6 && b[7] == b7);
    assert((b0 as u64) | ((b1 as u64) << 8u64) | ((b2 as u64) << 16u64) | ((b3 as u64) << 24u64)
        | ((b4 as u64) << 32u64) | ((b5 as u64) << 40u64) | ((b6 as u64) << 48u64) | ((b7 as u64) << 56u64) == w) by (bit_vector)
        requires
            b0 == (w & 0xff) as u8,
            b1 == ((w >> 8u64) & 0xff) as u8,
            b2 == ((w >> 16u64) & 0xff) as u8,
            b3 == ((w >> 24u64) & 0xff) as u8,
            b4 == ((w >> 32u64) & 0xff) as u8,
            b5 == ((w >> 40u64) & 0xff) as u8,
            b6 == ((w >> 48u64) & 0xff) as u8,
            b7 == ((w >> 56u64) & 0xff) as u8;
}

/// Law: an embedding read back from its stored bytes is the embedding that
/// was stored, float for float.
pub proof fn lemma_embedding_roundtrip(v: Seq<Real>)
    ensures
        decode_embedding(encode_embedding(v)) == v,
    decreases v.len(),
{
    if v.len() > 0 {
        let b = encode_embedding(v);
        let rest = encode_embedding(v.drop_first());
        assert(b == le_bytes(v[0].bits) + rest);
        assert(b.len() >= 8);
        lemma_le_roundtrip(v[0].bits);
        assert(b.take(8) =~= le_bytes(v[0].bits));
        assert(le_word(b) == le_word(b.take(8)));
        assert(b.skip(8) =~= rest);
        lemma_embedding_roundtrip(v.drop_first());
        assert(v =~= seq![v[0]] + v.drop_first());
    }
}

proof fn lemma_encode_push(v: Seq<Real>, x: Real)
    ensures
        encode_embedding(v.push(x)) == encode_embedding(v) + le_bytes(x.bits),
    decreases v.len(),
{
    if v.len() == 0 {
        assert(v.push(x).drop_first() =~= Seq::<Real>::empty());
        assert(encode_embedding(Seq::<Real>::empty()) == Seq::<u8>::empty());
        assert(v.push(x)[0] == x);
        assert(encode_embedding(v.push(x)) =~= le_bytes(x.bits));
        assert(encode_embedding(v) == Seq::<u8>::empty());
        assert(encode_embedding(v) + le_bytes(x.bits) =~= le_bytes(x.bits));
    } else {
        assert(v.push(x).drop_first() =~= v.drop_first().push(x));
        lemma_encode_push(v.drop_first(), x);
        assert(encode_embedding(v.push(x)) =~= encode_embedding(v) + le_bytes(x.bits));
    }
}

/// The stored bytes of an embedding.
pub fn encode(v: &Vec<Real>) -> (b: Vec<u8>)
    ensures
        b@ == encode_embedding(v@),
{
    let mut b: Vec<u8> = Vec::new();
    let mut i: usize = 0;
    assert(v@.take(0) =~= Seq::<Real>::empty());
    while i < v.len()
        invariant
            i <= v.len(),
            b@ == encode_embedding(v@.take(i as int)),
        decreases v.len() - i,
    {
        let w = v[i].bits;
        b.push((w & 0xff) as u8);
        b.push(((w >> 8u64) & 0xff) as u8);
        b.push(((w >> 16u64) & 0xff) as u8);
        b.push(((w >> 24u64) & 0xff) as u8);
        b.push(((w >> 32u64) & 0xff) as u8);
        b.push(((w >> 40u64) & 0xff) as u8);
        b.push(((w >> 48u64) & 0xff) as u8);
        b.push(((w >> 56u64) & 0xff) as u8);
        proof {
            assert(v@.take(i + 1) =~= v@.take(i as int).push(v@[i as int]));
            lemma_encode_push(v@.take(i as int), v@[i as int]);
        }
        i = i + 1;
        assert(b@ =~= encode_embedding(v@.take(i as int)));
    }
    assert(v@.take(i as int) =~= v@);
    b
}

/// The embedding stored as bytes.
pub fn decode(b: &Vec<u8>) -> (v: Vec<Real>)
    ensures
        v@ == decode_embedding(b@),
{
    let mut v: Vec<Real> = Vec::new();
    let mut i: usize = 0;
    assert(b@.skip(0) =~= b@);
    while b.len() - i >= 8
        invariant
            i <= b.len(),
            decode_embedding(b@) == v@ + decode_embedding(b@.skip(i as int)),
        decreases b.len() - i,
    {
        let w: u64 = (b[i] as u64) | ((b[i + 1] as u64) << 8u64) | ((b[i + 2] as u64) << 16u64)
            | ((b[i + 3] as u64) << 24u64) | ((b[i + 4] as u64) << 32u64) | ((b[i + 5] as u64)
            << 40u64) | ((b[i + 6] as u64) << 48u64) | ((b[i + 7] as u64) << 56u64);
        let ghost rest = b@.skip(i as int);
        assert(w == le_word(rest));
        assert(rest.skip(8) =~= b@.skip(i + 8));
        assert(decode_embedding(rest) == seq![Real { bits: le_word(rest) }] + decode_embedding(rest.skip(8)));
        v.push(Real { bits: w });
        i = i + 8;
        assert(decode_embedding(b@) =~= v@ + decode_embedding(b@.skip(i as int)));
    }
    assert(decode_embedding(b@.skip(i as int)) =~= Seq::<Real>::empty());
    assert(v@ + Seq::<Real>::empty() =~= v@);
    v
}

/// The statement that inserts a sample, or replaces the stored one with the
/// same identifier.
pub open spec fn upsert_statement(user_id: Seq<char>, row: ScreenActivityRow) -> StatementView {
    StatementView {
        sql: "INSERT INTO screen_activity (id, user_id, timestamp, app_name, window_title, ocr_text, embedding) VALUES (?, ?, ?, ?, ?, ?, ?) ON CONFLICT(id) DO UPDATE SET timestamp=excluded.timestamp, app_name=excluded.app_name, window_title=excluded.window_title, ocr_text=excluded.ocr_text, embedding=excluded.embedding"@,
        params: seq![
            SqlValueView::Integer(row.id),
            SqlValueView::Text(user_id),
            SqlValueView::Text(row.timestamp@),
            SqlValueView::Text(row.app_name@),
            SqlValueView::Text(row.window_title@),
            SqlValueView::Text(row.ocr_text@),
            match row.embedding {
                Some(e) => SqlValueView::Blob(encode_embedding(e@)),
                None => SqlValueView::Null,
            },
        ],
    }
}

/// Each column of the sample upsert receives the parameter at its position.
#[verifier::rlimit(100)]
proof fn lemma_upsert_columns(st: StatementView)
    requires
        st.sql == "INSERT INTO screen_activity (id, user_id, timestamp, app_name, window_title, ocr_text, embedding) VALUES (?, ?, ?, ?, ?, ?, ?) ON CONFLICT(id) DO UPDATE SET timestamp=excluded.timestamp, app_name=excluded.app_name, window_title=excluded.window_title, ocr_text=excluded.ocr_text, embedding=excluded.embedding"@,
        st.params.len() >= 7,
    ensures
        inserts(st, "id"@, st.params[0]),
        inserts(st, "user_id"@, st.params[1]),
        inserts(st, "timestamp"@, st.params[2]),
        inserts(st, "app_name"@, st.params[3]),
        inserts(st, "window_title"@, st.params[4]),
        inserts(st, "ocr_text"@, st.params[5]),
        inserts(st, "embedding"@, st.params[6]),
{
    reveal_strlit("INSERT INTO screen_activity (id, user_id, timestamp, app_name, window_title, ocr_text, embedding) VALUES (?, ?, ?, ?, ?, ?, ?) ON CONFLICT(id) DO UPDATE SET timestamp=excluded.timestamp, app_name=excluded.app_name, window_title=excluded.window_title, ocr_text=excluded.ocr_text, embedding=excluded.embedding");
    reveal_strlit("INSERT INTO ");
    reveal_strlit("screen_activity");
    reveal_strlit(" (");
    reveal_strlit(") VALUES (");
    reveal_strlit(")");
    reveal_strlit(", ");
    reveal_strlit("?");
    reveal_strlit(" ON CONFLICT(id) DO UPDATE SET timestamp=excluded.timestamp, app_name=excluded.app_name, window_title=excluded.window_title, ocr_text=excluded.ocr_text, embedding=excluded.embedding");
    reveal_strlit("id");
    reveal_strlit("user_id");
    reveal_strlit("timestamp");
    reveal_strlit("app_name");
    reveal_strlit("window_title");
    reveal_strlit("ocr_text");
    reveal_strlit("embedding");
    let cols = seq!["id"@, "user_id"@, "timestamp"@, "app_name"@, "window_title"@, "ocr_text"@, "embedding"@];
    let vals = seq!["?"@, "?"@, "?"@, "?"@, "?"@, "?"@, "?"@];
    assert("?"@ =~= seq!['?']);
    reveal_with_fuel(comma_list, 8);
    assert("INSERT INTO screen_activity (id, user_id, timestamp, app_name, window_title, ocr_text, embedding) VALUES (?, ?, ?, ?, ?, ?, ?) ON CONFLICT(id) DO UPDATE SET timestamp=excluded.timestamp, app_name=excluded.app_name, window_title=excluded.window_title, ocr_text=excluded.ocr_text, embedding=excluded.embedding"@ =~= insert_sql("INSERT INTO "@, "screen_activity"@, cols, vals, " ON CONFLICT(id) DO UPDATE SET timestamp=excluded.timestamp, app_name=excluded.app_name, window_title=excluded.window_title, ocr_text=excluded.ocr_text, embedding=excluded.embedding"@));
    assert(plain_items(cols));
    assert(plain_items(vals));
    assert(insert_layout(st, "INSERT INTO "@, "screen_activity"@, cols, vals, " ON CONFLICT(id) DO UPDATE SET timestamp=excluded.timestamp, app_name=excluded.app_name, window_title=excluded.window_title, ocr_text=excluded.ocr_text, embedding=excluded.embedding"@));
    assert(forall|m: int| 0 <= m < vals.len() ==> #[trigger] vals[m] == seq!['?']);
    lemma_inserts_bare(st, "INSERT INTO "@, "screen_activity"@, cols, vals, " ON CONFLICT(id) DO UPDATE SET timestamp=excluded.timestamp, app_name=excluded.app_name, window_title=excluded.window_title, ocr_text=excluded.ocr_text, embedding=excluded.embedding"@, 0);
    lemma_inserts_bare(st, "INSERT INTO "@, "screen_activity"@, cols, vals, " ON CONFLICT(id) DO UPDATE SET timestamp=excluded.timestamp, app_name=excluded.app_name, window_title=excluded.window_title, ocr_text=excluded.ocr_text, embedding=excluded.embedding"@, 1);
    lemma_inserts_bare(st, "INSERT INTO "@, "screen_activity"@, cols, vals, " ON CONFLICT(id) DO UPDATE SET timestamp=excluded.timestamp, app_name=excluded.app_name, window_title=excluded.window_title, ocr_text=excluded.ocr_text, embedding=excluded.embedding"@, 2);
    lemma_inserts_bare(st, "INSERT INTO "@, "screen_activity"@, cols, vals, " ON CONFLICT(id) DO UPDATE SET timestamp=excluded.timestamp, app_name=excluded.app_name, window_title=excluded.window_title, ocr_text=excluded.ocr_text, embedding=excluded.embedding"@, 3);
    lemma_inserts_bare(st, "INSERT INTO "@, "screen_activity"@, cols, vals, " ON CONFLICT(id) DO UPDATE SET timestamp=excluded.timestamp, app_name=excluded.app_name, window_title=excluded.window_title, ocr_text=excluded.ocr_text, embedding=excluded.embedding"@, 4);
    lemma_inserts_bare(st, "INSERT INTO "@, "screen_activity"@, cols, vals, " ON CONFLICT(id) DO UPDATE SET timestamp=excluded.timestamp, app_name=excluded.app_name, window_title=excluded.window_title, ocr_text=excluded.ocr_text, embedding=excluded.embedding"@, 5);
    lemma_inserts_bare(st, "INSERT INTO "@, "screen_activity"@, cols, vals, " ON CONFLICT(id) DO UPDATE SET timestamp=excluded.timestamp, app_name=excluded.app_name, window_title=excluded.window_title, ocr_text=excluded.ocr_text, embedding=excluded.embedding"@, 6);
}

/// Builds one insert-or-replace per sample, in the order given; the number
/// of samples written is the number of statements.
pub fn upsert_screen_activity(user_id: &str, rows: &Vec<ScreenActivityRow>) -> (r: Vec<Statement>)
    ensures
        r.len() == rows.len(),
        forall|k: int| 0 <= k < r.len() ==> (#[trigger] r@[k])@ == upsert_statement(user_id@, rows@[k]),
        forall|k: int| 0 <= k < r.len() ==> inserts((#[trigger] r@[k])@, "id"@, SqlValueView::Integer(rows@[k].id)) && inserts(r@[k]@, "user_id"@, SqlValueView::Text(user_id@)) && inserts(r@[k]@, "timestamp"@, SqlValueView::Text(rows@[k].timestamp@)) && inserts(r@[k]@, "app_name"@, SqlValueView::Text(rows@[k].app_name@)) && inserts(r@[k]@, "window_title"@, SqlValueView::Text(rows@[k].window_title@)) && inserts(r@[k]@, "ocr_text"@, SqlValueView::Text(rows@[k].ocr_text@)) && inserts(r@[k]@, "embedding"@, (match rows@[k].embedding { Some(e) => SqlValueView::Blob(encode_embedding(e@)), None => SqlValueView::Null })),
{
    let mut out: Vec<Statement> = Vec::new();
    let mut i: usize = 0;
    while i < rows.len()
        invariant
            i <= rows.len(),
            out.len() == i,
            forall|k: int| 0 <= k < i ==> (#[trigger] out@[k])@ == upsert_statement(user_id@, rows@[k]),
        decreases rows.len() - i,
    {
        let row = &rows[i];
        let blob = match &row.embedding {
            Some(e) => SqlValue::Blob(encode(e)),
            None => SqlValue::Null,
        };
        let p = vec![
            SqlValue::Integer(row.id),
            text(user_id),
            text(row.timestamp.as_str()),
            text(row.app_name.as_str()),
            text(row.window_title.as_str()),
            text(row.ocr_text.as_str()),
            blob,
        ];
        assert(values_view(p@) =~= upsert_statement(user_id@, *row).params);
        out.push(statement("INSERT INTO screen_activity (id, user_id, timestamp, app_name, window_title, ocr_text, embedding) VALUES (?, ?, ?, ?, ?, ?, ?) ON CONFLICT(id) DO UPDATE SET timestamp=excluded.timestamp, app_name=excluded.app_name, window_title=excluded.window_title, ocr_text=excluded.ocr_text, embedding=excluded.embedding", p));
        i = i + 1;
    }
    proof {
        assert forall|k: int| 0 <= k < out.len() implies inserts((#[trigger] out@[k])@, "id"@, SqlValueView::Integer(rows@[k].id)) && inserts(out@[k]@, "user_id"@, SqlValueView::Text(user_id@)) && inserts(out@[k]@, "timestamp"@, SqlValueView::Text(rows@[k].timestamp@)) && inserts(out@[k]@, "app_name"@, SqlValueView::Text(rows@[k].app_name@)) && inserts(out@[k]@, "window_title"@, SqlValueView::Text(rows@[k].window_title@)) && inserts(out@[k]@, "ocr_text"@, SqlValueView::Text(rows@[k].ocr_text@)) && inserts(out@[k]@, "embedding"@, (match rows@[k].embedding { Some(e) => SqlValueView::Blob(encode_embedding(e@)), None => SqlValueView::Null })) by {
            lemma_upsert_columns(out@[k]@);
        }
    }
    out
}

/// The text of the sample query: a user's samples, within the optional time
/// bounds and of the optional application, in time order, at most `limit`.
pub open spec fn screen_activity_sql(start: bool, end: bool, app: bool) -> Seq<char> {
    "SELECT id, timestamp, app_name, window_title, ocr_text, embedding FROM screen_activity WHERE user_id = ?"@
        + (if start { " AND timestamp >= ?"@ } else { seq![] })
        + (if end { " AND timestamp <= ?"@ } else { seq![] })
        + (if app { " AND app_name = ?"@ } else { seq![] })
        + " ORDER BY timestamp ASC LIMIT ?"@
}

/// The parameters of the sample query, in the order of its placeholders.
pub open spec fn screen_activity_params(user_id: &str, start: Option<&str>, end: Option<&str>, app: Option<&str>, limit: i32) -> Seq<SqlValueView> {
    seq![SqlValueView::Text(user_id@)]
        + (match start { Some(s) => seq![SqlValueView::Text(s@)], None => seq![] })
        + (match end { Some(s) => seq![SqlValueView::Text(s@)], None => seq![] })
        + (match app { Some(s) => seq![SqlValueView::Text(s@)], None => seq![] })
        + seq![SqlValueView::Integer(limit as i64)]
}

/// Law: the sample query has exactly one `?` per parameter, whichever
/// filters are given, so every placeholder is bound (the placeholders are
/// unnumbered and are bound in order).
pub proof fn lemma_screen_activity_placeholders(
    user_id: &str,
    start: Option<&str>,
    end: Option<&str>,
    app: Option<&str>,
    limit: i32,
)
    ensures
        placeholders(screen_activity_sql(start is Some, end is Some, app is Some))
            == Seq::new(screen_activity_params(user_id, start, end, app, limit).len(), |i: int| 0nat),
{
    reveal_strlit("SELECT id, timestamp, app_name, window_title, ocr_text, embedding FROM screen_activity WHERE user_id = ?");
    reveal_strlit("SELECT id, timestamp, app_name, window_title, ocr_text, embedding FROM screen_activity WHERE user_id = ");
    reveal_strlit(" AND timestamp >= ?");
    reveal_strlit(" AND timestamp >= ");
    reveal_strlit(" AND timestamp <= ?");
    reveal_strlit(" AND timestamp <= ");
    reveal_strlit(" AND app_name = ?");
    reveal_strlit(" AND app_name = ");
    reveal_strlit(" ORDER BY timestamp ASC LIMIT ?");
    reveal_strlit(" ORDER BY timestamp ASC LIMIT ");
    let a0 = "SELECT id, timestamp, app_name, window_title, ocr_text, embedding FROM screen_activity WHERE user_id = "@;
    let s0 = " AND timestamp >= "@;
    let e0 = " AND timestamp <= "@;
    let p0 = " AND app_name = "@;
    let l0 = " ORDER BY timestamp ASC LIMIT "@;
    assert forall|i: int| 0 <= i < a0.len() implies #[trigger] a0[i] != '?' by {}
    assert forall|i: int| 0 <= i < s0.len() implies #[trigger] s0[i] != '?' by {}
    assert forall|i: int| 0 <= i < e0.len() implies #[trigger] e0[i] != '?' by {}
    assert forall|i: int| 0 <= i < p0.len() implies #[trigger] p0[i] != '?' by {}
    assert forall|i: int| 0 <= i < l0.len() implies #[trigger] l0[i] != '?' by {}
    lemma_placeholder_bare(a0);
    lemma_placeholder_bare(s0);
    lemma_placeholder_bare(e0);
    lemma_placeholder_bare(p0);
    lemma_placeholder_bare(l0);
    let a = a0 + seq!['?'];
    let sp = if start is Some { s0 + seq!['?'] } else { seq![] };
    let ep = if end is Some { e0 + seq!['?'] } else { seq![] };
    let pp = if app is Some { p0 + seq!['?'] } else { seq![] };
    let l = l0 + seq!['?'];
    assert(a =~= "SELECT id, timestamp, app_name, window_title, ocr_text, embedding FROM screen_activity WHERE user_id = ?"@);
    assert(s0 + seq!['?'] =~= " AND timestamp >= ?"@);
    assert(e0 + seq!['?'] =~= " AND timestamp <= ?"@);
    assert(p0 + seq!['?'] =~= " AND app_name = ?"@);
    assert(l =~= " ORDER BY timestamp ASC LIMIT ?"@);
    assert(placeholders(Seq::<char>::empty()) =~= Seq::<nat>::empty());
    assert(screen_activity_sql(start is Some, end is Some, app is Some) =~= a + sp + ep + pp + l);
    lemma_placeholders_concat(a, sp);
    lemma_placeholders_concat(a + sp, ep);
    lemma_placeholders_concat(a + sp + ep, pp);
    lemma_placeholders_concat(a + sp + ep + pp, l);
    let n_s: nat = if start is Some { 1 } else { 0 };
    let n_e: nat = if end is Some { 1 } else { 0 };
    let n_a: nat = if app is Some { 1 } else { 0 };
    assert(screen_activity_params(user_id, start, end, app, limit).len() == 2 + n_s + n_e + n_a);
    assert(placeholders(screen_activity_sql(start is Some, end is Some, app is Some))
        =~= Seq::new(2 + n_s + n_e + n_a, |i: int| 0nat));
}

/// What the sample query binds: the user to `user_id = `, the start to
/// `timestamp >= `, the end to `timestamp <= `, the application to
/// `app_name = ` (each when given), and the limit to `LIMIT `.
pub open spec fn screen_activity_binds(
    st: StatementView,
    user_id: &str,
    start: Option<&str>,
    end: Option<&str>,
    app: Option<&str>,
    limit: i32,
) -> bool {
    &&& binds_bare(st, "user_id = "@, SqlValueView::Text(user_id@))
    &&& (start matches Some(s) ==> binds_bare(st, "timestamp >= "@, SqlValueView::Text(s@)))
    &&& (end matches Some(e) ==> binds_bare(st, "timestamp <= "@, SqlValueView::Text(e@)))
    &&& (app matches Some(a) ==> binds_bare(st, "app_name = "@, SqlValueView::Text(a@)))
    &&& binds_bare(st, "LIMIT "@, SqlValueView::Integer(limit as i64))
}

proof fn lemma_screen_activity_binds_case0(
    user_id: &str,
    start: Option<&str>,
    end: Option<&str>,
    app: Option<&str>,
    limit: i32,
)
    requires
        start is Some && end is Some && app is Some,
    ensures
        screen_activity_binds(
            StatementView {
                sql: screen_activity_sql(start is Some, end is Some, app is Some),
                params: screen_activity_params(user_id, start, end, app, limit),
            },
            user_id,
            start,
            end,
            app,
            limit,
        ),
{
    reveal_strlit("SELECT id, timestamp, app_name, window_title, ocr_text, embedding FROM screen_activity WHERE user_id = ");
    reveal_strlit(" AND timestamp >= ");
    reveal_strlit(" AND timestamp <= ");
    reveal_strlit(" AND app_name = ");
    reveal_strlit(" ORDER BY timestamp ASC LIMIT ");
    reveal_strlit("SELECT id, timestamp, app_name, window_title, ocr_text, embedding FROM screen_activity WHERE user_id = ?");
    reveal_strlit(" AND timestamp >= ?");
    reveal_strlit(" AND timestamp <= ?");
    reveal_strlit(" AND app_name = ?");
    reveal_strlit(" ORDER BY timestamp ASC LIMIT ?");
    reveal_strlit(" ORDER BY timestamp ASC LIMIT ");
    reveal_strlit("user_id = ");
    reveal_strlit("timestamp >= ");
    reveal_strlit("timestamp <= ");
    reveal_strlit("app_name = ");
    reveal_strlit("LIMIT ");
    reveal_with_fuel(bare_join, 8);
    let sql = screen_activity_sql(start is Some, end is Some, app is Some);
    let params = screen_activity_params(user_id, start, end, app, limit);
        let pieces = seq!["SELECT id, timestamp, app_name, window_title, ocr_text, embedding FROM screen_activity WHERE user_id = "@, " AND timestamp >= "@, " AND timestamp <= "@, " AND app_name = "@, " ORDER BY timestamp ASC LIMIT "@, Seq::<char>::empty()];
        assert(sql =~= bare_join(pieces));
        assert(bare_pieces(pieces));
        lemma_bare_join_binds(pieces, params, 0, "user_id = "@);
        lemma_bare_join_binds(pieces, params, 1, "timestamp >= "@);
        lemma_bare_join_binds(pieces, params, 2, "timestamp <= "@);
        lemma_bare_join_binds(pieces, params, 3, "app_name = "@);
        lemma_bare_join_binds(pieces, params, 4, "LIMIT "@);
}

proof fn lemma_screen_activity_binds_case1(
    user_id: &str,
    start: Option<&str>,
    end: Option<&str>,
    app: Option<&str>,
    limit: i32,
)
    requires
        start is Some && end is Some && app is None,
    ensures
        screen_activity_binds(
            StatementView {
                sql: screen_activity_sql(start is Some, end is Some, app is Some),
                params: screen_activity_params(user_id, start, end, app, limit),
            },
            user_id,
            start,
            end,
            app,
            limit,
        ),
{
    reveal_strlit("SELECT id, timestamp, app_name, window_title, ocr_text, embedding FROM screen_activity WHERE user_id = ");
    reveal_strlit(" AND timestamp >= ");
    reveal_strlit(" AND timestamp <= ");
    reveal_strlit(" AND app_name = ");
    reveal_strlit(" ORDER BY timestamp ASC LIMIT ");
    reveal_strlit("SELECT id, timestamp, app_name, window_title, ocr_text, embedding FROM screen_activity WHERE user_id = ?");
    reveal_strlit(" AND timestamp >= ?");
    reveal_strlit(" AND timestamp <= ?");
    reveal_strlit(" AND app_name = ?");
    reveal_strlit(" ORDER BY timestamp ASC LIMIT ?");
    reveal_strlit(" ORDER BY timestamp ASC LIMIT ");
    reveal_strlit("user_id = ");
    reveal_strlit("timestamp >= ");
    reveal_strlit("timestamp <= ");
    reveal_strlit("app_name = ");
    reveal_strlit("LIMIT ");
    reveal_with_fuel(bare_join, 8);
    let sql = screen_activity_sql(start is Some, end is Some, app is Some);
    let params = screen_activity_params(user_id, start, end, app, limit);
        let pieces = seq!["SELECT id, timestamp, app_name, window_title, ocr_text, embedding FROM screen_activity WHERE user_id = "@, " AND timestamp >= "@, " AND timestamp <= "@, " ORDER BY timestamp ASC LIMIT "@, Seq::<char>::empty()];
        assert(sql =~= bare_join(pieces));
        assert(bare_pieces(pieces));
        lemma_bare_join_binds(pieces, params, 0, "user_id = "@);
        lemma_bare_join_binds(pieces, params, 1, "timestamp >= "@);
        lemma_bare_join_binds(pieces, params, 2, "timestamp <= "@);
        lemma_bare_join_binds(pieces, params, 3, "LIMIT "@);
}

proof fn lemma_screen_activity_binds_case2(
    user_id: &str,
    start: Option<&str>,
    end: Option<&str>,
    app: Option<&str>,
    limit: i32,
)
    requires
        start is Some && end is None && app is Some,
    ensures
        screen_activity_binds(
            StatementView {
                sql: screen_activity_sql(start is Some, end is Some, app is Some),
                params: screen_activity_params(user_id, start, end, app, limit),
            },
            user_id,
            start,
            end,
            app,
            limit,
        ),
{
    reveal_strlit("SELECT id, timestamp, app_name, window_title, ocr_text, embedding FROM screen_activity WHERE user_id = ");
    reveal_strlit(" AND timestamp >= ");
    reveal_strlit(" AND timestamp <= ");
    reveal_strlit(" AND app_name = ");
    reveal_strlit(" ORDER BY timestamp ASC LIMIT ");
    reveal_strlit("SELECT id, timestamp, app_name, window_title, ocr_text, embedding FROM screen_activity WHERE user_id = ?");
    reveal_strlit(" AND timestamp >= ?");
    reveal_strlit(" AND timestamp <= ?");
    reveal_strlit(" AND app_name = ?");
    reveal_strlit(" ORDER BY timestamp ASC LIMIT ?");
    reveal_strlit(" ORDER BY timestamp ASC LIMIT ");
    reveal_strlit("user_id = ");
    reveal_strlit("timestamp >= ");
    reveal_strlit("timestamp <= ");
    reveal_strlit("app_name = ");
    reveal_strlit("LIMIT ");
    reveal_with_fuel(bare_join, 8);
    let sql = screen_activity_sql(start is Some, end is Some, app is Some);
    let params = screen_activity_params(user_id, start, end, app, limit);
        let pieces = seq!["SELECT id, timestamp, app_name, window_title, ocr_text, embedding FROM screen_activity WHERE user_id = "@, " AND timestamp >= "@, " AND app_name = "@, " ORDER BY timestamp ASC LIMIT "@, Seq::<char>::empty()];
        assert(sql =~= bare_join(pieces));
        assert(bare_pieces(pieces));
        lemma_bare_join_binds(pieces, params, 0, "user_id = "@);
        lemma_bare_join_binds(pieces, params, 1, "timestamp >= "@);
        lemma_bare_join_binds(pieces, params, 2, "app_name = "@);
        lemma_bare_join_binds(pieces, params, 3, "LIMIT "@);
}

proof fn lemma_screen_activity_binds_case3(
    user_id: &str,
    start: Option<&str>,
    end: Option<&str>,
    app: Option<&str>,
    limit: i32,
)
    requires
        start is Some && end is None && app is None,
    ensures
        screen_activity_binds(
            StatementView {
                sql: screen_activity_sql(start is Some, end is Some, app is Some),
                params: screen_activity_params(user_id, start, end, app, limit),
            },
            user_id,
            start,
            end,
            app,
            limit,
        ),
{
    reveal_strlit("SELECT id, timestamp, app_name, window_title, ocr_text, embedding FROM screen_activity WHERE user_id = ");
    reveal_strlit(" AND timestamp >= ");
    reveal_strlit(" AND timestamp <= ");
    reveal_strlit(" AND app_name = ");
    reveal_strlit(" ORDER BY timestamp ASC LIMIT ");
    reveal_strlit("SELECT id, timestamp, app_name, window_title, ocr_text, embedding FROM screen_activity WHERE user_id = ?");
    reveal_strlit(" AND timestamp >= ?");
    reveal_strlit(" AND timestamp <= ?");
    reveal_strlit(" AND app_name = ?");
    reveal_strlit(" ORDER BY timestamp ASC LIMIT ?");
    reveal_strlit(" ORDER BY timestamp ASC LIMIT ");
    reveal_strlit("user_id = ");
    reveal_strlit("timestamp >= ");
    reveal_strlit("timestamp <= ");
    reveal_strlit("app_name = ");
    reveal_strlit("LIMIT ");
    reveal_with_fuel(bare_join, 8);
    let sql = screen_activity_sql(start is Some, end is Some, app is Some);
    let params = screen_activity_params(user_id, start, end, app, limit);
        let pieces = seq!["SELECT id, timestamp, app_name, window_title, ocr_text, embedding FROM screen_activity WHERE user_id = "@, " AND timestamp >= "@, " ORDER BY timestamp ASC LIMIT "@, Seq::<char>::empty()];
        assert(sql =~= bare_join(pieces));
        assert(bare_pieces(pieces));
        lemma_bare_join_binds(pieces, params, 0, "user_id = "@);
        lemma_bare_join_binds(pieces, params, 1, "timestamp >= "@);
        lemma_bare_join_binds(pieces, params, 2, "LIMIT "@);
}

proof fn lemma_screen_activity_binds_case4(
    user_id: &str,
    start: Option<&str>,
    end: Option<&str>,
    app: Option<&str>,
    limit: i32,
)
    requires
        start is None && end is Some && app is Some,
    ensures
        screen_activity_binds(
            StatementView {
                sql: screen_activity_sql(start is Some, end is Some, app is Some),
                params: screen_activity_params(user_id, start, end, app, limit),
            },
            user_id,
            start,
            end,
            app,
            limit,
        ),
{
    reveal_strlit("SELECT id, timestamp, app_name, window_title, ocr_text, embedding FROM screen_activity WHERE user_id = ");
    reveal_strlit(" AND timestamp >= ");
    reveal_strlit(" AND timestamp <= ");
    reveal_strlit(" AND app_name = ");
    reveal_strlit(" ORDER BY timestamp ASC LIMIT ");
    reveal_strlit("SELECT id, timestamp, app_name, window_title, ocr_text, embedding FROM screen_activity WHERE user_id = ?");
    reveal_strlit(" AND timestamp >= ?");
    reveal_strlit(" AND timestamp <= ?");
    reveal_strlit(" AND app_name = ?");
    reveal_strlit(" ORDER BY timestamp ASC LIMIT ?");
    reveal_strlit(" ORDER BY timestamp ASC LIMIT ");
    reveal_strlit("user_id = ");
    reveal_strlit("timestamp >= ");
    reveal_strlit("timestamp <= ");
    reveal_strlit("app_name = ");
    reveal_strlit("LIMIT ");
    reveal_with_fuel(bare_join, 8);
    let sql = screen_activity_sql(start is Some, end is Some, app is Some);
    let params = screen_activity_params(user_id, start, end, app, limit);
        let pieces = seq!["SELECT id, timestamp, app_name, window_title, ocr_text, embedding FROM screen_activity WHERE user_id = "@, " AND timestamp <= "@, " AND app_name = "@, " ORDER BY timestamp ASC LIMIT "@, Seq::<char>::empty()];
        assert(sql =~= bare_join(pieces));
        assert(bare_pieces(pieces));
        lemma_bare_join_binds(pieces, params, 0, "user_id = "@);
        lemma_bare_join_binds(pieces, params, 1, "timestamp <= "@);
        lemma_bare_join_binds(pieces, params, 2, "app_name = "@);
        lemma_bare_join_binds(pieces, params, 3, "LIMIT "@);
}

proof fn lemma_screen_activity_binds_case5(
    user_id: &str,
    start: Option<&str>,
    end: Option<&str>,
    app: Option<&str>,
    limit: i32,
)
    requires
        start is None && end is Some && app is None,
    ensures
        screen_activity_binds(
            StatementView {
                sql: screen_activity_sql(start is Some, end is Some, app is Some),
                params: screen_activity_params(user_id, start, end, app, limit),
            },
            user_id,
            start,
            end,
            app,
            limit,
        ),
{
    reveal_strlit("SELECT id, timestamp, app_name, window_title, ocr_text, embedding FROM screen_activity WHERE user_id = ");
    reveal_strlit(" AND timestamp >= ");
    reveal_strlit(" AND timestamp <= ");
    reveal_strlit(" AND app_name = ");
    reveal_strlit(" ORDER BY timestamp ASC LIMIT ");
    reveal_strlit("SELECT id, timestamp, app_name, window_title, ocr_text, embedding FROM screen_activity WHERE user_id = ?");
    reveal_strlit(" AND timestamp >= ?");
    reveal_strlit(" AND timestamp <= ?");
    reveal_strlit(" AND app_name = ?");
    reveal_strlit(" ORDER BY timestamp ASC LIMIT ?");
    reveal_strlit(" ORDER BY timestamp ASC LIMIT ");
    reveal_strlit("user_id = ");
    reveal_strlit("timestamp >= ");
    reveal_strlit("timestamp <= ");
    reveal_strlit("app_name = ");
    reveal_strlit("LIMIT ");
    reveal_with_fuel(bare_join, 8);
    let sql = screen_activity_sql(start is Some, end is Some, app is Some);
    let params = screen_activity_params(user_id, start, end, app, limit);
        let pieces = seq!["SELECT id, timestamp, app_name, window_title, ocr_text, embedding FROM screen_activity WHERE user_id = "@, " AND timestamp <= "@, " ORDER BY timestamp ASC LIMIT "@, Seq::<char>::empty()];
        assert(sql =~= bare_join(pieces));
        assert(bare_pieces(pieces));
        lemma_bare_join_binds(pieces, params, 0, "user_id = "@);
        lemma_bare_join_binds(pieces, params, 1, "timestamp <= "@);
        lemma_bare_join_binds(pieces, params, 2, "LIMIT "@);
}

proof fn lemma_screen_activity_binds_case6(
    user_id: &str,
    start: Option<&str>,
    end: Option<&str>,
    app: Option<&str>,
    limit: i32,
)
    requires
        start is None && end is None && app is Some,
    ensures
        screen_activity_binds(
            StatementView {
                sql: screen_activity_sql(start is Some, end is Some, app is Some),
                params: screen_activity_params(user_id, start, end, app, limit),
            },
            user_id,
            start,
            end,
            app,
            limit,
        ),
{
    reveal_strlit("SELECT id, timestamp, app_name, window_title, ocr_text, embedding FROM screen_activity WHERE user_id = ");
    reveal_strlit(" AND timestamp >= ");
    reveal_strlit(" AND timestamp <= ");
    reveal_strlit(" AND app_name = ");
    reveal_strlit(" ORDER BY timestamp ASC LIMIT ");
    reveal_strlit("SELECT id, timestamp, app_name, window_title, ocr_text, embedding FROM screen_activity WHERE user_id = ?");
    reveal_strlit(" AND timestamp >= ?");
    reveal_strlit(" AND timestamp <= ?");
    reveal_strlit(" AND app_name = ?");
    reveal_strlit(" ORDER BY timestamp ASC LIMIT ?");
    reveal_strlit(" ORDER BY timestamp ASC LIMIT ");
    reveal_strlit("user_id = ");
    reveal_strlit("timestamp >= ");
    reveal_strlit("timestamp <= ");
    reveal_strlit("app_name = ");
    reveal_strlit("LIMIT ");
    reveal_with_fuel(bare_join, 8);
    let sql = screen_activity_sql(start is Some, end is Some, app is Some);
    let params = screen_activity_params(user_id, start, end, app, limit);
        let pieces = seq!["SELECT id, timestamp, app_name, window_title, ocr_text, embedding FROM screen_activity WHERE user_id = "@, " AND app_name = "@, " ORDER BY timestamp ASC LIMIT "@, Seq::<char>::empty()];
        assert(sql =~= bare_join(pieces));
        assert(bare_pieces(pieces));
        lemma_bare_join_binds(pieces, params, 0, "user_id = "@);
        lemma_bare_join_binds(pieces, params, 1, "app_name = "@);
        lemma_bare_join_binds(pieces, params, 2, "LIMIT "@);
}

proof fn lemma_screen_activity_binds_case7(
    user_id: &str,
    start: Option<&str>,
    end: Option<&str>,
    app: Option<&str>,
    limit: i32,
)
    requires
        start is None && end is None && app is None,
    ensures
        screen_activity_binds(
            StatementView {
                sql: screen_activity_sql(start is Some, end is Some, app is Some),
                params: screen_activity_params(user_id, start, end, app, limit),
            },
            user_id,
            start,
            end,
            app,
            limit,
        ),
{
    reveal_strlit("SELECT id, timestamp, app_name, window_title, ocr_text, embedding FROM screen_activity WHERE user_id = ");
    reveal_strlit(" AND timestamp >= ");
    reveal_strlit(" AND timestamp <= ");
    reveal_strlit(" AND app_name = ");
    reveal_strlit(" ORDER BY timestamp ASC LIMIT ");
    reveal_strlit("SELECT id, timestamp, app_name, window_title, ocr_text, embedding FROM screen_activity WHERE user_id = ?");
    reveal_strlit(" AND timestamp >= ?");
    reveal_strlit(" AND timestamp <= ?");
    reveal_strlit(" AND app_name = ?");
    reveal_strlit(" ORDER BY timestamp ASC LIMIT ?");
    reveal_strlit(" ORDER BY timestamp ASC LIMIT ");
    reveal_strlit("user_id = ");
    reveal_strlit("timestamp >= ");
    reveal_strlit("timestamp <= ");
    reveal_strlit("app_name = ");
    reveal_strlit("LIMIT ");
    reveal_with_fuel(bare_join, 8);
    let sql = screen_activity_sql(start is Some, end is Some, app is Some);
    let params = screen_activity_params(user_id, start, end, app, limit);
        let pieces = seq!["SELECT id, timestamp, app_name, window_title, ocr_text, embedding FROM screen_activity WHERE user_id = "@, " ORDER BY timestamp ASC LIMIT "@, Seq::<char>::empty()];
        assert(sql =~= bare_join(pieces));
        assert(bare_pieces(pieces));
        lemma_bare_join_binds(pieces, params, 0, "user_id = "@);
        lemma_bare_join_binds(pieces, params, 1, "LIMIT "@);
}

/// Law: the sample query binds the start date to the lower time bound, the
/// end date to the upper one, the application to its filter, the user and the
/// limit, whichever filters are given.
pub proof fn lemma_screen_activity_binds(
    user_id: &str,
    start: Option<&str>,
    end: Option<&str>,
    app: Option<&str>,
    limit: i32,
)
    ensures
        screen_activity_binds(
            StatementView {
                sql: screen_activity_sql(start is Some, end is Some, app is Some),
                params: screen_activity_params(user_id, start, end, app, limit),
            },
            user_id,
            start,
            end,
            app,
            limit,
        ),
{
    if start is Some && end is Some && app is Some {
        lemma_screen_activity_binds_case0(user_id, start, end, app, limit);
    }
    if start is Some && end is Some && app is None {
        lemma_screen_activity_binds_case1(user_id, start, end, app, limit);
    }
    if start is Some && end is None && app is Some {
        lemma_screen_activity_binds_case2(user_id, start, end, app, limit);
    }
    if start is Some && end is None && app is None {
        lemma_screen_activity_binds_case3(user_id, start, end, app, limit);
    }
    if start is None && end is Some && app is Some {
        lemma_screen_activity_binds_case4(user_id, start, end, app, limit);
    }
    if start is None && end is Some && app is None {
        lemma_screen_activity_binds_case5(user_id, start, end, app, limit);
    }
    if start is None && end is None && app is Some {
        lemma_screen_activity_binds_case6(user_id, start, end, app, limit);
    }
    if start is None && end is None && app is None {
        lemma_screen_activity_binds_case7(user_id, start, end, app, limit);
    }
}

/// Builds the sample query.
pub fn get_screen_activity(user_id: &str, start_date: Option<&str>, end_date: Option<&str>, app_filter: Option<&str>, limit: i32) -> (st: Statement)
    ensures
        st@.sql == screen_activity_sql(start_date is Some, end_date is Some, app_filter is Some),
        st@.params == screen_activity_params(user_id, start_date, end_date, app_filter, limit),
        screen_activity_binds(st@, user_id, start_date, end_date, app_filter, limit),
{
    let mut sql = owned("SELECT id, timestamp, app_name, window_title, ocr_text, embedding FROM screen_activity WHERE user_id = ?");
    let mut p: Vec<SqlValue> = Vec::new();
    p.push(text(user_id));
    let ghost s0 = sql@;
    let ghost p0 = values_view(p@);
    if let Some(s) = start_date {
        sql.append(" AND timestamp >= ?");
        p.push(text(s));
    }
    let ghost s1 = sql@;
    let ghost p1 = values_view(p@);
    assert(s1 =~= s0 + (if start_date is Some { " AND timestamp >= ?"@ } else { seq![] }));
    assert(p1 =~= p0 + (match start_date { Some(s) => seq![SqlValueView::Text(s@)], None => seq![] }));
    if let Some(s) = end_date {
        sql.append(" AND timestamp <= ?");
        p.push(text(s));
    }
    let ghost s2 = sql@;
    let ghost p2 = values_view(p@);
    assert(s2 =~= s1 + (if end_date is Some { " AND timestamp <= ?"@ } else { seq![] }));
    assert(p2 =~= p1 + (match end_date { Some(s) => seq![SqlValueView::Text(s@)], None => seq![] }));
    if let Some(a) = app_filter {
        sql.append(" AND app_name = ?");
        p.push(text(a));
    }
    let ghost s3 = sql@;
    let ghost p3 = values_view(p@);
    assert(s3 =~= s2 + (if app_filter is Some { " AND app_name = ?"@ } else { seq![] }));
    assert(p3 =~= p2 + (match app_filter { Some(s) => seq![SqlValueView::Text(s@)], None => seq![] }));
    sql.append(" ORDER BY timestamp ASC LIMIT ?");
    p.push(SqlValue::Integer(limit as i64));
    assert(values_view(p@) =~= p3 + seq![SqlValueView::Integer(limit as i64)]);
    assert(p0 =~= seq![SqlValueView::Text(user_id@)]);
    assert(sql@ =~= screen_activity_sql(start_date is Some, end_date is Some, app_filter is Some));
    assert(values_view(p@) =~= screen_activity_params(user_id, start_date, end_date, app_filter, limit));
    proof {
        lemma_screen_activity_binds(user_id, start_date, end_date, app_filter, limit);
    }
    Statement { sql, params: p }
}

} // verus!
