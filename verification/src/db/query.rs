//! Statements as sequences of pieces: SQL text to append and values to
//! bind, in the order a query builder receives them. The pieces of a
//! statement are all the library decides; sending it is left to the caller.
use vstd::prelude::*;
use vstd::string::*;
use crate::chunks::{chunk_bounds, chunk_count, chunk_end};
use crate::date::Date;
use crate::db::DB_INSERT_CHUNK_SIZE;
use crate::text::{copy_opt_text, opt_text_view, push_char};

verus! {

/// A value bound to a statement.
pub enum SqlValue {
    Text(String),
    OptText(Option<String>),
    I64(i64),
    OptI64(Option<i64>),
    I32(i32),
    OptI32(Option<i32>),
    U64(u64),
    Bool(bool),
    Date(Date),
    OptDate(Option<Date>),
}

/// A bound value as a plain value.
pub enum SqlValueView {
    Text(Seq<char>),
    OptText(Option<Seq<char>>),
    I64(i64),
    OptI64(Option<i64>),
    I32(i32),
    OptI32(Option<i32>),
    U64(u64),
    Bool(bool),
    Date(Date),
    OptDate(Option<Date>),
}

impl View for SqlValue {
    type V = SqlValueView;

    open spec fn view(&self) -> SqlValueView {
        match self {
            SqlValue::Text(s) => SqlValueView::Text(s@),
            SqlValue::OptText(s) => SqlValueView::OptText(opt_text_view(*s)),
            SqlValue::I64(v) => SqlValueView::I64(*v),
            SqlValue::OptI64(v) => SqlValueView::OptI64(*v),
            SqlValue::I32(v) => SqlValueView::I32(*v),
            SqlValue::OptI32(v) => SqlValueView::OptI32(*v),
            SqlValue::U64(v) => SqlValueView::U64(*v),
            SqlValue::Bool(v) => SqlValueView::Bool(*v),
            SqlValue::Date(v) => SqlValueView::Date(*v),
            SqlValue::OptDate(v) => SqlValueView::OptDate(*v),
        }
    }
}

impl SqlValue {
    /// A copy of the value.
    pub fn duplicate(&self) -> (r: SqlValue)
        ensures
            r@ == self@,
    {
        match self {
            SqlValue::Text(s) => SqlValue::Text(s.clone()),
            SqlValue::OptText(s) => SqlValue::OptText(copy_opt_text(s)),
            SqlValue::I64(v) => SqlValue::I64(*v),
            SqlValue::OptI64(v) => SqlValue::OptI64(*v),
            SqlValue::I32(v) => SqlValue::I32(*v),
            SqlValue::OptI32(v) => SqlValue::OptI32(*v),
            SqlValue::U64(v) => SqlValue::U64(*v),
            SqlValue::Bool(v) => SqlValue::Bool(*v),
            SqlValue::Date(v) => SqlValue::Date(*v),
            SqlValue::OptDate(v) => SqlValue::OptDate(*v),
        }
    }
}

/// A piece of a statement: text to append, or a value to bind.
pub enum SqlPiece {
    Sql(String),
    Bind(SqlValue),
}

/// A piece of a statement as a plain value.
pub enum SqlPieceView {
    Sql(Seq<char>),
    Bind(SqlValueView),
}

impl View for SqlPiece {
    type V = SqlPieceView;

    open spec fn view(&self) -> SqlPieceView {
        match self {
            SqlPiece::Sql(s) => SqlPieceView::Sql(s@),
            SqlPiece::Bind(v) => SqlPieceView::Bind(v@),
        }
    }
}

/// The pieces of a statement as plain values.
pub open spec fn pieces_view(p: Seq<SqlPiece>) -> Seq<SqlPieceView> {
    p.map_values(|x: SqlPiece| x@)
}

/// Bound values as plain values.
pub open spec fn values_view(vs: Seq<SqlValue>) -> Seq<SqlValueView> {
    vs.map_values(|v: SqlValue| v@)
}

/// Appends literal SQL text.
pub fn push_sql(pieces: &mut Vec<SqlPiece>, text: &str)
    ensures
        pieces_view(final(pieces)@) == pieces_view(old(pieces)@).push(SqlPieceView::Sql(text@)),
{
    pieces.push(SqlPiece::Sql(text.to_owned()));
    assert(pieces_view(pieces@) =~= pieces_view(old(pieces)@).push(SqlPieceView::Sql(text@)));
}

/// Appends a value to bind.
pub fn push_bind(pieces: &mut Vec<SqlPiece>, value: SqlValue)
    ensures
        pieces_view(final(pieces)@) == pieces_view(old(pieces)@).push(SqlPieceView::Bind(value@)),
{
    let ghost v = value@;
    pieces.push(SqlPiece::Bind(value));
    assert(pieces_view(pieces@) =~= pieces_view(old(pieces)@).push(SqlPieceView::Bind(v)));
}

// ---------------------------------------------------------------- VALUES lists

/// Bound values separated by `", "`.
pub open spec fn separated_binds(vs: Seq<SqlValueView>) -> Seq<SqlPieceView>
    decreases vs.len(),
{
    if vs.len() == 0 {
        Seq::empty()
    } else if vs.len() == 1 {
        seq![SqlPieceView::Bind(vs[0])]
    } else {
        separated_binds(vs.drop_last()) + seq![SqlPieceView::Sql(", "@), SqlPieceView::Bind(vs.last())]
    }
}

/// A parenthesised tuple of bound values.
pub open spec fn tuple_pieces(vs: Seq<SqlValueView>) -> Seq<SqlPieceView> {
    seq![SqlPieceView::Sql("("@)] + separated_binds(vs) + seq![SqlPieceView::Sql(")"@)]
}

/// Tuples separated by `", "`.
pub open spec fn separated_tuples(rows: Seq<Seq<SqlValueView>>) -> Seq<SqlPieceView>
    decreases rows.len(),
{
    if rows.len() == 0 {
        Seq::empty()
    } else if rows.len() == 1 {
        tuple_pieces(rows[0])
    } else {
        separated_tuples(rows.drop_last()) + seq![SqlPieceView::Sql(", "@)] + tuple_pieces(
            rows.last(),
        )
    }
}

/// The `VALUES` list of an insert: `VALUES ` and the rows as tuples.
pub open spec fn values_clause(rows: Seq<Seq<SqlValueView>>) -> Seq<SqlPieceView> {
    seq![SqlPieceView::Sql("VALUES "@)] + separated_tuples(rows)
}

/// Which values of an item a statement binds: those it stores, or those
/// that identify it.
#[derive(Clone, Copy, PartialEq, Eq, Structural)]
pub enum RowKind {
    Stored,
    Key,
}

/// Items stored as rows of a table.
pub trait TableRow {
    /// The values bound for the item.
    spec fn row(&self, kind: RowKind) -> Seq<SqlValueView>;

    fn row_values(&self, kind: RowKind) -> (r: Vec<SqlValue>)
        ensures
            values_view(r@) == self.row(kind),
    ;
}

/// The rows of the items at `positions`.
pub open spec fn rows_at<T: TableRow>(items: Seq<T>, positions: Seq<usize>, kind: RowKind) -> Seq<
    Seq<SqlValueView>,
> {
    positions.map_values(|p: usize| items[p as int].row(kind))
}

/// Every position is one of an item.
pub open spec fn valid_positions(positions: Seq<usize>, n: int) -> bool {
    forall|k: int| 0 <= k < positions.len() ==> #[trigger] positions[k] < n
}

/// Appends bound values separated by `", "`.
pub fn push_separated_binds(pieces: &mut Vec<SqlPiece>, values: &Vec<SqlValue>)
    ensures
        pieces_view(final(pieces)@) == pieces_view(old(pieces)@) + separated_binds(values_view(values@)),
{
    let ghost start = pieces_view(pieces@);
    let mut i: usize = 0;
    proof {
        assert(values_view(values@.take(0)) =~= Seq::<SqlValueView>::empty());
        assert(pieces_view(pieces@) =~= start + separated_binds(values_view(values@.take(0))));
    }
    while i < values.len()
        invariant
            i <= values@.len(),
            pieces_view(pieces@) == start + separated_binds(values_view(values@.take(i as int))),
        decreases values@.len() - i,
    {
        if i > 0 {
            push_sql(pieces, ", ");
        }
        push_bind(pieces, values[i].duplicate());
        proof {
            let vs = values_view(values@.take(i + 1));
            assert(vs.drop_last() =~= values_view(values@.take(i as int)));
            assert(vs.last() == values@[i as int]@);
            if i == 0 {
                assert(vs.len() == 1);
                assert(vs[0] == values@[0]@);
            }
            assert(pieces_view(pieces@) =~= start + separated_binds(vs));
        }
        i = i + 1;
    }
    assert(values@.take(values@.len() as int) =~= values@);
}

/// Appends a tuple of bound values.
pub fn push_tuple(pieces: &mut Vec<SqlPiece>, values: &Vec<SqlValue>)
    ensures
        pieces_view(final(pieces)@) == pieces_view(old(pieces)@) + tuple_pieces(values_view(values@)),
{
    let ghost start = pieces_view(pieces@);
    push_sql(pieces, "(");
    push_separated_binds(pieces, values);
    push_sql(pieces, ")");
    assert(pieces_view(pieces@) =~= start + tuple_pieces(values_view(values@)));
}

/// Appends the tuples of the items at `positions[lo..hi]`, separated by
/// `", "`.
pub fn push_tuples<T: TableRow>(
    pieces: &mut Vec<SqlPiece>,
    items: &[T],
    positions: &[usize],
    lo: usize,
    hi: usize,
    kind: RowKind,
)
    requires
        lo <= hi <= positions@.len(),
        valid_positions(positions@, items@.len() as int),
    ensures
        pieces_view(final(pieces)@) == pieces_view(old(pieces)@) + separated_tuples(
            rows_at(items@, positions@.subrange(lo as int, hi as int), kind),
        ),
{
    let ghost start = pieces_view(pieces@);
    let mut i: usize = lo;
    proof {
        assert(rows_at(items@, positions@.subrange(lo as int, lo as int), kind) =~= Seq::<
            Seq<SqlValueView>,
        >::empty());
        assert(pieces_view(pieces@) =~= start + separated_tuples(
            rows_at(items@, positions@.subrange(lo as int, lo as int), kind),
        ));
    }
    while i < hi
        invariant
            lo <= i <= hi <= positions@.len(),
            valid_positions(positions@, items@.len() as int),
            pieces_view(pieces@) == start + separated_tuples(
                rows_at(items@, positions@.subrange(lo as int, i as int), kind),
            ),
        decreases hi - i,
    {
        if i > lo {
            push_sql(pieces, ", ");
        }
        let p = positions[i];
        assert(p < items@.len());
        let values = items[p].row_values(kind);
        push_tuple(pieces, &values);
        proof {
            let rows = rows_at(items@, positions@.subrange(lo as int, i + 1), kind);
            assert(rows.drop_last() =~= rows_at(items@, positions@.subrange(lo as int, i as int), kind));
            assert(rows.last() == items@[p as int].row(kind));
            if i == lo {
                assert(rows.len() == 1);
                assert(rows[0] == items@[p as int].row(kind));
            }
            assert(pieces_view(pieces@) =~= start + separated_tuples(rows));
        }
        i = i + 1;
    }
}

/// Appends the `VALUES` list of the items at `positions[lo..hi]`, as a
/// query builder's `push_values` writes it.
pub fn push_values<T: TableRow>(
    pieces: &mut Vec<SqlPiece>,
    items: &[T],
    positions: &[usize],
    lo: usize,
    hi: usize,
    kind: RowKind,
)
    requires
        lo <= hi <= positions@.len(),
        valid_positions(positions@, items@.len() as int),
    ensures
        pieces_view(final(pieces)@) == pieces_view(old(pieces)@) + values_clause(
            rows_at(items@, positions@.subrange(lo as int, hi as int), kind),
        ),
{
    let ghost start = pieces_view(pieces@);
    push_sql(pieces, "VALUES ");
    push_tuples(pieces, items, positions, lo, hi, kind);
    assert(pieces_view(pieces@) =~= start + values_clause(
        rows_at(items@, positions@.subrange(lo as int, hi as int), kind),
    ));
}

/// The positions of all `n` items, in order.
pub fn all_positions(n: usize) -> (r: Vec<usize>)
    ensures
        r@.len() == n,
        forall|k: int| 0 <= k < n ==> #[trigger] r@[k] == k,
{
    let mut r: Vec<usize> = Vec::new();
    let mut i: usize = 0;
    while i < n
        invariant
            i <= n,
            r@.len() == i,
            forall|k: int| 0 <= k < i ==> #[trigger] r@[k] == k,
        decreases n - i,
    {
        r.push(i);
        i = i + 1;
    }
    r
}

/// The rows of all the items.
pub open spec fn rows_of<T: TableRow>(items: Seq<T>, kind: RowKind) -> Seq<Seq<SqlValueView>> {
    items.map_values(|t: T| t.row(kind))
}

/// An insert: its head, the `VALUES` list of the rows and its tail.
pub open spec fn insert_pieces(head: Seq<char>, rows: Seq<Seq<SqlValueView>>, tail: Seq<char>) -> Seq<
    SqlPieceView,
> {
    seq![SqlPieceView::Sql(head)] + values_clause(rows) + seq![SqlPieceView::Sql(tail)]
}

/// The insert of the items at `positions[lo..hi]`.
pub fn insert_statement<T: TableRow>(
    head: &str,
    items: &[T],
    positions: &[usize],
    lo: usize,
    hi: usize,
    tail: &str,
    kind: RowKind,
) -> (r: Vec<SqlPiece>)
    requires
        lo <= hi <= positions@.len(),
        valid_positions(positions@, items@.len() as int),
    ensures
        pieces_view(r@) == insert_pieces(
            head@,
            rows_at(items@, positions@.subrange(lo as int, hi as int), kind),
            tail@,
        ),
{
    let mut r: Vec<SqlPiece> = Vec::new();
    push_sql(&mut r, head);
    push_values(&mut r, items, positions, lo, hi, kind);
    push_sql(&mut r, tail);
    assert(pieces_view(r@) =~= insert_pieces(
        head@,
        rows_at(items@, positions@.subrange(lo as int, hi as int), kind),
        tail@,
    ));
    r
}

/// The insert of all the items, in one statement; none when there are no
/// items.
pub fn insert_all_statement<T: TableRow>(head: &str, items: &[T], tail: &str, kind: RowKind) -> (r:
    Option<Vec<SqlPiece>>)
    ensures
        r is None <==> items@.len() == 0,
        r matches Some(p) ==> pieces_view(p@) == insert_pieces(head@, rows_of(items@, kind), tail@),
{
    if items.len() == 0 {
        return None;
    }
    let positions = all_positions(items.len());
    let r = insert_statement(head, items, positions.as_slice(), 0, positions.len(), tail, kind);
    assert(rows_at(items@, positions@.subrange(0, positions@.len() as int), kind) =~= rows_of(
        items@,
        kind,
    ));
    Some(r)
}

/// The inserts of the items at `positions`, one per chunk of
/// `DB_INSERT_CHUNK_SIZE` positions.
pub fn chunked_inserts<T: TableRow>(
    head: &str,
    items: &[T],
    positions: &[usize],
    tail: &str,
    kind: RowKind,
) -> (r: Vec<Vec<SqlPiece>>)
    requires
        valid_positions(positions@, items@.len() as int),
    ensures
        r@.len() == chunk_count(positions@.len() as int, DB_INSERT_CHUNK_SIZE as int),
        forall|k: int|
            0 <= k < r@.len() ==> pieces_view(#[trigger] r@[k]@) == insert_pieces(
                head@,
                rows_at(
                    items@,
                    positions@.subrange(
                        k * DB_INSERT_CHUNK_SIZE,
                        chunk_end(k, DB_INSERT_CHUNK_SIZE as int, positions@.len() as int),
                    ),
                    kind,
                ),
                tail@,
            ),
{
    let bounds = chunk_bounds(positions.len(), DB_INSERT_CHUNK_SIZE);
    let mut r: Vec<Vec<SqlPiece>> = Vec::new();
    let mut k: usize = 0;
    while k < bounds.len()
        invariant
            k <= bounds@.len(),
            r@.len() == k,
            valid_positions(positions@, items@.len() as int),
            crate::chunks::is_chunking(bounds@, positions@.len() as int, DB_INSERT_CHUNK_SIZE as int),
            forall|j: int|
                0 <= j < k ==> pieces_view(#[trigger] r@[j]@) == insert_pieces(
                    head@,
                    rows_at(
                        items@,
                        positions@.subrange(
                            j * DB_INSERT_CHUNK_SIZE,
                            chunk_end(j, DB_INSERT_CHUNK_SIZE as int, positions@.len() as int),
                        ),
                        kind,
                    ),
                    tail@,
                ),
        decreases bounds@.len() - k,
    {
        let (lo, hi) = bounds[k];
        assert(bounds@[k as int].0 == k * DB_INSERT_CHUNK_SIZE);
        proof {
            assert(k * DB_INSERT_CHUNK_SIZE <= chunk_end(k as int, DB_INSERT_CHUNK_SIZE as int, positions@.len() as int)) by (nonlinear_arith)
                requires
                    k < (positions@.len() + DB_INSERT_CHUNK_SIZE - 1) / (DB_INSERT_CHUNK_SIZE as int),
                    DB_INSERT_CHUNK_SIZE == 1000,
            {
                assert(k * 1000 < positions@.len());
            }
        }
        let statement = insert_statement(head, items, positions, lo, hi, tail, kind);
        r.push(statement);
        k = k + 1;
    }
    r
}

/// A query narrowed by a clause on a bound value.
pub fn where_query(base: &str, clause: &str, value: SqlValue) -> (r: Vec<SqlPiece>)
    ensures
        pieces_view(r@) == seq![
            SqlPieceView::Sql(base@),
            SqlPieceView::Sql(clause@),
            SqlPieceView::Bind(value@),
        ],
{
    let ghost v = value@;
    let mut r: Vec<SqlPiece> = Vec::new();
    push_sql(&mut r, base);
    push_sql(&mut r, clause);
    push_bind(&mut r, value);
    assert(pieces_view(r@) =~= seq![
        SqlPieceView::Sql(base@),
        SqlPieceView::Sql(clause@),
        SqlPieceView::Bind(v),
    ]);
    r
}

/// The delete of the rows not matching one of the keys of the items:
/// `head`, the key tuples separated by `", "`, and `)`; none when there are
/// no items.
pub fn delete_not_in<T: TableRow>(head: &str, items: &[T]) -> (r: Option<Vec<SqlPiece>>)
    ensures
        r is None <==> items@.len() == 0,
        r matches Some(p) ==> pieces_view(p@) == seq![SqlPieceView::Sql(head@)] + separated_tuples(
            rows_of(items@, RowKind::Key),
        ) + seq![SqlPieceView::Sql(")"@)],
{
    if items.len() == 0 {
        return None;
    }
    let positions = all_positions(items.len());
    let mut r: Vec<SqlPiece> = Vec::new();
    push_sql(&mut r, head);
    push_tuples(&mut r, items, positions.as_slice(), 0, positions.len(), RowKind::Key);
    push_sql(&mut r, ")");
    assert(rows_at(items@, positions@.subrange(0, positions@.len() as int), RowKind::Key) =~= rows_of(
        items@,
        RowKind::Key,
    ));
    assert(pieces_view(r@) =~= seq![SqlPieceView::Sql(head@)] + separated_tuples(
        rows_of(items@, RowKind::Key),
    ) + seq![SqlPieceView::Sql(")"@)]);
    Some(r)
}

// ---------------------------------------------------------------- retaining rows

/// The decimal digit with value `d`.
pub open spec fn digit_char(d: u128) -> char {
    ((d + 48) as u8) as char
}

/// The decimal numeral of `n`, without leading zeros.
pub open spec fn decimal(n: u128) -> Seq<char>
    decreases n,
{
    if n < 10 {
        seq![digit_char(n)]
    } else {
        decimal(n / 10).push(digit_char(n % 10))
    }
}

/// Writes `n` in decimal.
pub fn decimal_text(n: u128) -> (r: String)
    ensures
        r@ == decimal(n),
    decreases n,
{
    if n < 10 {
        let mut s = String::new();
        push_char(&mut s, ((n as u8) + 48) as char);
        s
    } else {
        let mut s = decimal_text(n / 10);
        push_char(&mut s, (((n % 10) as u8) + 48) as char);
        s
    }
}

/// The statements that delete the rows whose keys are not among some
/// items: a statement that creates a temporary table, inserts of the kept
/// keys into it, and the delete.
pub struct RetainStatements {
    pub create: Vec<SqlPiece>,
    pub inserts: Vec<Vec<SqlPiece>>,
    pub delete: Vec<SqlPiece>,
}

/// The name of the temporary table of kept keys of `table`, made unique by
/// a timestamp.
pub open spec fn temp_table_name(table: Seq<char>, timestamp: u128) -> Seq<char> {
    "temp_retain_"@ + table + "_"@ + decimal(timestamp)
}

/// `inserts` insert `rows` after `head` and before `tail`, one statement
/// per chunk of `DB_INSERT_CHUNK_SIZE` rows.
pub open spec fn chunked_inserts_of(
    inserts: Seq<Vec<SqlPiece>>,
    head: Seq<char>,
    rows: Seq<Seq<SqlValueView>>,
    tail: Seq<char>,
) -> bool {
    &&& inserts.len() == chunk_count(rows.len() as int, DB_INSERT_CHUNK_SIZE as int)
    &&& forall|k: int|
        0 <= k < inserts.len() ==> pieces_view(#[trigger] inserts[k]@) == insert_pieces(
            head,
            rows.subrange(
                k * DB_INSERT_CHUNK_SIZE,
                chunk_end(k, DB_INSERT_CHUNK_SIZE as int, rows.len() as int),
            ),
            tail,
        )
}

/// The inserts of all the items, one per chunk of `DB_INSERT_CHUNK_SIZE`.
pub fn inserts_in_chunks<T: TableRow>(head: &str, items: &[T], tail: &str, kind: RowKind) -> (r: Vec<
    Vec<SqlPiece>,
>)
    ensures
        chunked_inserts_of(r@, head@, rows_of(items@, kind), tail@),
{
    let positions = all_positions(items.len());
    let r = chunked_inserts(head, items, positions.as_slice(), tail, kind);
    assert forall|k: int| 0 <= k < r@.len() implies pieces_view(#[trigger] r@[k]@) == insert_pieces(
        head@,
        rows_of(items@, kind).subrange(
            k * DB_INSERT_CHUNK_SIZE,
            chunk_end(k, DB_INSERT_CHUNK_SIZE as int, items@.len() as int),
        ),
        tail@,
    ) by {
        let lo = k * DB_INSERT_CHUNK_SIZE;
        let hi = chunk_end(k, DB_INSERT_CHUNK_SIZE as int, items@.len() as int);
        assert(0 <= lo <= hi <= items@.len()) by (nonlinear_arith)
            requires
                0 <= k < (items@.len() + DB_INSERT_CHUNK_SIZE - 1) / (DB_INSERT_CHUNK_SIZE as int),
                DB_INSERT_CHUNK_SIZE == 1000,
                lo == k * DB_INSERT_CHUNK_SIZE,
                hi == chunk_end(k, DB_INSERT_CHUNK_SIZE as int, items@.len() as int),
        {
            assert(k * 1000 < items@.len());
        }
        assert(rows_at(items@, positions@.subrange(lo, hi), kind) =~= rows_of(items@, kind).subrange(
            lo,
            hi,
        ));
    }
    r
}

/// `s` deletes the rows of `table` whose `column` is not the key of one of
/// `items`, through a temporary table named after the table and
/// `timestamp`.
pub open spec fn retains_keys<T: TableRow>(
    s: RetainStatements,
    table: Seq<char>,
    column: Seq<char>,
    items: Seq<T>,
    timestamp: u128,
) -> bool {
    let temp = temp_table_name(table, timestamp);
    &&& pieces_view(s.create@) == seq![
        SqlPieceView::Sql(
            "CREATE TEMPORARY TABLE "@ + temp + " (retain_key TEXT NOT NULL) ON COMMIT DROP"@,
        ),
    ]
    &&& chunked_inserts_of(
        s.inserts@,
        "INSERT INTO "@ + temp + " (retain_key) "@,
        rows_of(items, RowKind::Key),
        ""@,
    )
    &&& pieces_view(s.delete@) == seq![
        SqlPieceView::Sql(
            "DELETE FROM "@ + table + " WHERE "@ + column + "::TEXT NOT IN (SELECT retain_key FROM "@
                + temp + ")"@,
        ),
    ]
}

/// `s` creates the temporary table `create`, inserts the keys of `items`
/// into it after `head`, and deletes by `delete`.
pub open spec fn retains_with_keep_table<T: TableRow>(
    s: RetainStatements,
    create: Seq<char>,
    head: Seq<char>,
    delete: Seq<char>,
    items: Seq<T>,
) -> bool {
    &&& pieces_view(s.create@) == seq![SqlPieceView::Sql(create)]
    &&& chunked_inserts_of(s.inserts@, head, rows_of(items, RowKind::Key), ""@)
    &&& pieces_view(s.delete@) == seq![SqlPieceView::Sql(delete)]
}

/// The statements that keep only the rows matching the keys of `items`,
/// by a fixed temporary table; none when there are no items.
pub fn retain_with_keep_table<T: TableRow>(create: &str, head: &str, delete: &str, items: &[T]) -> (r:
    Option<RetainStatements>)
    ensures
        r is None <==> items@.len() == 0,
        r matches Some(s) ==> retains_with_keep_table(s, create@, head@, delete@, items@),
{
    if items.len() == 0 {
        return None;
    }
    let mut c: Vec<SqlPiece> = Vec::new();
    push_sql(&mut c, create);
    let inserts = inserts_in_chunks(head, items, "", RowKind::Key);
    let mut d: Vec<SqlPiece> = Vec::new();
    push_sql(&mut d, delete);
    assert(pieces_view(c@) =~= seq![SqlPieceView::Sql(create@)]);
    assert(pieces_view(d@) =~= seq![SqlPieceView::Sql(delete@)]);
    Some(RetainStatements { create: c, inserts, delete: d })
}

/// The statements by which the rows of `table` whose `column` is not the
/// key of one of `items` are deleted; none when there are no items, for
/// then nothing is deleted. The kept keys go to a temporary table named
/// after the table and `timestamp`.
pub fn retain_with_keys<T: TableRow>(table: &str, column: &str, items: &[T], timestamp: u128) -> (r:
    Option<RetainStatements>)
    ensures
        r is None <==> items@.len() == 0,
        r matches Some(s) ==> retains_keys(s, table@, column@, items@, timestamp),
{
    if items.len() == 0 {
        return None;
    }
    let mut temp = "temp_retain_".to_owned();
    temp.append(table);
    temp.append("_");
    let stamp = decimal_text(timestamp);
    temp.append(stamp.as_str());

    let mut create_text = "CREATE TEMPORARY TABLE ".to_owned();
    create_text.append(temp.as_str());
    create_text.append(" (retain_key TEXT NOT NULL) ON COMMIT DROP");
    let mut create: Vec<SqlPiece> = Vec::new();
    push_sql(&mut create, create_text.as_str());

    let mut head = "INSERT INTO ".to_owned();
    head.append(temp.as_str());
    head.append(" (retain_key) ");
    let inserts = inserts_in_chunks(head.as_str(), items, "", RowKind::Key);

    let mut delete_text = "DELETE FROM ".to_owned();
    delete_text.append(table);
    delete_text.append(" WHERE ");
    delete_text.append(column);
    delete_text.append("::TEXT NOT IN (SELECT retain_key FROM ");
    delete_text.append(temp.as_str());
    delete_text.append(")");
    let mut delete: Vec<SqlPiece> = Vec::new();
    push_sql(&mut delete, delete_text.as_str());
    assert(pieces_view(create@) =~= seq![SqlPieceView::Sql(create_text@)]);
    assert(pieces_view(delete@) =~= seq![SqlPieceView::Sql(delete_text@)]);
    Some(RetainStatements { create, inserts, delete })
}

} // verus!
