//! Leadership roles, the date filter of leadership queries, and the
//! international leadership.
use vstd::prelude::*;
use crate::date::Date;
use crate::chunks::chunk_end;
use crate::db::DB_INSERT_CHUNK_SIZE;
use crate::db::query::{
    RetainStatements, RowKind, SqlPiece, chunked_inserts_of, SqlPieceView, SqlValue, SqlValueView, TableRow,
    chunked_inserts, insert_all_statement, insert_pieces, pieces_view,
    push_bind, push_sql, retain_with_keep_table, retain_with_keys, rows_at, rows_of, values_view,
};
use crate::db::user::User;

verus! {

/// Which leadership terms a query returns.
#[derive(Clone, Copy, Debug, PartialEq, Eq, Structural)]
pub enum DateFilter {
    /// Terms active today.
    Current,
    /// All terms.
    All,
    /// Terms active on the given date.
    AsOf(Date),
}

impl Default for DateFilter {
    fn default() -> (r: DateFilter)
        ensures
            r == DateFilter::Current,
    {
        DateFilter::Current
    }
}

/// The clause a date filter adds to a query, after `WHERE` when the query
/// has none yet and after `AND` otherwise.
pub open spec fn date_filter_pieces(filter: DateFilter, has_where: bool) -> Seq<SqlPieceView> {
    let prefix = if has_where { " AND "@ } else { " WHERE "@ };
    match filter {
        DateFilter::Current => seq![
            SqlPieceView::Sql(prefix),
            SqlPieceView::Sql("start_date <= CURRENT_DATE AND (end_date IS NULL OR end_date >= CURRENT_DATE)"@),
        ],
        DateFilter::All => Seq::empty(),
        DateFilter::AsOf(date) => seq![
            SqlPieceView::Sql(prefix),
            SqlPieceView::Sql("start_date <= "@),
            SqlPieceView::Bind(SqlValueView::Date(date)),
            SqlPieceView::Sql(" AND (end_date IS NULL OR end_date >= "@),
            SqlPieceView::Bind(SqlValueView::Date(date)),
            SqlPieceView::Sql(")"@),
        ],
    }
}

/// Appends the clause of a date filter to a query.
pub fn apply_date_filter(query: &mut Vec<SqlPiece>, filter: &DateFilter, has_where: bool)
    ensures
        pieces_view(final(query)@) == pieces_view(old(query)@) + date_filter_pieces(*filter, has_where),
{
    let ghost start = pieces_view(query@);
    let prefix = if has_where { " AND " } else { " WHERE " };
    match filter {
        DateFilter::Current => {
            push_sql(query, prefix);
            push_sql(query, "start_date <= CURRENT_DATE AND (end_date IS NULL OR end_date >= CURRENT_DATE)");
        },
        DateFilter::All => {},
        DateFilter::AsOf(date) => {
            push_sql(query, prefix);
            push_sql(query, "start_date <= ");
            push_bind(query, SqlValue::Date(*date));
            push_sql(query, " AND (end_date IS NULL OR end_date >= ");
            push_bind(query, SqlValue::Date(*date));
            push_sql(query, ")");
        },
    }
    assert(pieces_view(query@) =~= start + date_filter_pieces(*filter, has_where));
}

/// A leadership role.
pub struct Role {
    pub uid: i64,
    pub title: String,
}

/// A term of international leadership.
pub struct Leadership {
    pub id: Option<i64>,
    pub user: User,
    pub role: Role,
    pub start_date: Date,
    pub end_date: Option<Date>,
}

impl TableRow for Role {
    open spec fn row(&self, kind: RowKind) -> Seq<SqlValueView> {
        match kind {
            RowKind::Stored => seq![SqlValueView::I64(self.uid), SqlValueView::Text(self.title@)],
            RowKind::Key => seq![SqlValueView::I64(self.uid)],
        }
    }

    fn row_values(&self, kind: RowKind) -> (r: Vec<SqlValue>) {
        let mut r: Vec<SqlValue> = Vec::new();
        r.push(SqlValue::I64(self.uid));
        if kind == RowKind::Stored {
            r.push(SqlValue::Text(self.title.clone()));
        }
        assert(values_view(r@) =~= self.row(kind));
        r
    }
}

impl TableRow for Leadership {
    open spec fn row(&self, kind: RowKind) -> Seq<SqlValueView> {
        let key = seq![
            SqlValueView::Text(self.user.id@),
            SqlValueView::I64(self.role.uid),
            SqlValueView::Date(self.start_date),
        ];
        match kind {
            RowKind::Stored => key.push(SqlValueView::OptDate(self.end_date)),
            RowKind::Key => key,
        }
    }

    fn row_values(&self, kind: RowKind) -> (r: Vec<SqlValue>) {
        let mut r: Vec<SqlValue> = Vec::new();
        r.push(SqlValue::Text(self.user.id.clone()));
        r.push(SqlValue::I64(self.role.uid));
        r.push(SqlValue::Date(self.start_date));
        if kind == RowKind::Stored {
            r.push(SqlValue::OptDate(self.end_date));
        }
        assert(values_view(r@) =~= self.row(kind));
        r
    }
}

// ---------------------------------------------------------------- unique terms

/// The identity of a leadership term: the entity led (0 where there is
/// none), the user's id, the role and the start date.
pub type TermKey = (i64, Seq<char>, i64, Date);

/// Leadership terms identified by a key.
pub trait LeadershipKey {
    spec fn key(&self) -> TermKey;

    fn same_key(&self, other: &Self) -> (r: bool)
        ensures
            r == (self.key() == other.key()),
    ;
}

impl LeadershipKey for Leadership {
    open spec fn key(&self) -> TermKey {
        (0i64, self.user.id@, self.role.uid, self.start_date)
    }

    fn same_key(&self, other: &Self) -> (r: bool) {
        self.user.id == other.user.id && self.role.uid == other.role.uid && self.start_date
            == other.start_date
    }
}

/// Two international terms share a key exactly when they bind the same key row:
/// terms that differ in the led entity, the user, the role or the start
/// date are never taken for duplicates.
pub proof fn lemma_key_is_key_row(a: Leadership, b: Leadership)
    ensures
        (a.key() == b.key()) <==> (a.row(RowKind::Key) =~= b.row(RowKind::Key)),
{
    let ra = a.row(RowKind::Key);
    let rb = b.row(RowKind::Key);
    if ra =~= rb {
        assert(ra[0] == rb[0]);
        assert(ra[1] == rb[1]);
        assert(ra[2] == rb[2]);
    }
}

/// `s[i]` is the first term with its key.
pub open spec fn first_of_key<T: LeadershipKey>(s: Seq<T>, i: int) -> bool {
    &&& 0 <= i < s.len()
    &&& forall|j: int| 0 <= j < i ==> (#[trigger] s[j]).key() != s[i].key()
}

/// The positions below `n` of the first term of each key, in order.
pub open spec fn first_positions<T: LeadershipKey>(s: Seq<T>, n: int) -> Seq<usize>
    decreases n,
{
    if n <= 0 {
        Seq::empty()
    } else {
        let p = first_positions(s, n - 1);
        if first_of_key(s, n - 1) {
            p.push((n - 1) as usize)
        } else {
            p
        }
    }
}

/// The positions of the first term of each key, in order: the terms an
/// upsert keeps, as `unique_by` on the key keeps them.
pub fn unique_by_key<T: LeadershipKey>(items: &[T]) -> (r: Vec<usize>)
    ensures
        r@ == first_positions(items@, items@.len() as int),
        forall|k: int| 0 <= k < r@.len() ==> first_of_key(items@, #[trigger] r@[k] as int),
        forall|k1: int, k2: int| 0 <= k1 < k2 < r@.len() ==> r@[k1] < r@[k2],
        forall|i: int| #[trigger] first_of_key(items@, i) ==> r@.contains(i as usize),
{
    let mut r: Vec<usize> = Vec::new();
    let mut i: usize = 0;
    while i < items.len()
        invariant
            i <= items@.len(),
            forall|k: int| 0 <= k < r@.len() ==> first_of_key(items@, #[trigger] r@[k] as int),
            forall|k: int| 0 <= k < r@.len() ==> #[trigger] r@[k] < i,
            forall|k1: int, k2: int| 0 <= k1 < k2 < r@.len() ==> r@[k1] < r@[k2],
            forall|j: int| 0 <= j < i && #[trigger] first_of_key(items@, j) ==> r@.contains(j as usize),
            r@ == first_positions(items@, i as int),
        decreases items@.len() - i,
    {
        let mut j: usize = 0;
        let mut seen = false;
        while j < i
            invariant
                j <= i < items@.len(),
                seen ==> exists|jj: int| 0 <= jj < i && (#[trigger] items@[jj]).key() == items@[i as int].key(),
                !seen ==> forall|jj: int| 0 <= jj < j ==> (#[trigger] items@[jj]).key() != items@[i as int].key(),
            decreases i - j,
        {
            if items[j].same_key(&items[i]) {
                seen = true;
            }
            j = j + 1;
        }
        let ghost before = r@;
        if !seen {
            r.push(i);
            proof {
                assert forall|jj: int| 0 <= jj < i + 1 && #[trigger] first_of_key(items@, jj) implies r@.contains(jj as usize) by {
                    if jj == i {
                        assert(r@[r@.len() - 1] == i);
                    } else {
                        assert(before.contains(jj as usize));
                        let k = choose|k: int| 0 <= k < before.len() && before[k] == jj as usize;
                        assert(r@[k] == before[k]);
                    }
                }
            }
            assert(first_of_key(items@, i as int));
        } else {
            proof {
                assert(!first_of_key(items@, i as int));
            }
        }
        i = i + 1;
    }
    r
}

/// What the kept positions below `n` are: increasing positions of first
/// terms, every first term below `n` among them.
pub proof fn lemma_first_positions<T: LeadershipKey>(s: Seq<T>, n: int)
    requires
        0 <= n <= s.len(),
        s.len() <= usize::MAX,
    ensures
        forall|k: int|
            0 <= k < first_positions(s, n).len() ==> first_of_key(s, #[trigger] first_positions(s, n)[k] as int)
                && first_positions(s, n)[k] < n,
        forall|k1: int, k2: int|
            0 <= k1 < k2 < first_positions(s, n).len() ==> #[trigger] first_positions(s, n)[k1]
                < #[trigger] first_positions(s, n)[k2],
        forall|j: int|
            0 <= j < n && #[trigger] first_of_key(s, j) ==> first_positions(s, n).contains(j as usize),
    decreases n,
{
    if n > 0 {
        lemma_first_positions(s, n - 1);
        let p = first_positions(s, n - 1);
        if first_of_key(s, n - 1) {
            let q = p.push((n - 1) as usize);
            assert(first_positions(s, n) == q);
            assert forall|k: int| 0 <= k < q.len() implies first_of_key(s, #[trigger] q[k] as int) && q[k] < n by {
                if k < p.len() {
                    assert(q[k] == p[k]);
                }
            }
            assert forall|k1: int, k2: int| 0 <= k1 < k2 < q.len() implies #[trigger] q[k1] < #[trigger] q[k2] by {
                assert(q[k1] == p[k1]);
                if k2 < p.len() {
                    assert(q[k2] == p[k2]);
                }
            }
            assert forall|j: int| 0 <= j < n && #[trigger] first_of_key(s, j) implies q.contains(j as usize) by {
                if j == n - 1 {
                    assert(q[q.len() - 1] == (n - 1) as usize);
                } else {
                    assert(p.contains(j as usize));
                    let k = choose|k: int| 0 <= k < p.len() && p[k] == j as usize;
                    assert(q[k] == p[k]);
                }
            }
        }
    }
}

/// Each term has a first term with its key at or before it.
pub proof fn lemma_has_first<T: LeadershipKey>(s: Seq<T>, i: int)
    requires
        0 <= i < s.len(),
    ensures
        exists|j: int| 0 <= j <= i && #[trigger] first_of_key(s, j) && s[j].key() == s[i].key(),
    decreases i,
{
    if !first_of_key(s, i) {
        let j = choose|j: int| 0 <= j < i && (#[trigger] s[j]).key() == s[i].key();
        lemma_has_first(s, j);
    } else {
        assert(first_of_key(s, i));
    }
}

/// An upsert keeps one term per key: the kept terms have distinct keys,
/// and every term's key is the key of a kept term.
pub proof fn lemma_unique_keys<T: LeadershipKey>(s: Seq<T>)
    requires
        s.len() <= usize::MAX,
    ensures
        forall|k1: int, k2: int|
            0 <= k1 < k2 < first_positions(s, s.len() as int).len() ==> (#[trigger] s[first_positions(
                s,
                s.len() as int,
            )[k1] as int]).key() != (#[trigger] s[first_positions(s, s.len() as int)[k2] as int]).key(),
        forall|i: int|
            0 <= i < s.len() ==> exists|k: int|
                0 <= k < first_positions(s, s.len() as int).len() && #[trigger] s[first_positions(
                    s,
                    s.len() as int,
                )[k] as int].key() == (#[trigger] s[i]).key(),
{
    let n = s.len() as int;
    lemma_first_positions(s, n);
    let fp = first_positions(s, n);
    assert forall|k1: int, k2: int| 0 <= k1 < k2 < fp.len() implies (#[trigger] s[fp[k1] as int]).key()
        != (#[trigger] s[fp[k2] as int]).key() by {
        assert(fp[k1] < fp[k2]);
        assert(first_of_key(s, fp[k2] as int));
    }
    assert forall|i: int| 0 <= i < n implies exists|k: int|
        0 <= k < fp.len() && #[trigger] s[fp[k] as int].key() == (#[trigger] s[i]).key() by {
        lemma_has_first(s, i);
        let j = choose|j: int| 0 <= j <= i && #[trigger] first_of_key(s, j) && s[j].key() == s[i].key();
        assert(fp.contains(j as usize));
        let k = choose|k: int| 0 <= k < fp.len() && fp[k] == j as usize;
        assert(s[fp[k] as int].key() == s[i].key());
    }
}

/// The rows of the first term of each key.
pub open spec fn unique_rows<T: TableRow + LeadershipKey>(items: Seq<T>, kind: RowKind) -> Seq<
    Seq<SqlValueView>,
> {
    rows_at(items, first_positions(items, items.len() as int), kind)
}

/// Every position kept by `first_positions` is one of an item.
pub proof fn lemma_first_positions_valid<T: LeadershipKey>(s: Seq<T>, n: int)
    requires
        n <= s.len(),
    ensures
        crate::db::query::valid_positions(first_positions(s, n), s.len() as int),
    decreases n,
{
    if n > 0 {
        lemma_first_positions_valid(s, n - 1);
    }
}

/// The inserts of the first term of each key, in chunks of
/// `DB_INSERT_CHUNK_SIZE`: later terms with a key already seen are left
/// out.
pub fn unique_inserts<T: TableRow + LeadershipKey>(head: &str, items: &[T], tail: &str) -> (r: Vec<
    Vec<SqlPiece>,
>)
    ensures
        chunked_inserts_of(r@, head@, unique_rows(items@, RowKind::Stored), tail@),
{
    let positions = unique_by_key(items);
    proof {
        lemma_first_positions_valid(items@, items@.len() as int);
    }
    let r = chunked_inserts(head, items, positions.as_slice(), tail, RowKind::Stored);
    assert forall|k: int| 0 <= k < r@.len() implies pieces_view(#[trigger] r@[k]@) == insert_pieces(
        head@,
        unique_rows(items@, RowKind::Stored).subrange(
            k * DB_INSERT_CHUNK_SIZE,
            chunk_end(k, DB_INSERT_CHUNK_SIZE as int, unique_rows(items@, RowKind::Stored).len() as int),
        ),
        tail@,
    ) by {
        let lo = k * DB_INSERT_CHUNK_SIZE;
        let hi = chunk_end(k, DB_INSERT_CHUNK_SIZE as int, positions@.len() as int);
        assert(0 <= lo <= hi <= positions@.len()) by (nonlinear_arith)
            requires
                0 <= k < (positions@.len() + DB_INSERT_CHUNK_SIZE - 1) / (DB_INSERT_CHUNK_SIZE as int),
                DB_INSERT_CHUNK_SIZE == 1000,
                lo == k * DB_INSERT_CHUNK_SIZE,
                hi == chunk_end(k, DB_INSERT_CHUNK_SIZE as int, positions@.len() as int),
        {
            assert(k * 1000 < positions@.len());
        }
        assert(rows_at(items@, positions@.subrange(lo, hi), RowKind::Stored) =~= unique_rows(
            items@,
            RowKind::Stored,
        ).subrange(lo, hi));
    }
    r
}

// ---------------------------------------------------------------- statements

/// The query of all leadership roles.
pub const ROLES_QUERY: &'static str = r#"
    SELECT
        uid,
        title
    FROM
        leadership_role
"#;

/// The query of the international leadership, to which a date filter adds
/// its clause.
pub const LEADERSHIP_QUERY: &'static str = r#"
    SELECT
        li.id,
        li.start_date,
        li.end_date,

        u.id,
        u.uid,
        u.email,
        u.first_name,
        u.last_name,

        r.uid as role_uid,
        r.title as role_title
    FROM
        leadership_international li
        JOIN users u ON u.id = li.user_id
        JOIN leadership_role r ON r.uid = li.role
"#;

/// The query of the international leadership terms that pass a filter.
pub fn all_query(filter: DateFilter) -> (r: Vec<SqlPiece>)
    ensures
        pieces_view(r@) == seq![SqlPieceView::Sql(LEADERSHIP_QUERY@)] + date_filter_pieces(filter, false),
{
    let mut r: Vec<SqlPiece> = Vec::new();
    push_sql(&mut r, LEADERSHIP_QUERY);
    apply_date_filter(&mut r, &filter, false);
    r
}

/// The head of the role upsert.
pub const ROLES_UPSERT_HEAD: &'static str = "INSERT INTO leadership_role(uid, title) ";

/// The tail of the role upsert.
pub const ROLES_UPSERT_TAIL: &'static str = r#"ON CONFLICT(uid) DO UPDATE SET
                title = excluded.title
            "#;

/// The statement that inserts or updates roles; none when there are none.
pub fn upsert_roles(roles: &[Role]) -> (r: Option<Vec<SqlPiece>>)
    ensures
        r is None <==> roles@.len() == 0,
        r matches Some(p) ==> pieces_view(p@) == insert_pieces(
            ROLES_UPSERT_HEAD@,
            rows_of(roles@, RowKind::Stored),
            ROLES_UPSERT_TAIL@,
        ),
{
    insert_all_statement(ROLES_UPSERT_HEAD, roles, ROLES_UPSERT_TAIL, RowKind::Stored)
}

/// The statements that delete the roles not among `roles`.
pub fn retain_roles(roles: &[Role], timestamp: u128) -> (r: Option<RetainStatements>)
    ensures
        r is None <==> roles@.len() == 0,
        r matches Some(s) ==> crate::db::query::retains_keys(s, "leadership_role"@, "uid"@, roles@, timestamp),
{
    retain_with_keys("leadership_role", "uid", roles, timestamp)
}

/// The head of the international leadership upsert.
pub const LEADERSHIP_UPSERT_HEAD: &'static str = r#"INSERT INTO leadership_international(
                    user_id,
                    role,
                    start_date,
                    end_date
                ) "#;

/// The tail of the international leadership upsert.
pub const LEADERSHIP_UPSERT_TAIL: &'static str = r#"ON CONFLICT(user_id, role, start_date) DO UPDATE SET
                    end_date = excluded.end_date
                "#;

/// The statements that insert or update international leadership terms,
/// the first term of each key only, in chunks.
pub fn upsert_leadership(leadership: &[Leadership]) -> (r: Vec<Vec<SqlPiece>>)
    ensures
        chunked_inserts_of(
            r@,
            LEADERSHIP_UPSERT_HEAD@,
            unique_rows(leadership@, RowKind::Stored),
            LEADERSHIP_UPSERT_TAIL@,
        ),
{
    unique_inserts(LEADERSHIP_UPSERT_HEAD, leadership, LEADERSHIP_UPSERT_TAIL)
}

/// The temporary table of kept international terms.
pub const KEEP_LEADERSHIP_TABLE: &'static str = r#"CREATE TEMP TABLE _keep_leadership_international (
            user_id TEXT,
            role BIGINT,
            start_date DATE
        ) ON COMMIT DROP"#;

/// The head of the inserts of kept international terms.
pub const KEEP_LEADERSHIP_HEAD: &'static str = "INSERT INTO _keep_leadership_international(user_id, role, start_date) ";

/// The delete of the international terms not kept.
pub const DELETE_UNKEPT_LEADERSHIP: &'static str = r#"DELETE FROM leadership_international li
           WHERE NOT EXISTS (
               SELECT 1 FROM _keep_leadership_international k
               WHERE k.user_id = li.user_id
                 AND k.role = li.role
                 AND k.start_date = li.start_date
           )"#;

/// The statements that delete the international terms not among
/// `leadership`; none when there are none.
pub fn retain_leadership(leadership: &[Leadership]) -> (r: Option<RetainStatements>)
    ensures
        r is None <==> leadership@.len() == 0,
        r matches Some(s) ==> crate::db::query::retains_with_keep_table(
            s,
            KEEP_LEADERSHIP_TABLE@,
            KEEP_LEADERSHIP_HEAD@,
            DELETE_UNKEPT_LEADERSHIP@,
            leadership@,
        ),
{
    retain_with_keep_table(KEEP_LEADERSHIP_TABLE, KEEP_LEADERSHIP_HEAD, DELETE_UNKEPT_LEADERSHIP, leadership)
}

} // verus!
