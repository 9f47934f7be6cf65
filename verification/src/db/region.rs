//! Regions of the application database and their leadership.
use vstd::prelude::*;
use crate::date::Date;
use crate::db::leadership::{
    DateFilter, LeadershipKey, Role, TermKey, apply_date_filter, date_filter_pieces, unique_inserts,
    unique_rows,
};
use crate::db::query::{
    RetainStatements, RowKind, SqlPiece, SqlPieceView, SqlValue, SqlValueView, TableRow,
    chunked_inserts_of, insert_all_statement, insert_pieces, inserts_in_chunks, pieces_view,
    push_sql, retain_with_keep_table, retain_with_keys, retains_keys, retains_with_keep_table,
    rows_of, values_view, where_query,
};
use crate::db::user::User;
use crate::text::same_text;

verus! {

/// A region: its Drupal node id, number and name.
pub struct Region {
    pub uid: i64,
    pub number: Option<i32>,
    pub name: Option<String>,
}

impl TableRow for Region {
    open spec fn row(&self, kind: RowKind) -> Seq<SqlValueView> {
        match kind {
            RowKind::Stored => seq![
                SqlValueView::I64(self.uid),
                SqlValueView::OptI32(self.number),
                SqlValueView::OptText(crate::text::opt_text_view(self.name)),
            ],
            RowKind::Key => seq![SqlValueView::I64(self.uid)],
        }
    }

    fn row_values(&self, kind: RowKind) -> (r: Vec<SqlValue>) {
        let mut r: Vec<SqlValue> = Vec::new();
        r.push(SqlValue::I64(self.uid));
        if kind == RowKind::Stored {
            r.push(SqlValue::OptI32(self.number));
            r.push(SqlValue::OptText(crate::text::copy_opt_text(&self.name)));
        }
        assert(values_view(r@) =~= self.row(kind));
        r
    }
}

/// Two region terms share a key exactly when they bind the same key row:
/// terms that differ in the led entity, the user, the role or the start
/// date are never taken for duplicates.
pub proof fn lemma_key_is_key_row(a: Leadership, b: Leadership)
    ensures
        (a.key() == b.key()) <==> (a.row(RowKind::Key) =~= b.row(RowKind::Key)),
{
    let ra = a.row(RowKind::Key);
    let rb = b.row(RowKind::Key);
    if ra =~= rb {
        assert(ra[0] == rb[0]);
        assert(ra[1] == rb[1]);
        assert(ra[2] == rb[2]);
        assert(ra[3] == rb[3]);
    }
}

/// The query of all regions.
pub const REGIONS_QUERY: &'static str = r#"
        select
            uid,
            number,
            name
        from regions
    "#;

/// The query of the region with a node id.
pub fn by_uid_query(uid: i64) -> (r: Vec<SqlPiece>)
    ensures
        pieces_view(r@) == seq![
            SqlPieceView::Sql(REGIONS_QUERY@),
            SqlPieceView::Sql("where uid = "@),
            SqlPieceView::Bind(SqlValueView::I64(uid)),
        ],
{
    where_query(REGIONS_QUERY, "where uid = ", SqlValue::I64(uid))
}

/// The query of the region with a number.
pub fn by_number_query(number: i32) -> (r: Vec<SqlPiece>)
    ensures
        pieces_view(r@) == seq![
            SqlPieceView::Sql(REGIONS_QUERY@),
            SqlPieceView::Sql("where number = "@),
            SqlPieceView::Bind(SqlValueView::I32(number)),
        ],
{
    where_query(REGIONS_QUERY, "where number = ", SqlValue::I32(number))
}

/// The head of the region upsert.
pub const UPSERT_HEAD: &'static str = "INSERT INTO regions(uid, number, name) ";

/// The tail of the region upsert, which matches regions by number.
pub const UPSERT_TAIL: &'static str = r#"ON CONFLICT(number) DO UPDATE SET
                name = excluded.name,
                uid = excluded.uid
            "#;

/// The statement that inserts or updates regions; none when there are none.
pub fn upsert_many(regions: &[Region]) -> (r: Option<Vec<SqlPiece>>)
    ensures
        r is None <==> regions@.len() == 0,
        r matches Some(p) ==> pieces_view(p@) == insert_pieces(
            UPSERT_HEAD@,
            rows_of(regions@, RowKind::Stored),
            UPSERT_TAIL@,
        ),
{
    insert_all_statement(UPSERT_HEAD, regions, UPSERT_TAIL, RowKind::Stored)
}

/// The statements that delete the regions not among `regions`.
pub fn retain(regions: &[Region], timestamp: u128) -> (r: Option<RetainStatements>)
    ensures
        r is None <==> regions@.len() == 0,
        r matches Some(s) ==> retains_keys(s, "regions"@, "uid"@, regions@, timestamp),
{
    retain_with_keys("regions", "uid", regions, timestamp)
}

// ---------------------------------------------------------------- leadership

/// A term of region leadership.
pub struct Leadership {
    pub id: Option<i64>,
    pub region: Region,
    pub user: User,
    pub role: Role,
    pub start_date: Date,
    pub end_date: Option<Date>,
}

impl TableRow for Leadership {
    open spec fn row(&self, kind: RowKind) -> Seq<SqlValueView> {
        let key = seq![
            SqlValueView::I64(self.region.uid),
            SqlValueView::Text(self.user.id@),
            SqlValueView::I64(self.role.uid),
            SqlValueView::Date(self.start_date),
        ];
        match kind {
            RowKind::Stored => key.push(SqlValueView::OptDate(self.end_date)),
            RowKind::Key => key,
        }
    }

    fn row_values(&self, kind: RowKind) -> (r: Vec<SqlValue>) {
        let mut r: Vec<SqlValue> = Vec::new();
        r.push(SqlValue::I64(self.region.uid));
        r.push(SqlValue::Text(self.user.id.clone()));
        r.push(SqlValue::I64(self.role.uid));
        r.push(SqlValue::Date(self.start_date));
        if kind == RowKind::Stored {
            r.push(SqlValue::OptDate(self.end_date));
        }
        assert(values_view(r@) =~= self.row(kind));
        r
    }
}

impl LeadershipKey for Leadership {
    open spec fn key(&self) -> TermKey {
        (self.region.uid, self.user.id@, self.role.uid, self.start_date)
    }

    fn same_key(&self, other: &Self) -> (r: bool) {
        self.region.uid == other.region.uid && same_text(self.user.id.as_str(), other.user.id.as_str())
            && self.role.uid == other.role.uid && self.start_date == other.start_date
    }
}

/// The query of all region leadership, to which a date filter adds its
/// clause.
pub const LEADERSHIP_QUERY: &'static str = r#"
    SELECT
        lr.id,
        lr.start_date,
        lr.end_date,

        reg.uid as region_uid,
        reg.number as region_number,
        reg.name as region_name,

        u.id,
        u.uid,
        u.email,
        u.first_name,
        u.last_name,

        r.uid as role_uid,
        r.title as role_title
    FROM
        leadership_region lr
        JOIN regions reg ON reg.uid = lr.region
        JOIN users u ON u.id = lr.user_id
        JOIN leadership_role r ON r.uid = lr.role
"#;

/// The query of the region leadership terms that pass a filter.
pub fn all_leadership_query(filter: DateFilter) -> (r: Vec<SqlPiece>)
    ensures
        pieces_view(r@) == seq![SqlPieceView::Sql(LEADERSHIP_QUERY@)] + date_filter_pieces(filter, false),
{
    let mut r: Vec<SqlPiece> = Vec::new();
    push_sql(&mut r, LEADERSHIP_QUERY);
    apply_date_filter(&mut r, &filter, false);
    r
}

/// The query of the leadership of the region with a number, bound as a
/// 64-bit integer, that passes a filter.
pub fn leadership_by_number_query(number: i32, filter: DateFilter) -> (r: Vec<SqlPiece>)
    ensures
        pieces_view(r@) == seq![
            SqlPieceView::Sql(LEADERSHIP_QUERY@),
            SqlPieceView::Sql("WHERE lr.region = "@),
            SqlPieceView::Bind(SqlValueView::I64(number as i64)),
        ] + date_filter_pieces(filter, true),
{
    let mut r = where_query(LEADERSHIP_QUERY, "WHERE lr.region = ", SqlValue::I64(number as i64));
    apply_date_filter(&mut r, &filter, true);
    r
}

/// The query of the leadership of the region with a node id that passes a
/// filter.
pub fn leadership_by_uid_query(uid: i64, filter: DateFilter) -> (r: Vec<SqlPiece>)
    ensures
        pieces_view(r@) == seq![
            SqlPieceView::Sql(LEADERSHIP_QUERY@),
            SqlPieceView::Sql("WHERE reg.uid = "@),
            SqlPieceView::Bind(SqlValueView::I64(uid)),
        ] + date_filter_pieces(filter, true),
{
    let mut r = where_query(LEADERSHIP_QUERY, "WHERE reg.uid = ", SqlValue::I64(uid));
    apply_date_filter(&mut r, &filter, true);
    r
}

/// The head of the region leadership upsert.
pub const LEADERSHIP_UPSERT_HEAD: &'static str = r#"INSERT INTO leadership_region(
                    region,
                    user_id,
                    role,
                    start_date,
                    end_date
                ) "#;

/// The tail of the region leadership upsert.
pub const LEADERSHIP_UPSERT_TAIL: &'static str = r#"ON CONFLICT(region, user_id, role, start_date) DO UPDATE SET
                    end_date = excluded.end_date
                "#;

/// The statements that insert or update region leadership terms, the first
/// term of each key only, in chunks.
pub fn upsert_leadership(leadership: &[Leadership]) -> (r: Vec<Vec<SqlPiece>>)
    ensures
        chunked_inserts_of(
            r@,
            LEADERSHIP_UPSERT_HEAD@,
            unique_rows(leadership@, RowKind::Stored),
            LEADERSHIP_UPSERT_TAIL@,
        ),
{
    unique_inserts(LEADERSHIP_UPSERT_HEAD, leadership, LEADERSHIP_UPSERT_TAIL)
}

/// The temporary table of kept region terms.
pub const KEEP_LEADERSHIP_TABLE: &'static str = r#"CREATE TEMP TABLE _keep_leadership_region (
            region BIGINT,
            user_id TEXT,
            role BIGINT,
            start_date DATE
        ) ON COMMIT DROP"#;

/// The head of the inserts of kept region terms.
pub const KEEP_LEADERSHIP_HEAD: &'static str = "INSERT INTO _keep_leadership_region(region, user_id, role, start_date) ";

/// The delete of the region terms not kept.
pub const DELETE_UNKEPT_LEADERSHIP: &'static str = r#"DELETE FROM leadership_region lr
           WHERE NOT EXISTS (
               SELECT 1 FROM _keep_leadership_region k
               WHERE k.region = lr.region
                 AND k.user_id = lr.user_id
                 AND k.role = lr.role
                 AND k.start_date = lr.start_date
           )"#;

/// The statements that delete the region terms not among `leadership`;
/// none when there are none.
pub fn retain_leadership(leadership: &[Leadership]) -> (r: Option<RetainStatements>)
    ensures
        r is None <==> leadership@.len() == 0,
        r matches Some(s) ==> retains_with_keep_table(
            s,
            KEEP_LEADERSHIP_TABLE@,
            KEEP_LEADERSHIP_HEAD@,
            DELETE_UNKEPT_LEADERSHIP@,
            leadership@,
        ),
{
    retain_with_keep_table(KEEP_LEADERSHIP_TABLE, KEEP_LEADERSHIP_HEAD, DELETE_UNKEPT_LEADERSHIP, leadership)
}

} // verus!
