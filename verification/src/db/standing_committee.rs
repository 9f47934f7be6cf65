//! Standing committees of the application database and their leadership.
use vstd::prelude::*;
use crate::date::Date;
use crate::db::leadership::{
    DateFilter, LeadershipKey, Role, TermKey, apply_date_filter, date_filter_pieces, unique_inserts,
    unique_rows,
};
use crate::db::query::{
    RetainStatements, RowKind, SqlPiece, SqlPieceView, SqlValue, SqlValueView, TableRow,
    chunked_inserts_of, insert_all_statement, insert_pieces, inserts_in_chunks, pieces_view,
    push_sql, retain_with_keep_table, retain_with_keys, retains_keys, retains_with_keep_table,
    rows_of, values_view, where_query,
};
use crate::db::user::User;
use crate::text::same_text;

verus! {

/// A standing committee: its Drupal node id, name and whether it is active.
pub struct StandingCommittee {
    pub uid: i64,
    pub name: String,
    pub active: bool,
}

impl TableRow for StandingCommittee {
    open spec fn row(&self, kind: RowKind) -> Seq<SqlValueView> {
        match kind {
            RowKind::Stored => seq![
                SqlValueView::I64(self.uid),
                SqlValueView::Text(self.name@),
                SqlValueView::Bool(self.active),
            ],
            RowKind::Key => seq![SqlValueView::I64(self.uid)],
        }
    }

    fn row_values(&self, kind: RowKind) -> (r: Vec<SqlValue>) {
        let mut r: Vec<SqlValue> = Vec::new();
        r.push(SqlValue::I64(self.uid));
        if kind == RowKind::Stored {
            r.push(SqlValue::Text(self.name.clone()));
            r.push(SqlValue::Bool(self.active));
        }
        assert(values_view(r@) =~= self.row(kind));
        r
    }
}

/// Two standing committee terms share a key exactly when they bind the same key row:
/// terms that differ in the led entity, the user, the role or the start
/// date are never taken for duplicates.
pub proof fn lemma_key_is_key_row(a: Leadership, b: Leadership)
    ensures
        (a.key() == b.key()) <==> (a.row(RowKind::Key) =~= b.row(RowKind::Key)),
{
    let ra = a.row(RowKind::Key);
    let rb = b.row(RowKind::Key);
    if ra =~= rb {
        assert(ra[0] == rb[0]);
        assert(ra[1] == rb[1]);
        assert(ra[2] == rb[2]);
        assert(ra[3] == rb[3]);
    }
}

/// The query of all standing committees.
pub const STANDING_COMMITTEES_QUERY: &'static str = r#"
    SELECT
        uid,
        name,
        active
    FROM standing_committees
"#;

/// The query of the standing committee with a node id.
pub fn by_uid_query(uid: i64) -> (r: Vec<SqlPiece>)
    ensures
        pieces_view(r@) == seq![
            SqlPieceView::Sql(STANDING_COMMITTEES_QUERY@),
            SqlPieceView::Sql(" WHERE uid = "@),
            SqlPieceView::Bind(SqlValueView::I64(uid)),
        ],
{
    where_query(STANDING_COMMITTEES_QUERY, " WHERE uid = ", SqlValue::I64(uid))
}

/// The head of the standing committee upsert.
pub const UPSERT_HEAD: &'static str = "INSERT INTO standing_committees(uid, name, active) ";

/// The tail of the standing committee upsert.
pub const UPSERT_TAIL: &'static str = r#"ON CONFLICT(uid) DO UPDATE SET
                    name = excluded.name,
                    active = excluded.active
                "#;

/// The statements that insert or update standing committees, in chunks.
pub fn upsert_many(committees: &[StandingCommittee]) -> (r: Vec<Vec<SqlPiece>>)
    ensures
        chunked_inserts_of(r@, UPSERT_HEAD@, rows_of(committees@, RowKind::Stored), UPSERT_TAIL@),
{
    inserts_in_chunks(UPSERT_HEAD, committees, UPSERT_TAIL, RowKind::Stored)
}

/// The statements that delete the standing committees not among
/// `committees`.
pub fn retain(committees: &[StandingCommittee], timestamp: u128) -> (r: Option<RetainStatements>)
    ensures
        r is None <==> committees@.len() == 0,
        r matches Some(s) ==> retains_keys(s, "standing_committees"@, "uid"@, committees@, timestamp),
{
    retain_with_keys("standing_committees", "uid", committees, timestamp)
}

// ---------------------------------------------------------------- leadership

/// A term of standing committee leadership.
pub struct Leadership {
    pub id: Option<i64>,
    pub standing_committee: StandingCommittee,
    pub user: User,
    pub role: Role,
    pub start_date: Date,
    pub end_date: Option<Date>,
}

impl TableRow for Leadership {
    open spec fn row(&self, kind: RowKind) -> Seq<SqlValueView> {
        let key = seq![
            SqlValueView::I64(self.standing_committee.uid),
            SqlValueView::Text(self.user.id@),
            SqlValueView::I64(self.role.uid),
            SqlValueView::Date(self.start_date),
        ];
        match kind {
            RowKind::Stored => key.push(SqlValueView::OptDate(self.end_date)),
            RowKind::Key => key,
        }
    }

    fn row_values(&self, kind: RowKind) -> (r: Vec<SqlValue>) {
        let mut r: Vec<SqlValue> = Vec::new();
        r.push(SqlValue::I64(self.standing_committee.uid));
        r.push(SqlValue::Text(self.user.id.clone()));
        r.push(SqlValue::I64(self.role.uid));
        r.push(SqlValue::Date(self.start_date));
        if kind == RowKind::Stored {
            r.push(SqlValue::OptDate(self.end_date));
        }
        assert(values_view(r@) =~= self.row(kind));
        r
    }
}

impl LeadershipKey for Leadership {
    open spec fn key(&self) -> TermKey {
        (self.standing_committee.uid, self.user.id@, self.role.uid, self.start_date)
    }

    fn same_key(&self, other: &Self) -> (r: bool) {
        self.standing_committee.uid == other.standing_committee.uid && same_text(self.user.id.as_str(), other.user.id.as_str())
            && self.role.uid == other.role.uid && self.start_date == other.start_date
    }
}

/// The query of all standing committee leadership, to which a date filter adds its
/// clause.
pub const LEADERSHIP_QUERY: &'static str = r#"
    SELECT
        lsc.id,
        lsc.start_date,
        lsc.end_date,

        sc.uid as standing_committee_uid,
        sc.name as standing_committee_name,
        sc.active as standing_committee_active,

        u.id,
        u.uid,
        u.email,
        u.first_name,
        u.last_name,
        u.birthday,
        u.phone_mobile,
        u.phone_home,
        u.last_login,

        r.uid as role_uid,
        r.title as role_title
    FROM
        leadership_standing_committee lsc
        JOIN standing_committees sc ON sc.uid = lsc.standing_committee
        JOIN users u ON u.id = lsc.user_id
        JOIN leadership_role r ON r.uid = lsc.role
"#;

/// The query of the standing committee leadership terms that pass a filter.
pub fn all_leadership_query(filter: DateFilter) -> (r: Vec<SqlPiece>)
    ensures
        pieces_view(r@) == seq![SqlPieceView::Sql(LEADERSHIP_QUERY@)] + date_filter_pieces(filter, false),
{
    let mut r: Vec<SqlPiece> = Vec::new();
    push_sql(&mut r, LEADERSHIP_QUERY);
    apply_date_filter(&mut r, &filter, false);
    r
}

/// The query of the leadership of the standing committee with a node id that passes a
/// filter.
pub fn leadership_by_uid_query(uid: i64, filter: DateFilter) -> (r: Vec<SqlPiece>)
    ensures
        pieces_view(r@) == seq![
            SqlPieceView::Sql(LEADERSHIP_QUERY@),
            SqlPieceView::Sql("WHERE sc.uid = "@),
            SqlPieceView::Bind(SqlValueView::I64(uid)),
        ] + date_filter_pieces(filter, true),
{
    let mut r = where_query(LEADERSHIP_QUERY, "WHERE sc.uid = ", SqlValue::I64(uid));
    apply_date_filter(&mut r, &filter, true);
    r
}

/// The head of the standing committee leadership upsert.
pub const LEADERSHIP_UPSERT_HEAD: &'static str = r#"INSERT INTO leadership_standing_committee(
                    standing_committee,
                    user_id,
                    role,
                    start_date,
                    end_date
                ) "#;

/// The tail of the standing committee leadership upsert.
pub const LEADERSHIP_UPSERT_TAIL: &'static str = r#"ON CONFLICT(standing_committee, user_id, role, start_date) DO UPDATE SET
                    end_date = excluded.end_date
                "#;

/// The statements that insert or update standing committee leadership terms, the first
/// term of each key only, in chunks.
pub fn upsert_leadership(leadership: &[Leadership]) -> (r: Vec<Vec<SqlPiece>>)
    ensures
        chunked_inserts_of(
            r@,
            LEADERSHIP_UPSERT_HEAD@,
            unique_rows(leadership@, RowKind::Stored),
            LEADERSHIP_UPSERT_TAIL@,
        ),
{
    unique_inserts(LEADERSHIP_UPSERT_HEAD, leadership, LEADERSHIP_UPSERT_TAIL)
}

/// The temporary table of kept standing committee terms.
pub const KEEP_LEADERSHIP_TABLE: &'static str = r#"CREATE TEMP TABLE _keep_leadership_standing_committee (
            standing_committee BIGINT,
            user_id TEXT,
            role BIGINT,
            start_date DATE
        ) ON COMMIT DROP"#;

/// The head of the inserts of kept standing committee terms.
pub const KEEP_LEADERSHIP_HEAD: &'static str = "INSERT INTO _keep_leadership_standing_committee(standing_committee, user_id, role, start_date) ";

/// The delete of the standing committee terms not kept.
pub const DELETE_UNKEPT_LEADERSHIP: &'static str = r#"DELETE FROM leadership_standing_committee lsc
           WHERE NOT EXISTS (
               SELECT 1 FROM _keep_leadership_standing_committee k
               WHERE k.standing_committee = lsc.standing_committee
                 AND k.user_id = lsc.user_id
                 AND k.role = lsc.role
                 AND k.start_date = lsc.start_date
           )"#;

/// The statements that delete the standing committee terms not among `leadership`;
/// none when there are none.
pub fn retain_leadership(leadership: &[Leadership]) -> (r: Option<RetainStatements>)
    ensures
        r is None <==> leadership@.len() == 0,
        r matches Some(s) ==> retains_with_keep_table(
            s,
            KEEP_LEADERSHIP_TABLE@,
            KEEP_LEADERSHIP_HEAD@,
            DELETE_UNKEPT_LEADERSHIP@,
            leadership@,
        ),
{
    retain_with_keep_table(KEEP_LEADERSHIP_TABLE, KEEP_LEADERSHIP_HEAD, DELETE_UNKEPT_LEADERSHIP, leadership)
}

} // verus!
