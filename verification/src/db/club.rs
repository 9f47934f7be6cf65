//! Clubs of the application database and their leadership.
use vstd::prelude::*;
use crate::date::Date;
use crate::db::leadership::Role;
use crate::db::query::{
    RetainStatements, RowKind, SqlPiece, SqlPieceView, SqlValue, SqlValueView, TableRow,
    chunked_inserts_of, delete_not_in, insert_all_statement, insert_pieces, inserts_in_chunks,
    pieces_view, retain_with_keys, retains_keys, rows_of, separated_tuples, values_view, where_query,
};
use crate::db::user::User;

verus! {

/// A club: its Drupal node id, number, name and region.
pub struct Club {
    pub uid: i64,
    pub number: Option<i64>,
    pub name: String,
    pub region: Option<i64>,
}

impl TableRow for Club {
    open spec fn row(&self, kind: RowKind) -> Seq<SqlValueView> {
        match kind {
            RowKind::Stored => seq![
                SqlValueView::I64(self.uid),
                SqlValueView::OptI64(self.number),
                SqlValueView::Text(self.name@),
                SqlValueView::OptI64(self.region),
            ],
            RowKind::Key => seq![SqlValueView::I64(self.uid)],
        }
    }

    fn row_values(&self, kind: RowKind) -> (r: Vec<SqlValue>) {
        let mut r: Vec<SqlValue> = Vec::new();
        r.push(SqlValue::I64(self.uid));
        if kind == RowKind::Stored {
            r.push(SqlValue::OptI64(self.number));
            r.push(SqlValue::Text(self.name.clone()));
            r.push(SqlValue::OptI64(self.region));
        }
        assert(values_view(r@) =~= self.row(kind));
        r
    }
}

/// The query of all clubs.
pub const CLUBS_QUERY: &'static str = r#"
    SELECT
        uid,
        number,
        name,
        region
    FROM
        clubs
"#;

/// The query of the club with a node id.
pub fn by_uid_query(uid: i64) -> (r: Vec<SqlPiece>)
    ensures
        pieces_view(r@) == seq![
            SqlPieceView::Sql(CLUBS_QUERY@),
            SqlPieceView::Sql("where uid = "@),
            SqlPieceView::Bind(SqlValueView::I64(uid)),
        ],
{
    where_query(CLUBS_QUERY, "where uid = ", SqlValue::I64(uid))
}

/// The query of the club with a number.
pub fn by_number_query(number: i32) -> (r: Vec<SqlPiece>)
    ensures
        pieces_view(r@) == seq![
            SqlPieceView::Sql(CLUBS_QUERY@),
            SqlPieceView::Sql("where number = "@),
            SqlPieceView::Bind(SqlValueView::I32(number)),
        ],
{
    where_query(CLUBS_QUERY, "where number = ", SqlValue::I32(number))
}

/// The head of the club upsert.
pub const UPSERT_HEAD: &'static str = "INSERT INTO clubs(uid, number, name, region) ";

/// The tail of the club upsert.
pub const UPSERT_TAIL: &'static str = r#"ON CONFLICT(uid) DO UPDATE SET
                name = excluded.name,
                number = excluded.number,
                region = excluded.region
            "#;

/// The statement that inserts or updates clubs; none when there are none.
pub fn upsert_many(clubs: &[Club]) -> (r: Option<Vec<SqlPiece>>)
    ensures
        r is None <==> clubs@.len() == 0,
        r matches Some(p) ==> pieces_view(p@) == insert_pieces(
            UPSERT_HEAD@,
            rows_of(clubs@, RowKind::Stored),
            UPSERT_TAIL@,
        ),
{
    insert_all_statement(UPSERT_HEAD, clubs, UPSERT_TAIL, RowKind::Stored)
}

/// The statements that delete the clubs not among `clubs`.
pub fn retain(clubs: &[Club], timestamp: u128) -> (r: Option<RetainStatements>)
    ensures
        r is None <==> clubs@.len() == 0,
        r matches Some(s) ==> retains_keys(s, "clubs"@, "uid"@, clubs@, timestamp),
{
    retain_with_keys("clubs", "uid", clubs, timestamp)
}

// ---------------------------------------------------------------- leadership

/// A term of club leadership.
pub struct Leadership {
    pub id: Option<i64>,
    pub club: Club,
    pub user: User,
    pub role: Role,
    pub start_date: Date,
    pub end_date: Option<Date>,
}

impl TableRow for Leadership {
    open spec fn row(&self, kind: RowKind) -> Seq<SqlValueView> {
        let key = seq![
            SqlValueView::I64(self.club.uid),
            SqlValueView::Text(self.user.id@),
            SqlValueView::I64(self.role.uid),
            SqlValueView::Date(self.start_date),
        ];
        match kind {
            RowKind::Stored => key.push(SqlValueView::OptDate(self.end_date)),
            RowKind::Key => key,
        }
    }

    fn row_values(&self, kind: RowKind) -> (r: Vec<SqlValue>) {
        let mut r: Vec<SqlValue> = Vec::new();
        r.push(SqlValue::I64(self.club.uid));
        r.push(SqlValue::Text(self.user.id.clone()));
        r.push(SqlValue::I64(self.role.uid));
        r.push(SqlValue::Date(self.start_date));
        if kind == RowKind::Stored {
            r.push(SqlValue::OptDate(self.end_date));
        }
        assert(values_view(r@) =~= self.row(kind));
        r
    }
}

/// The query of all club leadership.
pub const LEADERSHIP_QUERY: &'static str = r#"
    SELECT
        lc.id,
        lc.start_date,
        lc.end_date,

        c.uid as club_uid,
        c.number as club_number,
        c.name as club_name,
        c.region as club_region,

        u.id,
        u.uid,
        u.email,
        u.first_name,
        u.last_name,
        u.birthday,
        u.phone_mobile,
        u.phone_home,
        u.last_login,

        r.uid as role_uid,
        r.title as role_title
    FROM
        leadership_club lc
        JOIN clubs c ON c.uid = lc.club
        JOIN users u ON u.id = lc.user_id
        JOIN leadership_role r ON r.uid = lc.role
"#;

/// The query of the leadership of the club with a node id.
pub fn leadership_by_uid_query(club_uid: i64) -> (r: Vec<SqlPiece>)
    ensures
        pieces_view(r@) == seq![
            SqlPieceView::Sql(LEADERSHIP_QUERY@),
            SqlPieceView::Sql("WHERE lc.club = "@),
            SqlPieceView::Bind(SqlValueView::I64(club_uid)),
        ],
{
    where_query(LEADERSHIP_QUERY, "WHERE lc.club = ", SqlValue::I64(club_uid))
}

/// The query of the leadership of the club with a number, bound as a
/// 64-bit integer.
pub fn leadership_by_number_query(club_number: i32) -> (r: Vec<SqlPiece>)
    ensures
        pieces_view(r@) == seq![
            SqlPieceView::Sql(LEADERSHIP_QUERY@),
            SqlPieceView::Sql("WHERE c.number = "@),
            SqlPieceView::Bind(SqlValueView::I64(club_number as i64)),
        ],
{
    where_query(LEADERSHIP_QUERY, "WHERE c.number = ", SqlValue::I64(club_number as i64))
}

/// The head of the club leadership upsert.
pub const LEADERSHIP_UPSERT_HEAD: &'static str = r#"INSERT INTO leadership_club(
                    club,
                    user_id,
                    role,
                    start_date,
                    end_date
                ) "#;

/// The tail of the club leadership upsert.
pub const LEADERSHIP_UPSERT_TAIL: &'static str = r#"ON CONFLICT(club, user_id, role, start_date) DO UPDATE SET
                    end_date = excluded.end_date
                "#;

/// The statements that insert or update club leadership terms, in chunks.
pub fn upsert_leadership(leadership: &[Leadership]) -> (r: Vec<Vec<SqlPiece>>)
    ensures
        chunked_inserts_of(
            r@,
            LEADERSHIP_UPSERT_HEAD@,
            rows_of(leadership@, RowKind::Stored),
            LEADERSHIP_UPSERT_TAIL@,
        ),
{
    inserts_in_chunks(LEADERSHIP_UPSERT_HEAD, leadership, LEADERSHIP_UPSERT_TAIL, RowKind::Stored)
}

/// The head of the delete of the club leadership terms not kept.
pub const DELETE_UNKEPT_LEADERSHIP: &'static str = "DELETE FROM leadership_club WHERE (club, user_id, role, start_date) NOT IN (";

/// The statement that deletes the club leadership terms not among
/// `leadership`; none when there are none.
pub fn retain_leadership(leadership: &[Leadership]) -> (r: Option<Vec<SqlPiece>>)
    ensures
        r is None <==> leadership@.len() == 0,
        r matches Some(p) ==> pieces_view(p@) == seq![SqlPieceView::Sql(DELETE_UNKEPT_LEADERSHIP@)]
            + separated_tuples(rows_of(leadership@, RowKind::Key)) + seq![SqlPieceView::Sql(")"@)],
{
    delete_not_in(DELETE_UNKEPT_LEADERSHIP, leadership)
}

} // verus!
