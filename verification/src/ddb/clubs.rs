//! Local clubs of the Drupal site.
use vstd::prelude::*;
use crate::db::query::{SqlPiece, SqlPieceView, SqlValue, SqlValueView, pieces_view, push_sql, where_query};
use crate::db::club::{Club as DbClub, Leadership as DbLeadership};
use crate::db::leadership::Role as DbRole;
use crate::db::user::User as DbUser;
use crate::ddb::leadership::Leadership;

verus! {

/// A local club: node id, club number, title and the node id of its region.
pub struct Club {
    pub uid: u64,
    pub number: Option<i64>,
    pub name: String,
    pub region: Option<u64>,
}

/// The query of all clubs, to which a condition is added.
pub const CLUBS_QUERY: &'static str = r#"
        SELECT
            nd.nid as uid,
            cn.field_club_number_value as number,
            nd.title as name,
            nr.field_region_target_id as region
        FROM node_field_data nd
        LEFT JOIN node__field_club_number cn ON cn.entity_id = nd.nid
        LEFT JOIN node__field_region nr ON nr.entity_id = nd.nid
        WHERE nd.type = 'ssp_club'
    "#;

/// The query of the club with a node id.
pub fn by_uid_query(uid: u64) -> (r: Vec<SqlPiece>)
    ensures
        pieces_view(r@) == seq![
            SqlPieceView::Sql(CLUBS_QUERY@),
            SqlPieceView::Sql(" AND nd.nid = "@),
            SqlPieceView::Bind(SqlValueView::U64(uid)),
        ],
{
    where_query(CLUBS_QUERY, " AND nd.nid = ", SqlValue::U64(uid))
}

/// The query of the club with a number.
pub fn by_number_query(number: i32) -> (r: Vec<SqlPiece>)
    ensures
        pieces_view(r@) == seq![
            SqlPieceView::Sql(CLUBS_QUERY@),
            SqlPieceView::Sql(" AND cn.field_club_number_value = "@),
            SqlPieceView::Bind(SqlValueView::I32(number)),
        ],
{
    where_query(CLUBS_QUERY, " AND cn.field_club_number_value = ", SqlValue::I32(number))
}

/// An optional node id as a database id.
pub open spec fn opt_id(v: Option<u64>) -> Option<i64> {
    match v {
        Some(r) => Some(r as i64),
        None => None,
    }
}

impl DbClub {
    /// A club as a club of the application database.
    pub fn from(value: Club) -> (r: DbClub)
        ensures
            r.uid == value.uid as i64,
            r.number == value.number,
            r.name == value.name,
            r.region == opt_id(value.region),
    {
        let region = match value.region {
            Some(r) => Some(r as i64),
            None => None,
        };
        DbClub { uid: value.uid as i64, number: value.number, name: value.name, region }
    }
}

impl DbLeadership {
    /// A term of leadership of the club `entity_uid` as a term of the
    /// application database; the club holds only its id.
    pub fn from(value: Leadership) -> (r: DbLeadership)
        ensures
            r.id is None,
            r.club.uid == value.entity_uid as i64,
            r.club.number is None,
            r.club.name@ == Seq::<char>::empty(),
            r.club.region is None,
            crate::ddb::users::is_db_user(r.user, value.user),
            r.role.uid == value.role.uid as i64,
            r.role.title == value.role.title,
            r.start_date == value.start_date,
            r.end_date == value.end_date,
    {
        DbLeadership {
            id: None,
            club: DbClub { uid: value.entity_uid as i64, number: None, name: String::new(), region: None },
            user: DbUser::from(value.user),
            role: DbRole::from(value.role),
            start_date: value.start_date,
            end_date: value.end_date,
        }
    }
}

} // verus!
