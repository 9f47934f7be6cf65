//! Regions of the Drupal site.
use vstd::prelude::*;
use crate::db::query::{SqlPiece, SqlPieceView, SqlValue, SqlValueView, pieces_view, push_sql, where_query};
use crate::db::leadership::Role as DbRole;
use crate::db::region::{Leadership as DbLeadership, Region as DbRegion};
use crate::db::user::User as DbUser;
use crate::ddb::leadership::Leadership;

verus! {

/// A region: node id, number, title and whether it is published.
pub struct Region {
    pub uid: u64,
    pub number: Option<i32>,
    pub name: Option<String>,
    pub active: bool,
}

/// The query of all regions, to which a condition is added.
pub const REGIONS_QUERY: &'static str = r#"
        select
            region.entity_id as uid,
            region.field_region_number_value as number,
            fields.title as name,
            fields.status as active
        from node__field_region_number region
        inner join node_field_data fields on fields.nid = region.entity_id
    "#;

/// The query of the region with a node id.
pub fn by_uid_query(uid: u64) -> (r: Vec<SqlPiece>)
    ensures
        pieces_view(r@) == seq![
            SqlPieceView::Sql(REGIONS_QUERY@),
            SqlPieceView::Sql("where region.entity_id = "@),
            SqlPieceView::Bind(SqlValueView::U64(uid)),
        ],
{
    where_query(REGIONS_QUERY, "where region.entity_id = ", SqlValue::U64(uid))
}

/// The query of the region with a number.
pub fn by_number_query(number: i32) -> (r: Vec<SqlPiece>)
    ensures
        pieces_view(r@) == seq![
            SqlPieceView::Sql(REGIONS_QUERY@),
            SqlPieceView::Sql("where region.field_region_number_value = "@),
            SqlPieceView::Bind(SqlValueView::I32(number)),
        ],
{
    where_query(REGIONS_QUERY, "where region.field_region_number_value = ", SqlValue::I32(number))
}

impl DbRegion {
    /// A region as a region of the application database.
    pub fn from(value: Region) -> (r: DbRegion)
        ensures
            r.uid == value.uid as i64,
            r.number == value.number,
            r.name == value.name,
    {
        DbRegion { uid: value.uid as i64, number: value.number, name: value.name }
    }
}

impl DbLeadership {
    /// A term of leadership of the region `entity_uid` as a term of the
    /// application database; the region holds only its id.
    pub fn from(value: Leadership) -> (r: DbLeadership)
        ensures
            r.id is None,
            r.region.uid == value.entity_uid as i64,
            r.region.number is None,
            r.region.name is None,
            crate::ddb::users::is_db_user(r.user, value.user),
            r.role.uid == value.role.uid as i64,
            r.role.title == value.role.title,
            r.start_date == value.start_date,
            r.end_date == value.end_date,
    {
        DbLeadership {
            id: None,
            region: DbRegion { uid: value.entity_uid as i64, number: None, name: None },
            user: DbUser::from(value.user),
            role: DbRole::from(value.role),
            start_date: value.start_date,
            end_date: value.end_date,
        }
    }
}

} // verus!
