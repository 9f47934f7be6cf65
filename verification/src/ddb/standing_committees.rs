//! Standing committees of the Drupal site.
use vstd::prelude::*;
use crate::db::query::{SqlPiece, SqlPieceView, SqlValue, SqlValueView, pieces_view, push_sql, where_query};
use crate::db::leadership::Role as DbRole;
use crate::db::standing_committee::{Leadership as DbLeadership, StandingCommittee as DbStandingCommittee};
use crate::db::user::User as DbUser;
use crate::ddb::leadership::Leadership;

verus! {

/// A standing committee: node id, title and whether it is published.
pub struct StandingCommittee {
    pub uid: u64,
    pub name: String,
    pub active: bool,
}

/// The query of all standing committees.
pub const STANDING_COMMITTEES_QUERY: &'static str = r#"
    SELECT
        nd.nid AS uid,
        nd.title AS name,
        nd.status AS active
    FROM node_field_data nd
    WHERE nd.type = 'ssp_standing_committees'
"#;

/// The query of the standing committee with a node id.
pub fn by_uid_query(uid: u64) -> (r: Vec<SqlPiece>)
    ensures
        pieces_view(r@) == seq![
            SqlPieceView::Sql(STANDING_COMMITTEES_QUERY@),
            SqlPieceView::Sql(" WHERE nd.nid = "@),
            SqlPieceView::Bind(SqlValueView::U64(uid)),
        ],
{
    where_query(STANDING_COMMITTEES_QUERY, " WHERE nd.nid = ", SqlValue::U64(uid))
}

impl DbStandingCommittee {
    /// A standing committee as one of the application database.
    pub fn from(value: StandingCommittee) -> (r: DbStandingCommittee)
        ensures
            r.uid == value.uid as i64,
            r.name == value.name,
            r.active == value.active,
    {
        DbStandingCommittee { uid: value.uid as i64, name: value.name, active: value.active }
    }
}

impl DbLeadership {
    /// A term of leadership of the committee `entity_uid` as a term of the
    /// application database; the committee holds only its id and counts as
    /// active.
    pub fn from(value: Leadership) -> (r: DbLeadership)
        ensures
            r.id is None,
            r.standing_committee.uid == value.entity_uid as i64,
            r.standing_committee.name@ == Seq::<char>::empty(),
            r.standing_committee.active,
            crate::ddb::users::is_db_user(r.user, value.user),
            r.role.uid == value.role.uid as i64,
            r.role.title == value.role.title,
            r.start_date == value.start_date,
            r.end_date == value.end_date,
    {
        DbLeadership {
            id: None,
            standing_committee: DbStandingCommittee {
                uid: value.entity_uid as i64,
                name: String::new(),
                active: true,
            },
            user: DbUser::from(value.user),
            role: DbRole::from(value.role),
            start_date: value.start_date,
            end_date: value.end_date,
        }
    }
}

} // verus!
