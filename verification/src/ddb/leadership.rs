//! Leadership terms of clubs, regions and the international board.
use vstd::prelude::*;
use crate::db::query::{SqlPiece, SqlPieceView, SqlValue, SqlValueView, pieces_view, push_sql, where_query};
use crate::date::Date;
use crate::db::leadership::Role as DbRole;
use crate::ddb::users::User;

verus! {

/// A leadership role.
pub struct Role {
    pub uid: u64,
    pub title: String,
}

/// The role columns of a leadership row.
pub struct RoleFromRow {
    pub role_uid: u64,
    pub role_title: String,
}

impl RoleFromRow {
    /// The role the columns hold.
    pub fn into_role(self) -> (r: Role)
        ensures
            r.uid == self.role_uid,
            r.title == self.role_title,
    {
        Role { uid: self.role_uid, title: self.role_title }
    }
}

/// A term of leadership of the node `entity_uid`.
pub struct Leadership {
    pub entity_uid: u64,
    pub role: Role,
    pub start_date: Date,
    pub end_date: Option<Date>,
    pub user: User,
}

impl DbRole {
    /// A role as a role of the application database.
    pub fn from(value: Role) -> (r: DbRole)
        ensures
            r.uid == value.uid as i64,
            r.title == value.title,
    {
        DbRole { uid: value.uid as i64, title: value.title }
    }
}

/// The query of current leadership terms, to which a condition on the led
/// node is added.
pub const LEADERSHIP_QUERY: &'static str = r#"
    SELECT
        entity.nid AS entity_uid,
        role_term.tid AS role_uid,
        role_term.name AS role_title,
        DATE(start.field_start_date_value) AS start_date,
        DATE(end.field_end_date_value) AS end_date,
        usr.uid AS uid,
        COALESCE(md.email, usr.mail) AS email,
        ufn.field_first_name_value AS first_name,
        uln.field_last_name_value AS last_name,
        CAST(ubd.field_birth_date_value AS DATE) AS birthday,
        DATE(FROM_UNIXTIME(usr.login)) AS last_login
    FROM node_field_data entity
    JOIN node__field_leadership_ssp l
        ON l.entity_id = entity.nid AND l.deleted = '0'
    JOIN paragraphs_item_field_data p
        ON p.id = l.field_leadership_ssp_target_id
    LEFT JOIN paragraph__field_role r ON r.entity_id = p.id AND r.deleted = '0'
    LEFT JOIN taxonomy_term_field_data role_term ON role_term.tid = r.field_role_target_id
    LEFT JOIN paragraph__field_start_date start ON start.entity_id = p.id AND start.deleted = '0'
    LEFT JOIN paragraph__field_end_date end ON end.entity_id = p.id AND end.deleted = '0'
    LEFT JOIN paragraph__field_user u ON u.entity_id = p.id AND u.deleted = '0'
    LEFT JOIN paragraph__field_member m ON m.entity_id = p.id AND m.deleted = '0'
    JOIN users_field_data usr ON usr.uid = COALESCE(u.field_user_target_id, m.field_member_target_id)
    LEFT JOIN z_member_search_main md ON md.user_id = usr.uid
    LEFT JOIN user__field_first_name ufn ON ufn.entity_id = usr.uid
    LEFT JOIN user__field_last_name uln ON uln.entity_id = usr.uid
    LEFT JOIN user__field_birth_date ubd ON ubd.entity_id = usr.uid
    WHERE DATE(start.field_start_date_value) <= CURRENT_DATE
      AND (end.field_end_date_value IS NULL OR DATE(end.field_end_date_value) >= CURRENT_DATE)
      AND
"#;

/// The query of the leadership of nodes of a type, of one node when an id
/// is given.
pub fn leadership_for_type_query(entity_type: &str, entity_id: Option<u64>) -> (r: Vec<SqlPiece>)
    ensures
        pieces_view(r@) == seq![SqlPieceView::Sql(LEADERSHIP_QUERY@)] + (match entity_id {
            Some(id) => seq![
                SqlPieceView::Sql("entity.nid = "@),
                SqlPieceView::Bind(SqlValueView::U64(id)),
                SqlPieceView::Sql(" AND "@),
            ],
            None => Seq::empty(),
        }) + seq![
            SqlPieceView::Sql("entity.type = "@),
            SqlPieceView::Bind(SqlValueView::Text(entity_type@)),
        ],
{
    let mut r: Vec<SqlPiece> = Vec::new();
    push_sql(&mut r, LEADERSHIP_QUERY);
    match entity_id {
        Some(id) => {
            push_sql(&mut r, "entity.nid = ");
            crate::db::query::push_bind(&mut r, SqlValue::U64(id));
            push_sql(&mut r, " AND ");
        },
        None => {},
    }
    push_sql(&mut r, "entity.type = ");
    crate::db::query::push_bind(&mut r, SqlValue::Text(entity_type.to_owned()));
    assert(pieces_view(r@) =~= seq![SqlPieceView::Sql(LEADERSHIP_QUERY@)] + (match entity_id {
        Some(id) => seq![
            SqlPieceView::Sql("entity.nid = "@),
            SqlPieceView::Bind(SqlValueView::U64(id)),
            SqlPieceView::Sql(" AND "@),
        ],
        None => Seq::empty(),
    }) + seq![
        SqlPieceView::Sql("entity.type = "@),
        SqlPieceView::Bind(SqlValueView::Text(entity_type@)),
    ]);
    r
}

/// The query of the leadership of a club.
pub fn for_club_query(uid: u64) -> (r: Vec<SqlPiece>)
    ensures
        pieces_view(r@) == seq![
            SqlPieceView::Sql(LEADERSHIP_QUERY@),
            SqlPieceView::Sql("entity.nid = "@),
            SqlPieceView::Bind(SqlValueView::U64(uid)),
            SqlPieceView::Sql(" AND "@),
            SqlPieceView::Sql("entity.type = "@),
            SqlPieceView::Bind(SqlValueView::Text("ssp_club"@)),
        ],
{
    leadership_for_type_query("ssp_club", Some(uid))
}

/// The query of the leadership of all clubs.
pub fn for_all_clubs_query() -> (r: Vec<SqlPiece>)
    ensures
        pieces_view(r@) == seq![
            SqlPieceView::Sql(LEADERSHIP_QUERY@),
            SqlPieceView::Sql("entity.type = "@),
            SqlPieceView::Bind(SqlValueView::Text("ssp_club"@)),
        ],
{
    leadership_for_type_query("ssp_club", None)
}

/// The query of the leadership of a region.
pub fn for_region_query(uid: u64) -> (r: Vec<SqlPiece>)
    ensures
        pieces_view(r@) == seq![
            SqlPieceView::Sql(LEADERSHIP_QUERY@),
            SqlPieceView::Sql("entity.nid = "@),
            SqlPieceView::Bind(SqlValueView::U64(uid)),
            SqlPieceView::Sql(" AND "@),
            SqlPieceView::Sql("entity.type = "@),
            SqlPieceView::Bind(SqlValueView::Text("ssp_region"@)),
        ],
{
    leadership_for_type_query("ssp_region", Some(uid))
}

/// The query of the leadership of all regions.
pub fn for_all_regions_query() -> (r: Vec<SqlPiece>)
    ensures
        pieces_view(r@) == seq![
            SqlPieceView::Sql(LEADERSHIP_QUERY@),
            SqlPieceView::Sql("entity.type = "@),
            SqlPieceView::Bind(SqlValueView::Text("ssp_region"@)),
        ],
{
    leadership_for_type_query("ssp_region", None)
}

/// The query of the leadership of the international board.
pub fn for_international_query() -> (r: Vec<SqlPiece>)
    ensures
        pieces_view(r@) == seq![
            SqlPieceView::Sql(LEADERSHIP_QUERY@),
            SqlPieceView::Sql("entity.type = "@),
            SqlPieceView::Bind(SqlValueView::Text("ssp_international_leadership"@)),
        ],
{
    leadership_for_type_query("ssp_international_leadership", None)
}

} // verus!
