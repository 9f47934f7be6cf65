//! Airstream ownership records of the Drupal site.
use vstd::prelude::*;
use crate::db::query::{SqlPiece, SqlPieceView, SqlValue, SqlValueView, pieces_view, push_sql, where_query};
use crate::date::Date;

verus! {

/// An ownership period of an Airstream: the vehicle's node, the ownership
/// paragraph, the owner, whether the partner shares it, its dates and the
/// vehicle's details. The length is decimal text.
pub struct Airstream {
    pub airstream_id: u64,
    pub paragraph_id: u64,
    pub user_id: u64,
    pub include_partner: bool,
    pub join_date: Date,
    pub leave_date: Option<Date>,
    pub vin: Option<String>,
    pub model: Option<String>,
    pub airstream_type: Option<String>,
    pub year: Option<i32>,
    pub length: Option<String>,
}

/// The query of all ownership periods, to which a condition is added.
pub const AIRSTREAM_QUERY: &'static str = r#"
            SELECT
                n.nid AS airstream_id,
                p.id AS paragraph_id,
                m.field_member_target_id AS user_id,
                COALESCE(inc.field_include_partner_member_value, 0) = 1 AS include_partner,
                CAST(jd.field_join_date_value AS DATE) AS join_date,
                CAST(ld.field_leave_date_value AS DATE) AS leave_date,
                n.title AS vin,
                model.field_airstream_model_value AS model,
                rig.field_rig_type_value AS airstream_type,
                year.field_airstream_year_value AS year,
                CAST(length.field_airstream_length_value AS CHAR) AS length
            FROM node_field_data n
            -- Airstream details
            LEFT JOIN node__field_airstream_model model ON n.nid = model.entity_id AND model.deleted = 0
            LEFT JOIN node__field_rig_type rig ON n.nid = rig.entity_id AND rig.deleted = 0
            LEFT JOIN node__field_airstream_year year ON n.nid = year.entity_id AND year.deleted = 0
            LEFT JOIN node__field_airstream_length length ON n.nid = length.entity_id AND length.deleted = 0
            -- Ownership paragraph
            LEFT JOIN node__field_ownership own ON n.nid = own.entity_id AND own.deleted = 0
            LEFT JOIN paragraphs_item_field_data p ON p.id = own.field_ownership_target_id AND p.status = 1
            -- Ownership fields
            LEFT JOIN paragraph__field_member m ON p.id = m.entity_id AND m.deleted = 0
            LEFT JOIN paragraph__field_include_partner_member inc ON p.id = inc.entity_id AND inc.deleted = 0
            LEFT JOIN paragraph__field_join_date jd ON p.id = jd.entity_id AND jd.deleted = 0
            LEFT JOIN paragraph__field_leave_date ld ON p.id = ld.entity_id AND ld.deleted = 0
            WHERE n.type = 'ssp_airstream'
              AND m.field_member_target_id IS NOT NULL
              AND jd.field_join_date_value IS NOT NULL
        "#;

/// The query of a user's ownership periods.
pub fn by_user_id_query(user_id: u64) -> (r: Vec<SqlPiece>)
    ensures
        pieces_view(r@) == seq![
            SqlPieceView::Sql(AIRSTREAM_QUERY@),
            SqlPieceView::Sql(" AND m.field_member_target_id = "@),
            SqlPieceView::Bind(SqlValueView::U64(user_id)),
        ],
{
    where_query(AIRSTREAM_QUERY, " AND m.field_member_target_id = ", SqlValue::U64(user_id))
}

} // verus!
