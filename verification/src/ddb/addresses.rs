//! All addresses of users of the Drupal site, one per address paragraph.
use vstd::prelude::*;
use crate::db::query::{SqlPiece, SqlPieceView, SqlValue, SqlValueView, pieces_view, push_sql, where_query};

verus! {

/// An address of a user: its paragraph, its owner, its place among the
/// user's addresses and whether it is the primary or mailing address.
pub struct Address {
    pub paragraph_id: u64,
    pub user_uid: u64,
    pub delta: u32,
    pub street_address: Option<String>,
    pub street_address_2: Option<String>,
    pub city: Option<String>,
    pub state: Option<String>,
    pub zip_code: Option<String>,
    pub country: Option<String>,
    pub is_primary: bool,
    pub is_mailing_address: bool,
}

/// The query of all address paragraphs, to which a condition is added.
pub const ADDRESS_QUERY: &'static str = r#"
            SELECT
                ua.field_address_target_id AS paragraph_id,
                ua.entity_id AS user_uid,
                ua.delta,
                addr.field_address_value AS street_address,
                addr2.field_street_address_2_value AS street_address_2,
                city.field_city_value AS city,
                state.field_state_name_value AS state,
                zip.field_zip_code_value AS zip_code,
                country.field_country_value AS country,
                COALESCE(prim.field_primary_address_value, 0) = 1 AS is_primary,
                COALESCE(mail.field_use_as_mailing_address_value, 0) = 1 AS is_mailing_address
            FROM user__field_address ua
            LEFT JOIN paragraph__field_address addr
                ON ua.field_address_target_id = addr.entity_id AND addr.deleted = 0
            LEFT JOIN paragraph__field_street_address_2 addr2
                ON ua.field_address_target_id = addr2.entity_id AND addr2.deleted = 0
            LEFT JOIN paragraph__field_city city
                ON ua.field_address_target_id = city.entity_id AND city.deleted = 0
            LEFT JOIN paragraph__field_state_name state
                ON ua.field_address_target_id = state.entity_id AND state.deleted = 0
            LEFT JOIN paragraph__field_zip_code zip
                ON ua.field_address_target_id = zip.entity_id AND zip.deleted = 0
            LEFT JOIN paragraph__field_country country
                ON ua.field_address_target_id = country.entity_id AND country.deleted = 0
            LEFT JOIN paragraph__field_primary_address prim
                ON ua.field_address_target_id = prim.entity_id AND prim.deleted = 0
            LEFT JOIN paragraph__field_use_as_mailing_address mail
                ON ua.field_address_target_id = mail.entity_id AND mail.deleted = 0
            WHERE ua.deleted = 0
        "#;

/// The query of all addresses, by user and position.
pub fn all_query() -> (r: Vec<SqlPiece>)
    ensures
        pieces_view(r@) == seq![
            SqlPieceView::Sql(ADDRESS_QUERY@),
            SqlPieceView::Sql(" ORDER BY ua.entity_id, ua.delta"@),
        ],
{
    let mut r: Vec<SqlPiece> = Vec::new();
    push_sql(&mut r, ADDRESS_QUERY);
    push_sql(&mut r, " ORDER BY ua.entity_id, ua.delta");
    assert(pieces_view(r@) =~= seq![
        SqlPieceView::Sql(ADDRESS_QUERY@),
        SqlPieceView::Sql(" ORDER BY ua.entity_id, ua.delta"@),
    ]);
    r
}

/// The query of a user's addresses, by position.
pub fn by_user_id_query(user_uid: u64) -> (r: Vec<SqlPiece>)
    ensures
        pieces_view(r@) == seq![
            SqlPieceView::Sql(ADDRESS_QUERY@),
            SqlPieceView::Sql(" AND ua.entity_id = "@),
            SqlPieceView::Bind(SqlValueView::U64(user_uid)),
            SqlPieceView::Sql(" ORDER BY ua.delta"@),
        ],
{
    let mut r = where_query(ADDRESS_QUERY, " AND ua.entity_id = ", SqlValue::U64(user_uid));
    push_sql(&mut r, " ORDER BY ua.delta");
    r
}

} // verus!
