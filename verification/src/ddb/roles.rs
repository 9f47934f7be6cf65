//! User roles and microsite administrators of the Drupal site.
use vstd::prelude::*;

verus! {

/// A role assigned to a user.
pub struct UserRole {
    pub user_uid: u64,
    pub role: String,
}

/// A user who administers the microsite of a club or region: the node id
/// of the club or region, and whether it is a region.
pub struct MicrositeAdmin {
    pub user_uid: u64,
    pub entity_uid: u64,
    pub is_region: bool,
}

/// The query of all role assignments.
pub const USER_ROLES_QUERY: &'static str = r#"
        SELECT entity_id AS user_uid, roles_target_id AS role
        FROM user__roles
        WHERE deleted = 0
        "#;

/// The query of all microsite administrators, resolved to the nodes of
/// their clubs and regions.
pub const MICROSITE_ADMINS_QUERY: &'static str = r#"
        SELECT
            uf.entity_id AS user_uid,
            COALESCE(region_link.entity_id, club_link.entity_id) AS entity_uid,
            (region_link.entity_id IS NOT NULL) AS is_region
        FROM user__field_microsite uf
        LEFT JOIN node__field_main_site_club club_link
            ON club_link.field_main_site_club_target_id = uf.field_microsite_target_id
            AND club_link.bundle = 'ssp_club'
            AND club_link.deleted = 0
        LEFT JOIN node__field_main_site_club region_link
            ON region_link.field_main_site_club_target_id = uf.field_microsite_target_id
            AND region_link.bundle = 'ssp_region'
            AND region_link.deleted = 0
        WHERE uf.deleted = 0
          AND (club_link.entity_id IS NOT NULL OR region_link.entity_id IS NOT NULL)
        "#;

} // verus!
