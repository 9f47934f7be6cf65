//! Race terms of the Drupal site.
use vstd::prelude::*;

verus! {

/// A race taxonomy term: its term id and name.
pub struct Race {
    pub uid: u64,
    pub name: String,
}

/// The query of all race terms, by term id.
pub const RACES_QUERY: &'static str = r#"
        SELECT tid AS uid, name
        FROM taxonomy_term_field_data
        WHERE vid = 'ssp_race'
        ORDER BY tid
        "#;

} // verus!
