//! The mailing addresses of members.
use vstd::prelude::*;
use vstd::std_specs::hash::*;
use std::collections::HashMap;
use crate::db::query::{SqlPiece, SqlPieceView, SqlValue, SqlValueView, pieces_view, push_separated_binds, push_sql, separated_binds, values_view, where_query};
use crate::ddb::members::{Address, Member};

verus! {

/// The query of the users' mailing addresses, to which a condition on the
/// user is added.
pub const MAILING_ADDRESS_QUERY: &'static str = r#"
            SELECT
                user__field_address.entity_id as user_id,
                paragraph__field_address.field_address_value AS street_address,
                paragraph__field_street_address_2.field_street_address_2_value AS street_address_2,
                paragraph__field_zip_code.field_zip_code_value AS zip_code,
                paragraph__field_city.field_city_value AS city,
                paragraph__field_state_name.field_state_name_value AS state,
                paragraph__field_country.field_country_value AS country
            FROM
                paragraph__field_use_as_mailing_address mail
                INNER JOIN user__field_address ON user__field_address.field_address_target_id = mail.entity_id
                INNER JOIN paragraph__field_address ON mail.entity_id = paragraph__field_address.entity_id
                LEFT JOIN paragraph__field_street_address_2 ON mail.entity_id = paragraph__field_street_address_2.entity_id
                LEFT JOIN paragraph__field_zip_code ON mail.entity_id = paragraph__field_zip_code.entity_id
                LEFT JOIN paragraph__field_city ON mail.entity_id = paragraph__field_city.entity_id
                LEFT JOIN paragraph__field_state_name ON mail.entity_id = paragraph__field_state_name.entity_id
                LEFT JOIN paragraph__field_country ON mail.entity_id = paragraph__field_country.entity_id
            WHERE
                mail.field_use_as_mailing_address_value = 1 
            "#;

/// The query of the mailing address of the user with a Drupal id.
pub fn by_uid_query(uid: u64) -> (r: Vec<SqlPiece>)
    ensures
        pieces_view(r@) == seq![
            SqlPieceView::Sql(MAILING_ADDRESS_QUERY@),
            SqlPieceView::Sql("AND user__field_address.entity_id = "@),
            SqlPieceView::Bind(SqlValueView::U64(uid)),
        ],
{
    where_query(MAILING_ADDRESS_QUERY, "AND user__field_address.entity_id = ", SqlValue::U64(uid))
}

/// Drupal ids as bound values.
pub open spec fn uid_values(uids: Seq<u64>) -> Seq<SqlValueView> {
    uids.map_values(|u: u64| SqlValueView::U64(u))
}

/// The query of the mailing addresses of the users with the given Drupal
/// ids.
pub fn by_uids_query(uids: &[u64]) -> (r: Vec<SqlPiece>)
    ensures
        pieces_view(r@) == seq![
            SqlPieceView::Sql(MAILING_ADDRESS_QUERY@),
            SqlPieceView::Sql("AND user__field_address.entity_id IN ("@),
        ] + separated_binds(uid_values(uids@)) + seq![SqlPieceView::Sql(") "@)],
{
    let mut values: Vec<SqlValue> = Vec::new();
    let mut i: usize = 0;
    while i < uids.len()
        invariant
            i <= uids@.len(),
            values_view(values@) == uid_values(uids@.take(i as int)),
        decreases uids@.len() - i,
    {
        let ghost before = values@;
        values.push(SqlValue::U64(uids[i]));
        proof {
            assert(values_view(values@) =~= values_view(before).push(SqlValueView::U64(uids@[i as int])));
            assert(uid_values(uids@.take(i + 1)) =~= uid_values(uids@.take(i as int)).push(
                SqlValueView::U64(uids@[i as int]),
            ));
        }
        i = i + 1;
    }
    assert(uids@.take(uids@.len() as int) =~= uids@);
    let mut r: Vec<SqlPiece> = Vec::new();
    push_sql(&mut r, MAILING_ADDRESS_QUERY);
    push_sql(&mut r, "AND user__field_address.entity_id IN (");
    push_separated_binds(&mut r, &values);
    push_sql(&mut r, ") ");
    assert(pieces_view(r@) =~= seq![
        SqlPieceView::Sql(MAILING_ADDRESS_QUERY@),
        SqlPieceView::Sql("AND user__field_address.entity_id IN ("@),
    ] + separated_binds(uid_values(uids@)) + seq![SqlPieceView::Sql(") "@)]);
    r
}

/// The Drupal ids of the members' primary users, whose addresses are
/// fetched for them.
pub fn for_members(members: &[Member]) -> (r: Vec<u64>)
    ensures
        r@ == members@.map_values(|m: Member| m.primary.uid),
{
    let mut r: Vec<u64> = Vec::new();
    let mut i: usize = 0;
    while i < members.len()
        invariant
            i <= members@.len(),
            r@ == members@.take(i as int).map_values(|m: Member| m.primary.uid),
        decreases members@.len() - i,
    {
        r.push(members[i].primary.uid);
        proof {
            assert(members@.take(i + 1).map_values(|m: Member| m.primary.uid) =~= members@.take(
                i as int,
            ).map_values(|m: Member| m.primary.uid).push(members@[i as int].primary.uid));
        }
        i = i + 1;
    }
    assert(members@.take(members@.len() as int) =~= members@);
    r
}

/// The addresses by their user's Drupal id; an address without a user is
/// left out, and of two addresses of one user the later one is kept.
pub open spec fn addresses_by_user_map(s: Seq<Address>) -> Map<u64, Address>
    decreases s.len(),
{
    if s.len() == 0 {
        Map::empty()
    } else {
        let m = addresses_by_user_map(s.drop_last());
        match s.last().user_id {
            Some(u) => m.insert(u, s.last()),
            None => m,
        }
    }
}

/// Indexes addresses by their user's Drupal id.
pub fn addresses_by_user(addresses: Vec<Address>) -> (r: HashMap<u64, Address>)
    ensures
        r@ == addresses_by_user_map(addresses@),
{
    broadcast use group_hash_axioms;
    let ghost s = addresses@;
    let n = addresses.len();
    let mut rest = addresses;
    let mut r: HashMap<u64, Address> = HashMap::new();
    let mut i: usize = 0;
    while rest.len() > 0
        invariant
            n == s.len(),
            i + rest@.len() == n,
            rest@ == s.skip(i as int),
            r@ == addresses_by_user_map(s.take(i as int)),
        decreases rest@.len(),
    {
        let a = rest.remove(0);
        proof {
            assert(a == s[i as int]);
            assert(s.take(i + 1).drop_last() =~= s.take(i as int));
            assert(s.take(i + 1).last() == s[i as int]);
            assert(rest@ =~= s.skip(i + 1));
        }
        match a.user_id {
            Some(u) => {
                r.insert(u, a);
            },
            None => {},
        }
        i = i + 1;
    }
    assert(s.take(s.len() as int) =~= s);
    r
}

} // verus!
