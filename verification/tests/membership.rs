use std::collections::HashMap;

use aci::date::Date;
use aci::db::user::id_for_email;
use aci::ddb::clubs::Club;
use aci::ddb::leadership::{Leadership, Role};
use aci::ddb::members::mailchimp::{
    address_to_values, club_to_values, to_member_tag_updates, to_members, to_members_with_address,
    to_tag_updates,
};
use aci::ddb::members::mailing_address::{addresses_by_user, by_uids_query};
use aci::ddb::members::{
    brns_for, dedupe_members, Address, Brns, DecodeError, DecodeKind, LocalClub, Member, MemberClass,
    MemberStatus, MemberType, PartnerUser,
};
use aci::ddb::users::User;
use aci::mailchimp::members::{member_id, MemberTagStatus};
use aci::mailchimp::merge_fields::{MergeField, MergeFields, MergeValue};

fn ddb_user(uid: u64, email: &str) -> User {
    User {
        uid,
        email: email.to_string(),
        first_name: Some("Jane".to_string()),
        last_name: Some("Doe".to_string()),
        birthday: None,
        last_login: Some(Date { year: 2024, month: 3, day: 1 }),
    }
}

fn member(uid: u64, email: &str, member_type: MemberType) -> Member {
    Member {
        member_class: MemberClass::Regular,
        member_type,
        member_status: MemberStatus::Current,
        primary: ddb_user(uid, email),
        partner: None,
        expiration_date: None,
        join_date: None,
        local_club: Club { uid: 11, number: Some(42), name: "Alpha".to_string(), region: Some(3) },
        brns: vec!["B-1".to_string(), "B-2".to_string()],
    }
}

fn fields(tags: &[&str]) -> MergeFields {
    MergeFields {
        fields: tags
            .iter()
            .map(|t| {
                let mut f = MergeField::default();
                f.tag = t.to_string();
                f
            })
            .collect(),
    }
}

fn tags_of(values: &[aci::mailchimp::merge_fields::MergeFieldValue]) -> Vec<String> {
    values.iter().map(|v| v.tag.clone()).collect()
}

#[test]
fn member_classes_decode_in_any_case() {
    assert!(MemberClass::try_from("Lifetime".to_string()).ok().unwrap() == MemberClass::Lifetime);
    match MemberClass::try_from("Gold".to_string()) {
        Err(DecodeError::Unexpected { kind, value }) => {
            assert!(kind == DecodeKind::MemberClass);
            assert_eq!(value, "gold");
        }
        _ => panic!("expected an error"),
    }
    assert_eq!(MemberClass::Complimentary.as_str(), "complimentary");
    assert!(MemberClass::default() == MemberClass::Regular);
}

#[test]
fn member_statuses_decode_from_ids() {
    assert!(MemberStatus::try_from_status_id(947).ok().unwrap() == MemberStatus::Current);
    assert!(MemberStatus::try_from_status_id(1099).ok().unwrap() == MemberStatus::Current);
    assert!(MemberStatus::try_from_status_id(951).ok().unwrap() == MemberStatus::Lapsed);
    assert!(matches!(MemberStatus::try_from_status_id(5), Err(DecodeError::UnexpectedStatusId(5))));
    assert!(MemberStatus::try_from("LAPSED".to_string()).ok().unwrap() == MemberStatus::Lapsed);
    assert_eq!(MemberStatus::Lapsed.as_str(), "lapsed");
}

#[test]
fn member_types_decode_from_field_names() {
    assert!(MemberType::try_from("field_home_club".to_string()).ok().unwrap() == MemberType::Regular);
    assert!(MemberType::try_from("field_memberships".to_string()).ok().unwrap() == MemberType::Affiliate);
    assert!(MemberType::try_from("Affiliate".to_string()).ok().unwrap() == MemberType::Affiliate);
    assert!(MemberType::try_from("other".to_string()).is_err());
    assert_eq!(MemberType::Affiliate.as_str(), "affiliate");
}

#[test]
fn row_parts_decode() {
    let partner = PartnerUser {
        partner_uid: Some(8),
        partner_email: Some("john@example.org".to_string()),
        partner_first_name: None,
        partner_last_name: None,
        partner_birthday: None,
        partner_last_login: None,
    };
    let u = partner.into_user().unwrap();
    assert_eq!(u.uid, 8);
    assert_eq!(u.email, "john@example.org");
    let none = PartnerUser {
        partner_uid: None,
        partner_email: None,
        partner_first_name: None,
        partner_last_name: None,
        partner_birthday: None,
        partner_last_login: None,
    };
    assert!(none.into_user().is_none());
    let club = LocalClub { club_name: None, club_uid: None, club_number: Some(3), club_region: Some(1), club_region_uid: Some(99) }.into_club();
    assert_eq!(club.uid, 0);
    assert_eq!(club.name, "");
    assert_eq!(club.region, Some(99));
    assert_eq!(Brns { brns: Some("A1, B2 ,C3".to_string()) }.into_numbers(), vec!["A1", "B2", "C3"]);
    assert_eq!(Brns { brns: None }.into_numbers(), vec![""]);
}

#[test]
fn affiliates_that_are_regular_members_are_dropped() {
    let members = vec![
        member(1, "a@example.org", MemberType::Affiliate),
        member(2, "a@example.org", MemberType::Regular),
        member(3, "b@example.org", MemberType::Affiliate),
        member(4, "b@example.org", MemberType::Affiliate),
    ];
    let mut kept: Vec<(u64, String)> =
        dedupe_members(members).into_iter().map(|m| (m.primary.uid, m.primary.email)).collect();
    kept.sort();
    assert_eq!(kept, vec![(2, "a@example.org".to_string()), (4, "b@example.org".to_string())]);
}

#[test]
fn tags_follow_class_type_and_status() {
    let mut m = member(1, "jane@example.org", MemberType::Affiliate);
    m.member_class = MemberClass::Lifetime;
    let tags: Vec<(String, bool)> = to_member_tag_updates(&m)
        .into_iter()
        .map(|u| (u.name, u.status == MemberTagStatus::Active))
        .collect();
    assert_eq!(
        tags,
        vec![
            ("affiliate".to_string(), true),
            ("member".to_string(), false),
            ("lifetime".to_string(), true),
            ("lapsed".to_string(), false),
        ]
    );
}

#[test]
fn tag_updates_skip_unsubscribable_emails() {
    let mut m = member(1, "jane@example.org", MemberType::Regular);
    m.partner = Some(ddb_user(2, "john@noemail.com"));
    let mut other = member(3, "", MemberType::Regular);
    other.partner = Some(ddb_user(4, "john@example.org"));
    let updates = to_tag_updates(&[m, other]);
    let ids: Vec<String> = updates.iter().map(|(id, _)| id.clone()).collect();
    assert_eq!(ids, vec![member_id("jane@example.org"), member_id("john@example.org")]);
    assert_eq!(updates[0].1.len(), 4);
}

#[test]
fn merge_values_of_addresses_and_clubs() {
    let f = fields(&["ZIP", "COUNTRY", "CLUB", "REGION"]);
    let address = Address {
        user_id: Some(1),
        street_address: None,
        street_address_2: None,
        zip_code: Some("12345".to_string()),
        city: None,
        state: Some("OR".to_string()),
        country: None,
    };
    assert_eq!(tags_of(&address_to_values(&Some(address), &f)), vec!["ZIP"]);
    assert!(address_to_values(&None, &f).is_empty());
    let club = Club { uid: 1, number: Some(42), name: "Alpha".to_string(), region: Some(3) };
    let values = club_to_values(&club, &f);
    assert_eq!(tags_of(&values), vec!["CLUB", "REGION"]);
    assert!(matches!(values[1].value, MergeValue::Unsigned(3)));
}

#[test]
fn partners_come_first_and_name_the_primary() {
    let f = fields(&["FNAME", "UID", "BRN", "CLUB_NR"]);
    let mut m = member(1, "jane@example.org", MemberType::Regular);
    m.partner = Some(ddb_user(2, "john@example.org"));
    let members = to_members(&m, &None, &f);
    assert_eq!(members.len(), 2);
    assert_eq!(members[0].email_address, "john@example.org");
    assert_eq!(members[0].id, member_id("john@example.org"));
    let partner_tags = tags_of(members[0].merge_fields.as_ref().unwrap());
    assert_eq!(partner_tags, vec!["FNAME", "UID", "BRN", "CLUB_NR", "PRIMARY"]);
    assert!(matches!(members[0].merge_fields.as_ref().unwrap()[4].value, MergeValue::Text(ref s) if s == "jane@example.org"));
    assert_eq!(members[1].email_address, "jane@example.org");
    assert_eq!(tags_of(members[1].merge_fields.as_ref().unwrap()), vec!["FNAME", "UID", "BRN", "CLUB_NR"]);
    assert!(matches!(members[1].merge_fields.as_ref().unwrap()[2].value, MergeValue::Text(ref s) if s == "B-1"));
}

#[test]
fn members_get_their_mailing_address() {
    let f = fields(&["ZIP"]);
    let addresses = vec![
        Address { user_id: Some(1), street_address: None, street_address_2: None, zip_code: Some("111".to_string()), city: None, state: None, country: None },
        Address { user_id: None, street_address: None, street_address_2: None, zip_code: Some("222".to_string()), city: None, state: None, country: None },
        Address { user_id: Some(1), street_address: None, street_address_2: None, zip_code: Some("333".to_string()), city: None, state: None, country: None },
    ];
    let map: HashMap<u64, Address> = addresses_by_user(addresses);
    assert_eq!(map.len(), 1);
    let members = vec![member(1, "jane@example.org", MemberType::Regular), member(5, "x@example.org", MemberType::Regular)];
    let out = to_members_with_address(&members, &map, &f);
    assert_eq!(out.len(), 2);
    assert!(matches!(out[0].merge_fields.as_ref().unwrap()[0].value, MergeValue::Text(ref s) if s == "333"));
    assert!(out[1].merge_fields.as_ref().unwrap().is_empty());
}

#[test]
fn addresses_and_brns_go_to_the_primary_user() {
    let m = member(1, "Jane@Example.org", MemberType::Regular);
    let brns = brns_for(&m);
    assert_eq!(brns.len(), 2);
    assert_eq!(brns[1].number, "B-2");
    assert_eq!(brns[0].user_id, id_for_email("jane@example.org"));
    let address = Address { user_id: Some(1), street_address: Some("1 Main".to_string()), street_address_2: None, zip_code: None, city: None, state: None, country: None };
    let db = address.to_db_address_for_member(&m);
    assert_eq!(db.user_id, id_for_email("jane@example.org"));
    assert_eq!(db.street_address.as_deref(), Some("1 Main"));
}

#[test]
fn drupal_rows_convert_to_application_rows() {
    let u = aci::db::user::User::from(ddb_user(7, "jane@example.org"));
    assert_eq!(u.uid, 7);
    assert_eq!(u.id, id_for_email("jane@example.org"));
    assert!(u.phone_home.is_none());
    let c = aci::db::club::Club::from(Club { uid: 11, number: Some(42), name: "Alpha".to_string(), region: Some(3) });
    assert_eq!((c.uid, c.number, c.region), (11, Some(42), Some(3)));
    let lead = Leadership {
        entity_uid: 11,
        role: Role { uid: 5, title: "Treasurer".to_string() },
        start_date: Date { year: 2024, month: 1, day: 1 },
        end_date: None,
        user: ddb_user(7, "jane@example.org"),
    };
    let l = aci::db::standing_committee::Leadership::from(lead);
    assert_eq!(l.standing_committee.uid, 11);
    assert!(l.standing_committee.active);
    assert_eq!(l.role.uid, 5);
    assert_eq!(l.role.title, "Treasurer");
}

#[test]
fn mailing_addresses_of_several_users() {
    let q = by_uids_query(&[3, 4]);
    let binds = q.iter().filter(|p| matches!(p, aci::db::query::SqlPiece::Bind(_))).count();
    assert_eq!(binds, 2);
    assert!(matches!(q.last(), Some(aci::db::query::SqlPiece::Sql(s)) if s == ") "));
}

#[test]
fn displayed_member_names_read_back() {
    for c in [MemberClass::Regular, MemberClass::Lifetime, MemberClass::Complimentary] {
        assert!(MemberClass::try_from(c.as_str().to_string()).ok().unwrap() == c);
    }
    for s in [MemberStatus::Current, MemberStatus::Lapsed] {
        assert!(MemberStatus::try_from(s.as_str().to_string()).ok().unwrap() == s);
    }
    for t in [MemberType::Regular, MemberType::Affiliate] {
        assert!(MemberType::try_from(t.as_str().to_string()).ok().unwrap() == t);
    }
}

#[test]
fn tags_go_to_the_upserted_members() {
    let f = fields(&[]);
    let mut m = member(1, "jane@example.org", MemberType::Regular);
    m.partner = Some(ddb_user(2, "john@example.org"));
    let mut tagged: Vec<String> = to_tag_updates(std::slice::from_ref(&m)).into_iter().map(|(id, _)| id).collect();
    let mut upserted: Vec<String> = to_members(&m, &None, &f).into_iter().map(|a| a.id).collect();
    tagged.sort();
    upserted.sort();
    assert_eq!(tagged, upserted);
    let mut affiliate = member(3, "x@example.org", MemberType::Affiliate);
    affiliate.member_status = MemberStatus::Lapsed;
    let tags = to_member_tag_updates(&affiliate);
    assert!((tags[0].status == MemberTagStatus::Active) != (tags[1].status == MemberTagStatus::Active));
    assert!(tags[3].status == MemberTagStatus::Active);
}

#[test]
fn member_names_decode_in_any_case() {
    for c in [MemberClass::Regular, MemberClass::Lifetime, MemberClass::Complimentary] {
        assert!(MemberClass::try_from(c.as_str().to_uppercase()).ok().unwrap() == c);
    }
    assert!(MemberClass::try_from("LiFeTiMe".to_string()).ok().unwrap() == MemberClass::Lifetime);
    assert!(MemberType::try_from("FIELD_HOME_CLUB".to_string()).ok().unwrap() == MemberType::Regular);
}
