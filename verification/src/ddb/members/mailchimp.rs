//! Members of the Drupal site as members of a Mailchimp audience: their
//! merge field values and their tags.
use vstd::prelude::*;
use vstd::std_specs::hash::*;
use std::collections::HashMap;
use crate::date::Date;
use crate::ddb::clubs::Club;
use crate::ddb::members::{Address, Member, MemberClass, MemberStatus, MemberType, same_address};
use crate::ddb::users::User;
use crate::mailchimp::members::{
    Member as AudienceMember, MemberStatus as AudienceStatus, MemberTagStatus, MemberTagUpdate,
    is_valid_email, member_id, spec_is_valid_email, spec_member_id, tag_updates_view,
};
use crate::mailchimp::merge_fields::{
    MergeField, MergeFieldValue, MergeFields, MergeValue, MergeValueView, field_values_view, has_merge_tag,
    merge_entry, opt_field_view, opt_value_view, present, push_present,
};

verus! {

// ---------------------------------------------------------------- tags

/// Whether a tag is applied.
pub open spec fn tag_status(active: bool) -> MemberTagStatus {
    if active {
        MemberTagStatus::Active
    } else {
        MemberTagStatus::Inactive
    }
}

/// The tags a member carries: `affiliate`, `member`, `lifetime` and
/// `lapsed`, each applied or removed.
pub open spec fn member_tags(m: Member) -> Seq<(Seq<char>, MemberTagStatus)> {
    seq![
        ("affiliate"@, tag_status(m.member_type == MemberType::Affiliate)),
        ("member"@, tag_status(m.member_type == MemberType::Regular)),
        ("lifetime"@, tag_status(m.member_class == MemberClass::Lifetime)),
        ("lapsed"@, tag_status(m.member_status == MemberStatus::Lapsed)),
    ]
}

/// A tag update.
fn tag_update(name: &str, active: bool) -> (r: MemberTagUpdate)
    ensures
        r.name@ == name@,
        r.status == tag_status(active),
{
    let status = if active {
        MemberTagStatus::Active
    } else {
        MemberTagStatus::Inactive
    };
    MemberTagUpdate { name: name.to_owned(), status }
}

/// The tag updates of a member.
pub fn to_member_tag_updates(member: &Member) -> (r: Vec<MemberTagUpdate>)
    ensures
        tag_updates_view(r@) == member_tags(*member),
{
    let mut r: Vec<MemberTagUpdate> = Vec::new();
    r.push(tag_update("affiliate", member.member_type == MemberType::Affiliate));
    r.push(tag_update("member", member.member_type == MemberType::Regular));
    r.push(tag_update("lifetime", member.member_class == MemberClass::Lifetime));
    r.push(tag_update("lapsed", member.member_status == MemberStatus::Lapsed));
    assert(tag_updates_view(r@) =~= member_tags(*member));
    r
}

/// A member id with its tag updates, as plain values.
pub open spec fn id_tags_view(p: (String, Vec<MemberTagUpdate>)) -> (Seq<char>, Seq<(Seq<char>, MemberTagStatus)>) {
    (p.0@, tag_updates_view(p.1@))
}

/// The tag updates due for one member: for the primary user and for the
/// partner, each when their email may be subscribed.
pub open spec fn member_tag_entries(m: Member) -> Seq<(Seq<char>, Seq<(Seq<char>, MemberTagStatus)>)> {
    let primary = if spec_is_valid_email(m.primary.email@) {
        seq![(spec_member_id(m.primary.email@), member_tags(m))]
    } else {
        Seq::empty()
    };
    let partner = match m.partner {
        Some(p) => if spec_is_valid_email(p.email@) {
            seq![(spec_member_id(p.email@), member_tags(m))]
        } else {
            Seq::empty()
        },
        None => Seq::empty(),
    };
    primary + partner
}

/// The tag updates due for members, in order.
pub open spec fn tag_updates_of(members: Seq<Member>) -> Seq<(Seq<char>, Seq<(Seq<char>, MemberTagStatus)>)>
    decreases members.len(),
{
    if members.len() == 0 {
        Seq::empty()
    } else {
        tag_updates_of(members.drop_last()) + member_tag_entries(members.last())
    }
}

/// The member ids of the members' users with their tag updates.
pub fn to_tag_updates(members: &[Member]) -> (r: Vec<(String, Vec<MemberTagUpdate>)>)
    ensures
        r@.map_values(|p: (String, Vec<MemberTagUpdate>)| id_tags_view(p)) == tag_updates_of(members@),
{
    let mut r: Vec<(String, Vec<MemberTagUpdate>)> = Vec::new();
    let mut i: usize = 0;
    while i < members.len()
        invariant
            i <= members@.len(),
            r@.map_values(|p: (String, Vec<MemberTagUpdate>)| id_tags_view(p)) == tag_updates_of(
                members@.take(i as int),
            ),
        decreases members@.len() - i,
    {
        let member = &members[i];
        let ghost before = r@.map_values(|p: (String, Vec<MemberTagUpdate>)| id_tags_view(p));
        if is_valid_email(member.primary.email.as_str()) {
            r.push((member_id(member.primary.email.as_str()), to_member_tag_updates(member)));
        }
        let ghost mid = r@.map_values(|p: (String, Vec<MemberTagUpdate>)| id_tags_view(p));
        match &member.partner {
            Some(partner) => {
                if is_valid_email(partner.email.as_str()) {
                    r.push((member_id(partner.email.as_str()), to_member_tag_updates(member)));
                }
            },
            None => {},
        }
        proof {
            assert(members@.take(i + 1).drop_last() =~= members@.take(i as int));
            assert(members@.take(i + 1).last() == members@[i as int]);
            let after = r@.map_values(|p: (String, Vec<MemberTagUpdate>)| id_tags_view(p));
            let m = members@[i as int];
            let primary = if spec_is_valid_email(m.primary.email@) {
                seq![(spec_member_id(m.primary.email@), member_tags(m))]
            } else {
                Seq::empty()
            };
            assert(mid =~= before + primary);
            assert(after =~= before + member_tag_entries(m));
        }
        i = i + 1;
    }
    assert(members@.take(members@.len() as int) =~= members@);
    r
}

// ---------------------------------------------------------------- merge fields

/// The present values among optional ones, one more at a time.
pub proof fn lemma_present_push<A>(s: Seq<Option<A>>, x: Option<A>)
    ensures
        present(s.push(x)) == present(s) + present(seq![x]),
{
    assert(s.push(x).drop_last() =~= s);
    assert(seq![x].drop_last() =~= Seq::<Option<A>>::empty());
    assert(present(Seq::<Option<A>>::empty()) =~= Seq::<A>::empty());
    match x {
        Some(a) => {
            assert(present(seq![x]) =~= seq![a]);
        },
        None => {
            assert(present(seq![x]) =~= Seq::<A>::empty());
        },
    }
    assert(present(s.push(x)) =~= present(s) + present(seq![x]));
}

/// An optional text as an optional value.
pub open spec fn text_value(t: Option<String>) -> Option<MergeValueView> {
    match t {
        Some(s) => Some(MergeValueView::Text(s@)),
        None => None,
    }
}

/// An optional text, as plain characters, as an optional value.
pub open spec fn text_view_value(t: Option<Seq<char>>) -> Option<MergeValueView> {
    match t {
        Some(s) => Some(MergeValueView::Text(s)),
        None => None,
    }
}

/// An optional date as an optional value.
pub open spec fn date_value(d: Option<Date>) -> Option<MergeValueView> {
    match d {
        Some(x) => Some(MergeValueView::Date(x)),
        None => None,
    }
}

/// An optional signed number as an optional value.
pub open spec fn signed_value(v: Option<i64>) -> Option<MergeValueView> {
    match v {
        Some(x) => Some(MergeValueView::Signed(x)),
        None => None,
    }
}

/// An optional unsigned number as an optional value.
pub open spec fn unsigned_value(v: Option<u64>) -> Option<MergeValueView> {
    match v {
        Some(x) => Some(MergeValueView::Unsigned(x)),
        None => None,
    }
}

/// The first BRN as an optional value.
pub open spec fn first_brn(brns: Seq<String>) -> Option<MergeValueView> {
    if brns.len() > 0 {
        Some(MergeValueView::Text(brns[0]@))
    } else {
        None
    }
}

fn opt_text_value(t: &Option<String>) -> (r: Option<MergeValue>)
    ensures
        opt_value_view(r) == text_value(*t),
{
    match t {
        Some(s) => Some(MergeValue::Text(s.clone())),
        None => None,
    }
}

fn opt_date_value(d: Option<Date>) -> (r: Option<MergeValue>)
    ensures
        opt_value_view(r) == date_value(d),
{
    match d {
        Some(x) => Some(MergeValue::Date(x)),
        None => None,
    }
}

fn opt_signed_value(v: Option<i64>) -> (r: Option<MergeValue>)
    ensures
        opt_value_view(r) == signed_value(v),
{
    match v {
        Some(x) => Some(MergeValue::Signed(x)),
        None => None,
    }
}

fn opt_unsigned_value(v: Option<u64>) -> (r: Option<MergeValue>)
    ensures
        opt_value_view(r) == unsigned_value(v),
{
    match v {
        Some(x) => Some(MergeValue::Unsigned(x)),
        None => None,
    }
}

fn first_brn_value(brns: &Vec<String>) -> (r: Option<MergeValue>)
    ensures
        opt_value_view(r) == first_brn(brns@),
{
    if brns.len() > 0 {
        Some(MergeValue::Text(brns[0].clone()))
    } else {
        None
    }
}

/// The merge field values of a user of a member: names, Drupal id,
/// birthday, last login, membership dates and first BRN.
pub open spec fn user_entries(fields: Seq<MergeField>, member: Member, user: User) -> Seq<
    Option<(Seq<char>, MergeValueView)>,
> {
    seq![
        merge_entry(fields, "FNAME"@, text_value(user.first_name)),
        merge_entry(fields, "LNAME"@, text_value(user.last_name)),
        merge_entry(fields, "UID"@, Some(MergeValueView::Unsigned(user.uid))),
        merge_entry(fields, "BDAY"@, date_value(user.birthday)),
        merge_entry(fields, "LLOGIN"@, date_value(user.last_login)),
        merge_entry(fields, "JOIN"@, date_value(member.join_date)),
        merge_entry(fields, "EXPIRE"@, date_value(member.expiration_date)),
        merge_entry(fields, "BRN"@, first_brn(member.brns@)),
    ]
}

/// The parts of an address that become merge field values: zip code,
/// state and country.
pub open spec fn address_parts(address: Option<Address>) -> Option<
    (Option<Seq<char>>, Option<Seq<char>>, Option<Seq<char>>),
> {
    match address {
        Some(a) => Some(
            (
                crate::text::opt_text_view(a.zip_code),
                crate::text::opt_text_view(a.state),
                crate::text::opt_text_view(a.country),
            ),
        ),
        None => None,
    }
}

/// The merge field values of an address.
pub open spec fn address_entries(
    fields: Seq<MergeField>,
    parts: Option<(Option<Seq<char>>, Option<Seq<char>>, Option<Seq<char>>)>,
) -> Seq<(Seq<char>, MergeValueView)> {
    match parts {
        Some(a) => present(
            seq![
                merge_entry(fields, "ZIP"@, text_view_value(a.0)),
                merge_entry(fields, "STATE"@, text_view_value(a.1)),
                merge_entry(fields, "COUNTRY"@, text_view_value(a.2)),
            ],
        ),
        None => Seq::empty(),
    }
}

/// The merge field values of a club: name, number and region.
pub open spec fn club_entries(fields: Seq<MergeField>, club: Club) -> Seq<(Seq<char>, MergeValueView)> {
    present(
        seq![
            merge_entry(fields, "CLUB"@, Some(MergeValueView::Text(club.name@))),
            merge_entry(fields, "CLUB_NR"@, signed_value(club.number)),
            merge_entry(fields, "REGION"@, unsigned_value(club.region)),
        ],
    )
}

/// The merge field values of a user of a member.
pub open spec fn member_values(
    fields: Seq<MergeField>,
    member: Member,
    address: Option<Address>,
    user: User,
) -> Seq<(Seq<char>, MergeValueView)> {
    present(user_entries(fields, member, user)) + address_entries(fields, address_parts(address))
        + club_entries(fields, member.local_club)
}

/// The merge field values of an address, when there is one.
pub fn address_to_values(address: &Option<Address>, merge_fields: &MergeFields) -> (r: Vec<MergeFieldValue>)
    ensures
        field_values_view(r@) == address_entries(merge_fields.fields@, address_parts(*address)),
{
    let address = match address {
        Some(a) => a,
        None => {
            return Vec::new();
        },
    };
    let ghost fields = merge_fields.fields@;
    let ghost a = address_parts(Some(*address))->0;
    let mut out: Vec<MergeFieldValue> = Vec::new();
    let ghost es: Seq<Option<(Seq<char>, MergeValueView)>> = Seq::empty();
    assert(field_values_view(out@) =~= present(es));
    let v = merge_fields.to_value("ZIP", opt_text_value(&address.zip_code));
    proof {
        lemma_present_push(es, opt_field_view(v));
    }
    push_present(&mut out, v);
    let ghost es = es.push(opt_field_view(v));
    let v = merge_fields.to_value("STATE", opt_text_value(&address.state));
    proof {
        lemma_present_push(es, opt_field_view(v));
    }
    push_present(&mut out, v);
    let ghost es = es.push(opt_field_view(v));
    let v = merge_fields.to_value("COUNTRY", opt_text_value(&address.country));
    proof {
        lemma_present_push(es, opt_field_view(v));
    }
    push_present(&mut out, v);
    let ghost es = es.push(opt_field_view(v));
    assert(es =~= seq![
        merge_entry(fields, "ZIP"@, text_view_value(a.0)),
        merge_entry(fields, "STATE"@, text_view_value(a.1)),
        merge_entry(fields, "COUNTRY"@, text_view_value(a.2)),
    ]);
    out
}

/// The merge field values of a club.
pub fn club_to_values(club: &Club, merge_fields: &MergeFields) -> (r: Vec<MergeFieldValue>)
    ensures
        field_values_view(r@) == club_entries(merge_fields.fields@, *club),
{
    let ghost fields = merge_fields.fields@;
    let mut out: Vec<MergeFieldValue> = Vec::new();
    let ghost es: Seq<Option<(Seq<char>, MergeValueView)>> = Seq::empty();
    assert(field_values_view(out@) =~= present(es));
    let v = merge_fields.to_value("CLUB", Some(MergeValue::Text(club.name.clone())));
    proof {
        lemma_present_push(es, opt_field_view(v));
    }
    push_present(&mut out, v);
    let ghost es = es.push(opt_field_view(v));
    let v = merge_fields.to_value("CLUB_NR", opt_signed_value(club.number));
    proof {
        lemma_present_push(es, opt_field_view(v));
    }
    push_present(&mut out, v);
    let ghost es = es.push(opt_field_view(v));
    let v = merge_fields.to_value("REGION", opt_unsigned_value(club.region));
    proof {
        lemma_present_push(es, opt_field_view(v));
    }
    push_present(&mut out, v);
    let ghost es = es.push(opt_field_view(v));
    assert(es =~= seq![
        merge_entry(fields, "CLUB"@, Some(MergeValueView::Text(club.name@))),
        merge_entry(fields, "CLUB_NR"@, signed_value(club.number)),
        merge_entry(fields, "REGION"@, unsigned_value(club.region)),
    ]);
    out
}

/// The merge field values of one user of a member.
fn user_values(member: &Member, user: &User, merge_fields: &MergeFields) -> (r: Vec<MergeFieldValue>)
    ensures
        field_values_view(r@) == present(user_entries(merge_fields.fields@, *member, *user)),
{
    let ghost fields = merge_fields.fields@;
    let mut out: Vec<MergeFieldValue> = Vec::new();
    let ghost es: Seq<Option<(Seq<char>, MergeValueView)>> = Seq::empty();
    assert(field_values_view(out@) =~= present(es));
    let v = merge_fields.to_value("FNAME", opt_text_value(&user.first_name));
    proof {
        lemma_present_push(es, opt_field_view(v));
    }
    push_present(&mut out, v);
    let ghost es = es.push(opt_field_view(v));
    let v = merge_fields.to_value("LNAME", opt_text_value(&user.last_name));
    proof {
        lemma_present_push(es, opt_field_view(v));
    }
    push_present(&mut out, v);
    let ghost es = es.push(opt_field_view(v));
    let v = merge_fields.to_value("UID", Some(MergeValue::Unsigned(user.uid)));
    proof {
        lemma_present_push(es, opt_field_view(v));
    }
    push_present(&mut out, v);
    let ghost es = es.push(opt_field_view(v));
    let v = merge_fields.to_value("BDAY", opt_date_value(user.birthday));
    proof {
        lemma_present_push(es, opt_field_view(v));
    }
    push_present(&mut out, v);
    let ghost es = es.push(opt_field_view(v));
    let v = merge_fields.to_value("LLOGIN", opt_date_value(user.last_login));
    proof {
        lemma_present_push(es, opt_field_view(v));
    }
    push_present(&mut out, v);
    let ghost es = es.push(opt_field_view(v));
    let v = merge_fields.to_value("JOIN", opt_date_value(member.join_date));
    proof {
        lemma_present_push(es, opt_field_view(v));
    }
    push_present(&mut out, v);
    let ghost es = es.push(opt_field_view(v));
    let v = merge_fields.to_value("EXPIRE", opt_date_value(member.expiration_date));
    proof {
        lemma_present_push(es, opt_field_view(v));
    }
    push_present(&mut out, v);
    let ghost es = es.push(opt_field_view(v));
    let v = merge_fields.to_value("BRN", first_brn_value(&member.brns));
    proof {
        lemma_present_push(es, opt_field_view(v));
    }
    push_present(&mut out, v);
    let ghost es = es.push(opt_field_view(v));
    assert(es =~= seq![
        merge_entry(fields, "FNAME"@, text_value(user.first_name)),
        merge_entry(fields, "LNAME"@, text_value(user.last_name)),
        merge_entry(fields, "UID"@, Some(MergeValueView::Unsigned(user.uid))),
        merge_entry(fields, "BDAY"@, date_value(user.birthday)),
        merge_entry(fields, "LLOGIN"@, date_value(user.last_login)),
        merge_entry(fields, "JOIN"@, date_value(member.join_date)),
        merge_entry(fields, "EXPIRE"@, date_value(member.expiration_date)),
        merge_entry(fields, "BRN"@, first_brn(member.brns@)),
    ]);
    out
}

/// `r` is the audience member with this email and these merge field
/// values, subscribed when new.
pub open spec fn is_audience_member(
    r: AudienceMember,
    email: Seq<char>,
    values: Seq<(Seq<char>, MergeValueView)>,
) -> bool {
    &&& r.id@ == spec_member_id(email)
    &&& r.email_address@ == email
    &&& r.merge_fields matches Some(v) && field_values_view(v@) == values
    &&& r.status_if_new == Some(AudienceStatus::Subscribed)
    &&& r.full_name@ == Seq::<char>::empty()
    &&& r.status is None
    &&& r.tags_count is None
    &&& r.tags@.len() == 0
}

/// A user of a member as an audience member.
pub fn to_member(member: &Member, address: &Option<Address>, user: &User, merge_fields: &MergeFields) -> (r:
    AudienceMember)
    ensures
        is_audience_member(r, user.email@, member_values(merge_fields.fields@, *member, *address, *user)),
{
    let mut values = user_values(member, user, merge_fields);
    let mut address_values = address_to_values(address, merge_fields);
    let mut club_values = club_to_values(&member.local_club, merge_fields);
    let ghost v1 = field_values_view(values@);
    let ghost v2 = field_values_view(address_values@);
    let ghost v3 = field_values_view(club_values@);
    values.append(&mut address_values);
    values.append(&mut club_values);
    assert(field_values_view(values@) =~= v1 + v2 + v3);
    AudienceMember {
        id: member_id(user.email.as_str()),
        email_address: user.email.clone(),
        full_name: String::new(),
        status_if_new: Some(AudienceStatus::Subscribed),
        status: None,
        merge_fields: Some(values),
        tags_count: None,
        tags: Vec::new(),
    }
}

/// The audience members a member becomes, by email and merge field
/// values: the partner first, with the primary email as `PRIMARY`, then
/// the primary user, each when the email may be subscribed.
pub open spec fn expected_members(
    fields: Seq<MergeField>,
    member: Member,
    address: Option<Address>,
) -> Seq<(Seq<char>, Seq<(Seq<char>, MergeValueView)>)> {
    let partner = match member.partner {
        Some(p) => if spec_is_valid_email(p.email@) {
            seq![
                (
                    p.email@,
                    member_values(fields, member, address, p).push(
                        ("PRIMARY"@, MergeValueView::Text(member.primary.email@)),
                    ),
                ),
            ]
        } else {
            Seq::empty()
        },
        None => Seq::empty(),
    };
    let primary = if spec_is_valid_email(member.primary.email@) {
        seq![(member.primary.email@, member_values(fields, member, address, member.primary))]
    } else {
        Seq::empty()
    };
    partner + primary
}

/// `r` are the audience members `expected` describes, in order.
pub open spec fn are_audience_members(
    r: Seq<AudienceMember>,
    expected: Seq<(Seq<char>, Seq<(Seq<char>, MergeValueView)>)>,
) -> bool {
    &&& r.len() == expected.len()
    &&& forall|i: int| 0 <= i < r.len() ==> is_audience_member(#[trigger] r[i], expected[i].0, expected[i].1)
}

/// The audience members a member becomes.
pub fn to_members(member: &Member, address: &Option<Address>, merge_fields: &MergeFields) -> (r: Vec<
    AudienceMember,
>)
    ensures
        are_audience_members(r@, expected_members(merge_fields.fields@, *member, *address)),
{
    let primary = to_member(member, address, &member.primary, merge_fields);
    let mut result: Vec<AudienceMember> = Vec::new();
    match &member.partner {
        Some(partner_user) => {
            let mut partner = to_member(member, address, partner_user, merge_fields);
            let mut values = match partner.merge_fields {
                Some(v) => v,
                None => Vec::new(),
            };
            let ghost before = field_values_view(values@);
            values.push(
                MergeFieldValue {
                    tag: "PRIMARY".to_owned(),
                    value: MergeValue::Text(member.primary.email.clone()),
                },
            );
            assert(field_values_view(values@) =~= before.push(
                ("PRIMARY"@, MergeValueView::Text(member.primary.email@)),
            ));
            partner.merge_fields = Some(values);
            if is_valid_email(partner.email_address.as_str()) {
                result.push(partner);
            }
        },
        None => {},
    }
    if is_valid_email(primary.email_address.as_str()) {
        result.push(primary);
    }
    proof {
        let e = expected_members(merge_fields.fields@, *member, *address);
        assert(result@.len() == e.len());
        assert forall|i: int| 0 <= i < result@.len() implies is_audience_member(
            #[trigger] result@[i],
            e[i].0,
            e[i].1,
        ) by {}
    }
    result
}

/// The address of a user, when the map has one.
pub open spec fn address_of(addresses: Map<u64, Address>, uid: u64) -> Option<Address> {
    if addresses.contains_key(uid) {
        Some(addresses[uid])
    } else {
        None
    }
}

/// The audience members that members become, in order, each with the
/// mailing address of its primary user.
pub open spec fn expected_all(
    fields: Seq<MergeField>,
    members: Seq<Member>,
    addresses: Map<u64, Address>,
) -> Seq<(Seq<char>, Seq<(Seq<char>, MergeValueView)>)>
    decreases members.len(),
{
    if members.len() == 0 {
        Seq::empty()
    } else {
        expected_all(fields, members.drop_last(), addresses) + expected_members(
            fields,
            members.last(),
            address_of(addresses, members.last().primary.uid),
        )
    }
}

/// The audience members that members become, each with the mailing
/// address of its primary user.
pub fn to_members_with_address(
    members: &[Member],
    addresses: &HashMap<u64, Address>,
    merge_fields: &MergeFields,
) -> (r: Vec<AudienceMember>)
    ensures
        are_audience_members(r@, expected_all(merge_fields.fields@, members@, addresses@)),
{
    broadcast use group_hash_axioms;
    let mut r: Vec<AudienceMember> = Vec::new();
    let mut i: usize = 0;
    while i < members.len()
        invariant
            i <= members@.len(),
            are_audience_members(r@, expected_all(merge_fields.fields@, members@.take(i as int), addresses@)),
        decreases members@.len() - i,
    {
        let member = &members[i];
        let address = match addresses.get(&member.primary.uid) {
            Some(a) => Some(a.duplicate()),
            None => None,
        };
        let ghost expected_address = address_of(addresses@, member.primary.uid);
        assert(address_parts(address) == address_parts(expected_address));
        let mut converted = to_members(member, &address, merge_fields);
        let ghost before = r@;
        let ghost added = converted@;
        r.append(&mut converted);
        proof {
            let fields = merge_fields.fields@;
            assert(members@.take(i + 1).drop_last() =~= members@.take(i as int));
            assert(members@.take(i + 1).last() == members@[i as int]);
            assert(member_values(fields, *member, address, member.primary) == member_values(fields, *member, expected_address, member.primary));
            let mm = *member;
            match mm.partner {
                Some(p) => {
                    assert(member_values(fields, *member, address, p) == member_values(fields, *member, expected_address, p));
                },
                None => {},
            }
            assert(expected_members(fields, *member, address) =~= expected_members(fields, *member, expected_address));
            let e_old = expected_all(fields, members@.take(i as int), addresses@);
            let e_new = expected_all(fields, members@.take(i + 1), addresses@);
            assert(e_new =~= e_old + expected_members(fields, *member, expected_address));
            assert(r@ =~= before + added);
            assert forall|k: int| 0 <= k < r@.len() implies is_audience_member(
                #[trigger] r@[k],
                e_new[k].0,
                e_new[k].1,
            ) by {
                if k < before.len() {
                    assert(r@[k] == before[k]);
                } else {
                    assert(r@[k] == added[k - before.len()]);
                }
            }
        }
        i = i + 1;
    }
    assert(members@.take(members@.len() as int) =~= members@);
    r
}

/// Every member is tagged `member` or `affiliate`, never both.
pub proof fn lemma_member_or_affiliate(m: Member)
    ensures
        member_tags(m).len() == 4,
        (member_tags(m)[0].1 == MemberTagStatus::Active) != (member_tags(m)[1].1 == MemberTagStatus::Active),
{
}

/// Tags go to exactly the audience members a member becomes: the ids that
/// receive tag updates are the ids of the members upserted for it.
pub proof fn lemma_tags_follow_members(fields: Seq<MergeField>, m: Member, address: Option<Address>)
    ensures
        member_tag_entries(m).map_values(|e: (Seq<char>, Seq<(Seq<char>, MemberTagStatus)>)| e.0).to_set()
            == expected_members(fields, m, address).map_values(
            |x: (Seq<char>, Seq<(Seq<char>, MergeValueView)>)| spec_member_id(x.0),
        ).to_set(),
{
    let tags = member_tag_entries(m).map_values(|e: (Seq<char>, Seq<(Seq<char>, MemberTagStatus)>)| e.0);
    let members = expected_members(fields, m, address).map_values(
        |x: (Seq<char>, Seq<(Seq<char>, MergeValueView)>)| spec_member_id(x.0),
    );
    assert forall|id: Seq<char>| tags.contains(id) <==> members.contains(id) by {
        if tags.contains(id) {
            let k = choose|k: int| 0 <= k < tags.len() && tags[k] == id;
            if members.len() == 2 {
                assert(members[0] == tags[1] || members[1] == tags[1]);
                assert(members[0] == tags[0] || members[1] == tags[0]);
            } else if members.len() == 1 {
                assert(members[0] == tags[k]);
            }
        }
        if members.contains(id) {
            let k = choose|k: int| 0 <= k < members.len() && members[k] == id;
            if tags.len() == 2 {
                assert(tags[0] == members[k] || tags[1] == members[k]);
            } else {
                assert(tags[0] == members[k]);
            }
        }
    }
    assert(tags.to_set() =~= members.to_set());
}

/// The tags of a member, in order: `affiliate`, applied exactly when it is
/// an affiliate; `member`, exactly when it is a regular member;
/// `lifetime`, exactly when its class is lifetime; `lapsed`, exactly when
/// its membership has lapsed. A tag not applied is removed.
pub proof fn lemma_member_tags(m: Member)
    ensures
        member_tags(m).len() == 4,
        member_tags(m)[0].0 == "affiliate"@,
        member_tags(m)[1].0 == "member"@,
        member_tags(m)[2].0 == "lifetime"@,
        member_tags(m)[3].0 == "lapsed"@,
        (member_tags(m)[0].1 == MemberTagStatus::Active) <==> m.member_type == MemberType::Affiliate,
        (member_tags(m)[1].1 == MemberTagStatus::Active) <==> m.member_type == MemberType::Regular,
        (member_tags(m)[2].1 == MemberTagStatus::Active) <==> m.member_class == MemberClass::Lifetime,
        (member_tags(m)[3].1 == MemberTagStatus::Active) <==> m.member_status == MemberStatus::Lapsed,
        forall|i: int|
            0 <= i < 4 ==> (#[trigger] member_tags(m)[i]).1 == MemberTagStatus::Active || member_tags(m)[i].1
                == MemberTagStatus::Inactive,
{
}

/// A value present among optional ones is kept by `present`.
pub proof fn lemma_present_contains<A>(s: Seq<Option<A>>, i: int)
    requires
        0 <= i < s.len(),
        s[i] is Some,
    ensures
        present(s).contains(s[i]->0),
    decreases s.len(),
{
    let p = present(s.drop_last());
    if i == s.len() - 1 {
        assert(present(s) == p.push(s[i]->0));
        assert(present(s)[p.len() as int] == s[i]->0);
    } else {
        assert(s.drop_last()[i] == s[i]);
        lemma_present_contains(s.drop_last(), i);
        let k = choose|k: int| 0 <= k < p.len() && p[k] == s[i]->0;
        match s.last() {
            Some(x) => {
                assert(present(s) == p.push(x));
                assert(present(s)[k] == p[k]);
            },
            None => {},
        }
    }
}

/// An audience member built from a user carries, for each of these merge
/// fields the audience has, the user's or member's value: `FNAME` the first
/// name, `LNAME` the last name, `UID` the Drupal id, `BDAY` the birthday,
/// `LLOGIN` the last login, `JOIN` the join date, `EXPIRE` the expiration
/// date and `BRN` the first BRN, each when there is one.
pub proof fn lemma_user_values(fields: Seq<MergeField>, m: Member, a: Option<Address>, u: User)
    ensures
        has_merge_tag(fields, "FNAME"@) && u.first_name is Some ==> member_values(fields, m, a, u).contains(
            ("FNAME"@, MergeValueView::Text(u.first_name->0@)),
        ),
        has_merge_tag(fields, "LNAME"@) && u.last_name is Some ==> member_values(fields, m, a, u).contains(
            ("LNAME"@, MergeValueView::Text(u.last_name->0@)),
        ),
        has_merge_tag(fields, "UID"@) ==> member_values(fields, m, a, u).contains(
            ("UID"@, MergeValueView::Unsigned(u.uid)),
        ),
        has_merge_tag(fields, "BDAY"@) && u.birthday is Some ==> member_values(fields, m, a, u).contains(
            ("BDAY"@, MergeValueView::Date(u.birthday->0)),
        ),
        has_merge_tag(fields, "LLOGIN"@) && u.last_login is Some ==> member_values(fields, m, a, u).contains(
            ("LLOGIN"@, MergeValueView::Date(u.last_login->0)),
        ),
        has_merge_tag(fields, "JOIN"@) && m.join_date is Some ==> member_values(fields, m, a, u).contains(
            ("JOIN"@, MergeValueView::Date(m.join_date->0)),
        ),
        has_merge_tag(fields, "EXPIRE"@) && m.expiration_date is Some ==> member_values(fields, m, a, u).contains(
            ("EXPIRE"@, MergeValueView::Date(m.expiration_date->0)),
        ),
        has_merge_tag(fields, "BRN"@) && m.brns@.len() > 0 ==> member_values(fields, m, a, u).contains(
            ("BRN"@, MergeValueView::Text(m.brns@[0]@)),
        ),
{
    let es = user_entries(fields, m, u);
    let p = present(es);
    let all = member_values(fields, m, a, u);
    assert forall|i: int| 0 <= i < es.len() && (#[trigger] es[i]) is Some implies all.contains(es[i]->0) by {
        lemma_present_contains(es, i);
        let k = choose|k: int| 0 <= k < p.len() && p[k] == es[i]->0;
        assert(all[k] == p[k]);
    }
    assert(es[0] == merge_entry(fields, "FNAME"@, text_value(u.first_name)));
    assert(es[1] == merge_entry(fields, "LNAME"@, text_value(u.last_name)));
    assert(es[2] == merge_entry(fields, "UID"@, Some(MergeValueView::Unsigned(u.uid))));
    assert(es[3] == merge_entry(fields, "BDAY"@, date_value(u.birthday)));
    assert(es[4] == merge_entry(fields, "LLOGIN"@, date_value(u.last_login)));
    assert(es[5] == merge_entry(fields, "JOIN"@, date_value(m.join_date)));
    assert(es[6] == merge_entry(fields, "EXPIRE"@, date_value(m.expiration_date)));
    assert(es[7] == merge_entry(fields, "BRN"@, first_brn(m.brns@)));
}

} // verus!
