//! Members of an audience: identifiers, validity of addresses, paths of the
//! member endpoints, and the bookkeeping of bulk upserts, retention and tag
//! updates.
use vstd::prelude::*;
use vstd::string::*;
use vstd::utf8::encode_utf8;
use crate::codec::{hex_lower, md5, md5_digest, to_hex_lower};
use crate::mailchimp::{DEFAULT_QUERY_COUNT, PagedQuery, PagedResponse, join_strs, seq_join, str_views};
use crate::mailchimp::merge_fields::MergeFieldValue;
use crate::text::{ends_with, lemma_ascii_lowercase_idempotent, lowercase, text_ends_with, to_lowercase};
use crate::codec::{is_lower_hex_digit, lemma_hex_lower_digits};
use vstd::utf8::is_ascii_chars;

pub mod tags;

verus! {

/// Recommended largest batch of members upserted at once. The API accepts
/// up to 500, but batches of that size time out in practice.
pub const MEMBER_BATCH_UPSERT_MAX: usize = 300;

/// The subscription status of an audience member.
#[derive(Clone, Copy, Debug, PartialEq, Eq, Structural)]
pub enum MemberStatus {
    Subscribed,
    Unsubscribed,
    Cleaned,
    Pending,
    Transactional,
    Archived,
    Noop,
}

impl Default for MemberStatus {
    fn default() -> (r: MemberStatus)
        ensures
            r == MemberStatus::Noop,
    {
        MemberStatus::Noop
    }
}

/// Whether a tag is applied to or removed from a member.
#[derive(Clone, Copy, Debug, PartialEq, Eq, Structural)]
pub enum MemberTagStatus {
    Active,
    Inactive,
}

impl Default for MemberTagStatus {
    fn default() -> (r: MemberTagStatus)
        ensures
            r == MemberTagStatus::Active,
    {
        MemberTagStatus::Active
    }
}

/// A tag on a member.
pub struct MemberTag {
    pub name: String,
}

/// A change of one tag of a member.
pub struct MemberTagUpdate {
    pub name: String,
    pub status: MemberTagStatus,
}

/// A tag update as plain values.
pub open spec fn tag_update_view(u: MemberTagUpdate) -> (Seq<char>, MemberTagStatus) {
    (u.name@, u.status)
}

/// Tag updates as plain values.
pub open spec fn tag_updates_view(us: Seq<MemberTagUpdate>) -> Seq<(Seq<char>, MemberTagStatus)> {
    us.map_values(|u: MemberTagUpdate| tag_update_view(u))
}

/// A member of an audience.
pub struct Member {
    pub id: String,
    pub email_address: String,
    pub full_name: String,
    pub status_if_new: Option<MemberStatus>,
    pub status: Option<MemberStatus>,
    pub merge_fields: Option<Vec<MergeFieldValue>>,
    pub tags_count: Option<u16>,
    pub tags: Vec<MemberTag>,
}

impl Default for Member {
    fn default() -> (r: Member)
        ensures
            r.id@ == Seq::<char>::empty(),
            r.email_address@ == Seq::<char>::empty(),
            r.full_name@ == Seq::<char>::empty(),
            r.status_if_new is None,
            r.status is None,
            r.merge_fields is None,
            r.tags_count is None,
            r.tags@.len() == 0,
    {
        Member {
            id: String::new(),
            email_address: String::new(),
            full_name: String::new(),
            status_if_new: None,
            status: None,
            merge_fields: None,
            tags_count: None,
            tags: Vec::new(),
        }
    }
}

// ---------------------------------------------------------------- identity

/// The id the API gives the member with an email address: the lowercase
/// hexadecimal MD5 digest of the lowercased address.
pub open spec fn spec_member_id(email: Seq<char>) -> Seq<char> {
    hex_lower(md5_digest(encode_utf8(lowercase(email))))
}

/// The member id of an email address.
pub fn member_id(email: &str) -> (r: String)
    ensures
        r@ == spec_member_id(email@),
        r@.len() == 32,
        forall|i: int| 0 <= i < r@.len() ==> is_lower_hex_digit(#[trigger] r@[i]),
{
    let lower = to_lowercase(email);
    let digest = md5(lower.as_str().as_bytes());
    proof {
        lemma_hex_lower_digits(digest@);
    }
    to_hex_lower(digest.as_slice())
}

/// An ASCII email and its lowercasing have the same member id.
pub proof fn lemma_member_id_ignores_case(email: Seq<char>)
    requires
        is_ascii_chars(email),
    ensures
        spec_member_id(lowercase(email)) == spec_member_id(email),
{
    lemma_ascii_lowercase_idempotent(email);
}

/// Whether an email address may be subscribed: the lowercased address is
/// not empty and is not at `noemail.com` or `example.com`.
pub open spec fn spec_is_valid_email(email: Seq<char>) -> bool {
    let lower = lowercase(email);
    !(lower.len() == 0 || ends_with(lower, "noemail.com"@) || ends_with(lower, "example.com"@))
}

/// Whether an email address may be subscribed.
pub fn is_valid_email(email: &str) -> (r: bool)
    ensures
        r == spec_is_valid_email(email@),
{
    let email = to_lowercase(email);
    let e = email.as_str();
    !(e.unicode_len() == 0 || text_ends_with(e, "noemail.com") || text_ends_with(e, "example.com"))
}

// ---------------------------------------------------------------- paths

/// The path of an audience's members.
pub fn members_path(list_id: &str) -> (r: String)
    ensures
        r@ == "/3.0/lists/"@ + list_id@ + "/members"@,
{
    let mut p = "/3.0/lists/".to_owned();
    p.append(list_id);
    p.append("/members");
    p
}

/// The path of one member of an audience.
pub fn member_path(list_id: &str, member_id: &str) -> (r: String)
    ensures
        r@ == "/3.0/lists/"@ + list_id@ + "/members/"@ + member_id@,
{
    let mut p = "/3.0/lists/".to_owned();
    p.append(list_id);
    p.append("/members/");
    p.append(member_id);
    p
}

/// The path batch upserts of an audience's members are posted to.
pub fn batch_upsert_path(list_id: &str) -> (r: String)
    ensures
        r@ == "/3.0/lists/"@ + list_id@ + "/"@,
{
    let mut p = "/3.0/lists/".to_owned();
    p.append(list_id);
    p.append("/");
    p
}

// ---------------------------------------------------------------- retention

/// The texts of a sequence of strings.
pub open spec fn string_views(s: Seq<String>) -> Seq<Seq<char>> {
    s.map_values(|x: String| x@)
}

/// Pushing onto a sequence adds exactly the pushed value to its contents.
pub proof fn lemma_push_contains<A>(s: Seq<A>, a: A)
    ensures
        forall|x: A| #[trigger] s.push(a).contains(x) <==> s.contains(x) || x == a,
        s.push(a).to_set() == s.to_set().insert(a),
{
    assert forall|x: A| #[trigger] s.push(a).contains(x) implies s.contains(x) || x == a by {
        let j = choose|j: int| 0 <= j < s.push(a).len() && s.push(a)[j] == x;
        if j < s.len() {
            assert(s[j] == x);
        }
    }
    assert forall|x: A| s.contains(x) || x == a implies #[trigger] s.push(a).contains(x) by {
        if x == a {
            assert(s.push(a)[s.len() as int] == a);
        } else {
            let j = choose|j: int| 0 <= j < s.len() && s[j] == x;
            assert(s.push(a)[j] == x);
        }
    }
    assert(s.push(a).to_set() =~= s.to_set().insert(a));
}

/// The ids of the audience members that are not cleaned.
pub open spec fn live_ids(audience: Seq<Member>) -> Set<Seq<char>> {
    Set::new(
        |x: Seq<char>|
            exists|i: int|
                0 <= i < audience.len() && (#[trigger] audience[i]).status != Some(
                    MemberStatus::Cleaned,
                ) && audience[i].id@ == x,
    )
}

/// Retaining spares the kept members: no kept id is among the ids to
/// delete, and every member that is neither cleaned nor kept is.
pub proof fn lemma_retain_spares_kept(audience: Seq<Member>, kept: Set<Seq<char>>)
    ensures
        forall|id: Seq<char>| kept.contains(id) ==> !(#[trigger] live_ids(audience).difference(kept).contains(id)),
        forall|i: int|
            0 <= i < audience.len() && audience[i].status != Some(MemberStatus::Cleaned) && !kept.contains(
                audience[i].id@,
            ) ==> live_ids(audience).difference(kept).contains(#[trigger] audience[i].id@),
{
    assert forall|i: int|
        0 <= i < audience.len() && audience[i].status != Some(MemberStatus::Cleaned) && !kept.contains(
            audience[i].id@,
        ) implies live_ids(audience).difference(kept).contains(#[trigger] audience[i].id@) by {
        assert(live_ids(audience).contains(audience[i].id@));
    }
}

fn is_cleaned(status: &Option<MemberStatus>) -> (r: bool)
    ensures
        r == (*status == Some(MemberStatus::Cleaned)),
{
    match status {
        Some(MemberStatus::Cleaned) => true,
        _ => false,
    }
}

fn contains_text(set: &Vec<String>, x: &String) -> (r: bool)
    ensures
        r == string_views(set@).contains(x@),
{
    let mut i: usize = 0;
    while i < set.len()
        invariant
            i <= set@.len(),
            forall|k: int| 0 <= k < i ==> (#[trigger] set@[k])@ != x@,
        decreases set@.len() - i,
    {
        if set[i] == *x {
            assert(string_views(set@)[i as int] == x@);
            return true;
        }
        i = i + 1;
    }
    assert forall|k: int| 0 <= k < string_views(set@).len() implies string_views(set@)[k] != x@ by {
        assert(set@[k]@ != x@);
    }
    false
}

/// The ids of the members to delete so that only the kept members remain:
/// the ids of members that are not cleaned, minus the kept ones, each once.
/// The order of the result is unspecified.
pub fn members_to_delete(audience: &Vec<Member>, keep_keys: &Vec<String>) -> (r: Vec<String>)
    ensures
        string_views(r@).no_duplicates(),
        string_views(r@).to_set() == live_ids(audience@).difference(string_views(keep_keys@).to_set()),
{
    let mut out: Vec<String> = Vec::new();
    let mut i: usize = 0;
    while i < audience.len()
        invariant
            i <= audience@.len(),
            string_views(out@).no_duplicates(),
            forall|x: Seq<char>|
                string_views(out@).contains(x) <==> (live_ids(audience@.take(i as int)).contains(x)
                    && !string_views(keep_keys@).contains(x)),
        decreases audience@.len() - i,
    {
        let m = &audience[i];
        let ghost before = out@;
        proof {
            lemma_push_contains(string_views(before), m.id@);
        }
        if !is_cleaned(&m.status) && !contains_text(keep_keys, &m.id) && !contains_text(&out, &m.id) {
            out.push(m.id.clone());
            assert(string_views(out@) =~= string_views(before).push(m.id@));
            assert(string_views(before).push(m.id@).no_duplicates()) by {
                let sb = string_views(before);
                let sp = sb.push(m.id@);
                assert forall|a: int, b: int| 0 <= a < sp.len() && 0 <= b < sp.len() && a != b implies sp[a] != sp[b] by {
                    if a == sb.len() as int {
                        assert(sb[b] == sp[b]);
                        assert(!sb.contains(m.id@));
                    } else if b == sb.len() as int {
                        assert(sb[a] == sp[a]);
                    }
                }
            }
        }
        proof {
            assert forall|x: Seq<char>|
                string_views(out@).contains(x) <==> (live_ids(audience@.take(i + 1)).contains(x)
                    && !string_views(keep_keys@).contains(x)) by {
                if live_ids(audience@.take(i + 1)).contains(x) {
                    let j = choose|j: int|
                        0 <= j < i + 1 && (#[trigger] audience@.take(i + 1)[j]).status != Some(
                            MemberStatus::Cleaned,
                        ) && audience@.take(i + 1)[j].id@ == x;
                    if j < i {
                        assert(audience@.take(i as int)[j] == audience@.take(i + 1)[j]);
                        assert(live_ids(audience@.take(i as int)).contains(x));
                    }
                }
                if live_ids(audience@.take(i as int)).contains(x) {
                    let j = choose|j: int|
                        0 <= j < i && (#[trigger] audience@.take(i as int)[j]).status != Some(
                            MemberStatus::Cleaned,
                        ) && audience@.take(i as int)[j].id@ == x;
                    assert(audience@.take(i + 1)[j] == audience@.take(i as int)[j]);
                }
                if m.status != Some(MemberStatus::Cleaned) && m.id@ == x {
                    assert(audience@.take(i + 1)[i as int] == *m);
                }
            }
        }
        i = i + 1;
    }
    assert(audience@.take(audience@.len() as int) =~= audience@);
    assert(string_views(out@).to_set() =~= live_ids(audience@).difference(string_views(keep_keys@).to_set()));
    out
}

// ---------------------------------------------------------------- upserts

/// The response to a batch upsert of members.
pub struct MemberBatchUpsertResponse {
    pub updated_members: Vec<Member>,
    pub new_members: Vec<Member>,
    pub total_created: u16,
    pub total_updated: u16,
    pub error_count: u16,
    pub errors: Vec<MemberBatchUpsertError>,
}

/// A member the API refused in a batch upsert.
pub struct MemberBatchUpsertError {
    pub email_address: String,
    pub error: String,
    pub error_code: String,
    pub field: Option<String>,
    pub field_message: Option<String>,
}

/// The ids of a sequence of members.
pub open spec fn member_ids(ms: Seq<Member>) -> Set<Seq<char>> {
    Set::new(|x: Seq<char>| exists|i: int| 0 <= i < ms.len() && (#[trigger] ms[i]).id@ == x)
}

fn add_ids(set: &mut Vec<String>, members: &Vec<Member>)
    requires
        string_views(old(set)@).no_duplicates(),
    ensures
        string_views(final(set)@).no_duplicates(),
        string_views(final(set)@).to_set() == string_views(old(set)@).to_set().union(
            member_ids(members@),
        ),
{
    let ghost start = string_views(set@).to_set();
    let mut i: usize = 0;
    while i < members.len()
        invariant
            i <= members@.len(),
            string_views(set@).no_duplicates(),
            string_views(set@).to_set() == start.union(member_ids(members@.take(i as int))),
        decreases members@.len() - i,
    {
        let ghost before = set@;
        let id = &members[i].id;
        proof {
            lemma_push_contains(string_views(before), id@);
        }
        if !contains_text(set, id) {
            set.push(id.clone());
            assert(string_views(set@) =~= string_views(before).push(id@));
            assert(string_views(before).push(id@).no_duplicates()) by {
                let sb = string_views(before);
                let sp = sb.push(id@);
                assert forall|a: int, b: int| 0 <= a < sp.len() && 0 <= b < sp.len() && a != b implies sp[a] != sp[b] by {
                    if a == sb.len() as int {
                        assert(sb[b] == sp[b]);
                    } else if b == sb.len() as int {
                        assert(sb[a] == sp[a]);
                    }
                }
            }
        } else {
            assert(string_views(before).to_set().contains(id@));
            assert(string_views(before).to_set().insert(id@) =~= string_views(before).to_set());
        }
        proof {
            assert(member_ids(members@.take(i + 1)) =~= member_ids(members@.take(i as int)).insert(
                id@,
            )) by {
                assert forall|x: Seq<char>| #[trigger] member_ids(members@.take(i + 1)).contains(x) implies member_ids(
                    members@.take(i as int),
                ).insert(id@).contains(x) by {
                    let j = choose|j: int| 0 <= j < i + 1 && (#[trigger] members@.take(i + 1)[j]).id@ == x;
                    if j < i {
                        assert(members@.take(i as int)[j] == members@.take(i + 1)[j]);
                    }
                }
                assert forall|x: Seq<char>| #[trigger] member_ids(members@.take(i as int)).insert(id@).contains(x) implies member_ids(
                    members@.take(i + 1),
                ).contains(x) by {
                    if x == id@ {
                        assert(members@.take(i + 1)[i as int].id@ == x);
                    } else {
                        let j = choose|j: int| 0 <= j < i && (#[trigger] members@.take(i as int)[j]).id@ == x;
                        assert(members@.take(i + 1)[j] == members@.take(i as int)[j]);
                    }
                }
            }
            assert(string_views(set@).to_set() =~= start.union(member_ids(members@.take(i + 1))));
        }
        i = i + 1;
    }
    assert(members@.take(members@.len() as int) =~= members@);
}

/// Records the members a batch upsert updated or created: afterwards the
/// set holds, once each, the ids it held and the ids of both groups.
pub fn record_upserted(set: &mut Vec<String>, response: &MemberBatchUpsertResponse)
    requires
        string_views(old(set)@).no_duplicates(),
    ensures
        string_views(final(set)@).no_duplicates(),
        string_views(final(set)@).to_set() == string_views(old(set)@).to_set().union(
            member_ids(response.updated_members@),
        ).union(member_ids(response.new_members@)),
{
    add_ids(set, &response.updated_members);
    add_ids(set, &response.new_members);
}

// ---------------------------------------------------------------- queries

/// A query of an audience's members.
#[derive(Clone)]
pub struct MembersQuery {
    pub fields: String,
    pub count: u32,
    pub offset: u32,
}

/// The fields a member query returns by default.
pub open spec fn members_default_fields() -> Seq<Seq<char>> {
    seq!["members.id"@, "members.email_address"@, "members.full_name"@]
}

impl PagedQuery for MembersQuery {
    open spec fn spec_fields(&self) -> Seq<char> {
        self.fields@
    }

    open spec fn spec_count(&self) -> u32 {
        self.count
    }

    open spec fn spec_offset(&self) -> u32 {
        self.offset
    }

    fn default_fields() -> (r: Vec<&'static str>)
        ensures
            str_views(r@) == members_default_fields(),
    {
        let r = vec!["members.id", "members.email_address", "members.full_name"];
        assert(str_views(r@) =~= members_default_fields());
        r
    }

    fn fields(&self) -> (r: &str) {
        self.fields.as_str()
    }

    fn set_fields(&mut self, fields: String) {
        self.fields = fields;
    }

    fn set_count(&mut self, count: u32) {
        self.count = count;
    }

    fn offset(&self) -> (r: u32) {
        self.offset
    }

    fn set_offset(&mut self, offset: u32) {
        self.offset = offset;
    }
}

impl Default for MembersQuery {
    fn default() -> (r: MembersQuery)
        ensures
            r.fields@ == seq_join(members_default_fields(), ","@),
            r.count == DEFAULT_QUERY_COUNT,
            r.offset == 0,
    {
        let names = MembersQuery::default_fields();
        MembersQuery { fields: join_strs(names.as_slice(), ","), count: DEFAULT_QUERY_COUNT, offset: 0 }
    }
}

/// A page of members.
pub struct MembersResponse {
    pub members: Vec<Member>,
}

impl PagedResponse for MembersResponse {
    type Item = Member;

    open spec fn spec_items(&self) -> Seq<Member> {
        self.members@
    }

    fn pop(&mut self) -> (r: Option<Member>) {
        self.members.pop()
    }

    fn len(&self) -> (r: usize) {
        self.members.len()
    }
}

} // verus!
