//! Members of the association as recorded in Drupal.
use vstd::prelude::*;
use crate::date::Date;
use crate::ddb::clubs::Club;
use crate::ddb::users::User;
use crate::db::address::Address as DbAddress;
use crate::db::brn::Brn;
use crate::db::query::{SqlPiece, SqlPieceView, SqlValue, SqlValueView, pieces_view, push_sql, where_query};
use crate::db::user::{id_for_email, spec_id_for_email};
use vstd::utf8::is_ascii_chars;
use crate::text::{
    ascii_lowercase,
    copy_opt_text, lowercase, opt_text_view, same_text, split_on, split_text, to_lowercase, trim,
    trimmed_text,
};

pub mod mailchimp;
pub mod mailing_address;

verus! {

/// The class of a membership.
#[derive(Clone, Copy, Debug, PartialEq, Eq, Structural)]
pub enum MemberClass {
    Regular,
    Lifetime,
    Complimentary,
}

/// Whether a membership is current or has lapsed.
#[derive(Clone, Copy, Debug, PartialEq, Eq, Structural)]
pub enum MemberStatus {
    Current,
    Lapsed,
}

/// Whether a member belongs to a club as a regular member (home or
/// intra-club membership) or as an affiliate.
#[derive(Clone, Copy, Debug, PartialEq, Eq, Structural)]
pub enum MemberType {
    Regular,
    Affiliate,
}

/// A member: the membership's class, type and status, the primary user and
/// the optional partner, the membership dates, the local club and the
/// member's BRNs.
pub struct Member {
    pub member_class: MemberClass,
    pub member_type: MemberType,
    pub member_status: MemberStatus,
    pub primary: User,
    pub partner: Option<User>,
    pub expiration_date: Option<Date>,
    pub join_date: Option<Date>,
    pub local_club: Club,
    pub brns: Vec<String>,
}

// ---------------------------------------------------------------- deduplication

/// The email a member is known by: the primary user's.
pub open spec fn member_email(m: Member) -> Seq<char> {
    m.primary.email@
}

/// Two members are known by the same email.
pub open spec fn same_email(a: Member, b: Member) -> bool {
    member_email(a) == member_email(b)
}

/// Regular members outrank affiliates.
pub open spec fn member_rank(m: Member) -> int {
    if m.member_type == MemberType::Affiliate {
        0
    } else {
        1
    }
}

/// `s[i]` is the member kept for its email among `s[from..]`: every other
/// member there with that email ranks lower, or ranks the same and comes
/// earlier.
pub open spec fn kept_from(s: Seq<Member>, from: int, i: int) -> bool {
    &&& from <= i < s.len()
    &&& forall|j: int|
        from <= j < s.len() && j != i && same_email(#[trigger] s[j], s[i]) ==> (
        member_rank(s[j]) < member_rank(s[i]) || (member_rank(s[j]) == member_rank(s[i]) && j
            < i))
}

/// `s[i]` is the member kept for its email: for each email, the last
/// regular member with it, or, when no regular member has it, the last
/// affiliate.
pub open spec fn kept(s: Seq<Member>, i: int) -> bool {
    kept_from(s, 0, i)
}

/// Every member of `s[from..]` has its email among `out`.
pub open spec fn emails_covered(out: Seq<Member>, s: Seq<Member>, from: int) -> bool {
    forall|i: int| from <= i < s.len() ==> exists|k: int| 0 <= k < out.len() && same_email(out[k], #[trigger] s[i])
}

proof fn lemma_kept_unique(s: Seq<Member>, from: int, i: int, j: int)
    requires
        kept_from(s, from, i),
        kept_from(s, from, j),
        same_email(s[i], s[j]),
    ensures
        i == j,
{
    if i != j {
        assert(same_email(s[j], s[i]));
    }
}

fn is_affiliate(t: &MemberType) -> (r: bool)
    ensures
        r == (*t == MemberType::Affiliate),
{
    match t {
        MemberType::Affiliate => true,
        MemberType::Regular => false,
    }
}

/// `m` is one of the members kept from `s`.
pub open spec fn is_kept_member(s: Seq<Member>, m: Member) -> bool {
    exists|i: int| #[trigger] kept(s, i) && s[i] == m
}

/// `r` holds, in some order, exactly the members kept from `s`: one per
/// email found in `s`.
pub open spec fn is_dedupe_of(r: Seq<Member>, s: Seq<Member>) -> bool {
    &&& forall|k: int| 0 <= k < r.len() ==> is_kept_member(s, #[trigger] r[k])
    &&& forall|i: int|
        #![trigger kept(s, i)]
        kept(s, i) ==> exists|k: int| 0 <= k < r.len() && #[trigger] r[k] == s[i]
    &&& forall|k1: int, k2: int|
        0 <= k1 < r.len() && 0 <= k2 < r.len() && k1 != k2 ==> !same_email(
            #[trigger] r[k1],
            #[trigger] r[k2],
        )
    &&& emails_covered(r, s, 0)
}

/// Removes affiliates that are also regular members, and keeps one member
/// per email: the last regular member with it, or else the last affiliate.
/// The order of the result is unspecified.
pub fn dedupe_members(members: Vec<Member>) -> (r: Vec<Member>)
    ensures
        is_dedupe_of(r@, members@),
{
    let ghost s = members@;
    let ghost n = s.len() as int;
    let mut rest = members;
    let mut out: Vec<Member> = Vec::new();
    let ghost mut idx: Seq<int> = Seq::empty();
    while rest.len() > 0
        invariant
            n == s.len(),
            rest@ == s.take(rest@.len() as int),
            rest@.len() <= n,
            idx.len() == out@.len(),
            forall|k: int|
                0 <= k < out@.len() ==> kept_from(s, rest@.len() as int, #[trigger] idx[k]) && out@[k]
                    == s[idx[k]],
            forall|k1: int, k2: int|
                0 <= k1 < out@.len() && 0 <= k2 < out@.len() && k1 != k2 ==> !same_email(#[trigger] out@[k1], #[trigger] out@[k2]),
            emails_covered(out@, s, rest@.len() as int),
        decreases rest@.len(),
    {
        let ghost p = rest@.len() as int;
        let m = rest.pop().unwrap();
        assert(m == s[p - 1]);
        assert(rest@ =~= s.take(p - 1));
        let mut j: usize = 0;
        while j < out.len()
            invariant
                j <= out@.len(),
                forall|k: int| 0 <= k < j ==> !same_email(#[trigger] out@[k], m),
            ensures
                j <= out@.len(),
                j < out@.len() ==> same_email(out@[j as int], m),
                forall|k: int| 0 <= k < j ==> !same_email(#[trigger] out@[k], m),
            decreases out@.len() - j,
        {
            if out[j].primary.email == m.primary.email {
                break;
            }
            j = j + 1;
        }
        let found = j < out.len();
        if !found {
            proof {
                assert forall|k: int| 0 <= k < out@.len() implies kept_from(s, p - 1, #[trigger] idx[k]) by {
                    assert(kept_from(s, p, idx[k]));
                }
                assert(kept_from(s, p - 1, p - 1)) by {
                    assert forall|jj: int|
                        p - 1 <= jj < n && jj != p - 1 && same_email(#[trigger] s[jj], s[p - 1])
                        implies false by {
                        let k = choose|k: int| 0 <= k < out@.len() && same_email(out@[k], s[jj]);
                    }
                }
            }
            let ghost out_before = out@;
            out.push(m);
            proof {
                idx = idx.push(p - 1);
            }
            assert forall|i: int| p - 1 <= i < n implies exists|k: int|
                0 <= k < out@.len() && same_email(out@[k], #[trigger] s[i]) by {
                if i == p - 1 {
                    assert(same_email(out@[out@.len() - 1], s[i]));
                } else {
                    let k = choose|k: int| 0 <= k < out_before.len() && same_email(out_before[k], s[i]);
                    assert(out@[k] == out_before[k]);
                }
            }
        } else {
            let ghost i0 = idx[j as int];
            assert(kept_from(s, p, i0));
            assert(out@[j as int] == s[i0]);
            if !is_affiliate(&m.member_type) && is_affiliate(&out[j].member_type) {
                proof {
                    assert forall|k: int| 0 <= k < out@.len() && k != j implies kept_from(s, p - 1, #[trigger] idx[k]) by {
                        assert(kept_from(s, p, idx[k]));
                        assert(!same_email(s[idx[k]], m));
                    }
                    assert(kept_from(s, p - 1, p - 1)) by {
                        assert forall|jj: int|
                            p - 1 <= jj < n && jj != p - 1 && same_email(#[trigger] s[jj], s[p - 1])
                            implies member_rank(s[jj]) < member_rank(s[p - 1]) by {
                            if jj != i0 {
                                assert(member_rank(s[jj]) <= member_rank(s[i0]));
                            }
                        }
                    }
                }
                let ghost out_before = out@;
                out.set(j, m);
                proof {
                    idx = idx.update(j as int, p - 1);
                    assert forall|i: int| p - 1 <= i < n implies exists|k: int|
                        0 <= k < out@.len() && same_email(out@[k], #[trigger] s[i]) by {
                        if i == p - 1 {
                            assert(same_email(out@[j as int], s[i]));
                        } else {
                            let k = choose|k: int| 0 <= k < out_before.len() && same_email(out_before[k], s[i]);
                            if k == j {
                                assert(same_email(out@[j as int], m));
                            } else {
                                assert(out@[k] == out_before[k]);
                            }
                        }
                    }
                }
            } else {
                proof {
                    assert forall|k: int| 0 <= k < out@.len() implies kept_from(s, p - 1, #[trigger] idx[k]) by {
                        assert(kept_from(s, p, idx[k]));
                        if k != j {
                            assert(!same_email(s[idx[k]], m));
                        }
                    }
                    assert forall|i: int| p - 1 <= i < n implies exists|k: int|
                        0 <= k < out@.len() && same_email(out@[k], #[trigger] s[i]) by {
                        if i == p - 1 {
                            assert(same_email(out@[j as int], s[i]));
                        }
                    }
                }
            }
        }
    }
    proof {
        assert(rest@.len() == 0);
        assert(s == members@);
        assert forall|k: int| 0 <= k < out@.len() implies is_kept_member(s, #[trigger] out@[k]) by {
            let i = idx[k];
            assert(kept(s, i) && s[i] == out@[k]);
        }
        assert(idx.len() == out@.len());
        assert(forall|k1: int, k2: int|
                0 <= k1 < out@.len() && 0 <= k2 < out@.len() && k1 != k2 ==> !same_email(out@[k1], out@[k2]));
        assert(emails_covered(out@, s, 0));
        assert forall|i: int| 0 <= i < s.len() implies exists|k: int| 0 <= k < out@.len() && same_email(out@[k], #[trigger] s[i]) by {
            assert(emails_covered(out@, s, 0));
            let k = choose|k: int| 0 <= k < out@.len() && same_email(out@[k], s[i]);
            assert(0 <= k < out@.len() && same_email(out@[k], s[i]));
        }
        assert forall|i: int| kept(s, i) implies exists|k: int| 0 <= k < out@.len() && out@[k] == s[i] by {
            let k = choose|k: int| 0 <= k < out@.len() && same_email(out@[k], s[i]);
            lemma_kept_unique(s, 0, idx[k], i);
        }
        assert(is_dedupe_of(out@, s));
    }
    out
}

// ---------------------------------------------------------------- decoding rows

/// What a row held that names no known member class, status or type.
#[derive(Clone, Copy, PartialEq, Eq, Structural)]
pub enum DecodeKind {
    MemberClass,
    MemberStatus,
    MemberType,
}

/// A row value that could not be decoded.
pub enum DecodeError {
    /// An unknown name, lowercased.
    Unexpected { kind: DecodeKind, value: String },
    /// An unknown personal status id.
    UnexpectedStatusId(i32),
}

/// The class a lowercased name gives.
pub open spec fn member_class_named(s: Seq<char>) -> Option<MemberClass> {
    if s == "regular"@ {
        Some(MemberClass::Regular)
    } else if s == "lifetime"@ {
        Some(MemberClass::Lifetime)
    } else if s == "complimentary"@ {
        Some(MemberClass::Complimentary)
    } else {
        None
    }
}

/// The status a lowercased name gives.
pub open spec fn member_status_named(s: Seq<char>) -> Option<MemberStatus> {
    if s == "current"@ {
        Some(MemberStatus::Current)
    } else if s == "lapsed"@ {
        Some(MemberStatus::Lapsed)
    } else {
        None
    }
}

/// The status a personal status id gives.
pub open spec fn member_status_of_id(id: i32) -> Option<MemberStatus> {
    if id == 947 || id == 1099 {
        Some(MemberStatus::Current)
    } else if id == 951 {
        Some(MemberStatus::Lapsed)
    } else {
        None
    }
}

/// The type a lowercased name gives: the name of the membership field or
/// of the type itself.
pub open spec fn member_type_named(s: Seq<char>) -> Option<MemberType> {
    if s == "field_home_club"@ || s == "regular"@ {
        Some(MemberType::Regular)
    } else if s == "field_memberships"@ || s == "affiliate"@ {
        Some(MemberType::Affiliate)
    } else {
        None
    }
}

/// The displayed name of a class.
pub open spec fn member_class_name(c: MemberClass) -> Seq<char> {
    match c {
        MemberClass::Regular => "regular"@,
        MemberClass::Lifetime => "lifetime"@,
        MemberClass::Complimentary => "complimentary"@,
    }
}

/// The displayed name of a status.
pub open spec fn member_status_name(c: MemberStatus) -> Seq<char> {
    match c {
        MemberStatus::Current => "current"@,
        MemberStatus::Lapsed => "lapsed"@,
    }
}

/// The displayed name of a type.
pub open spec fn member_type_name(c: MemberType) -> Seq<char> {
    match c {
        MemberType::Regular => "regular"@,
        MemberType::Affiliate => "affiliate"@,
    }
}

/// A displayed name names the class, status or type it displays.
pub proof fn lemma_names_round_trip(c: MemberClass, s: MemberStatus, t: MemberType)
    ensures
        member_class_named(member_class_name(c)) == Some(c),
        member_status_named(member_status_name(s)) == Some(s),
        member_type_named(member_type_name(t)) == Some(t),
{
    reveal_strlit("regular");
    reveal_strlit("lifetime");
    reveal_strlit("complimentary");
    reveal_strlit("current");
    reveal_strlit("lapsed");
    reveal_strlit("affiliate");
    reveal_strlit("field_home_club");
    reveal_strlit("field_memberships");
    assert("lifetime"@ != "regular"@) by {
        assert("lifetime"@.len() != "regular"@.len());
    }
    assert("complimentary"@ != "regular"@) by {
        assert("complimentary"@.len() != "regular"@.len());
    }
    assert("complimentary"@ != "lifetime"@) by {
        assert("complimentary"@.len() != "lifetime"@.len());
    }
    assert("lapsed"@ != "current"@) by {
        assert("lapsed"@.len() != "current"@.len());
    }
    assert("regular"@ != "field_home_club"@) by {
        assert("regular"@.len() != "field_home_club"@.len());
    }
    assert("affiliate"@ != "field_home_club"@) by {
        assert("affiliate"@.len() != "field_home_club"@.len());
    }
    assert("affiliate"@ != "regular"@) by {
        assert("affiliate"@.len() != "regular"@.len());
    }
    assert("affiliate"@ != "field_memberships"@) by {
        assert("affiliate"@.len() != "field_memberships"@.len());
    }
}

/// A text of lowercase ASCII letters and underscores is ASCII and its own
/// lowercasing.
pub proof fn lemma_lowercase_name(s: Seq<char>)
    requires
        forall|i: int| 0 <= i < s.len() ==> ('a' <= #[trigger] s[i] <= 'z') || s[i] == '_',
    ensures
        lowercase(s) == s,
{
    assert(is_ascii_chars(s));
    assert(ascii_lowercase(s) =~= s);
}

/// Each displayed name, lowercased, decodes to what it displays.
pub proof fn lemma_displayed_names_decode(c: MemberClass, s: MemberStatus, t: MemberType)
    ensures
        member_class_named(lowercase(member_class_name(c))) == Some(c),
        member_status_named(lowercase(member_status_name(s))) == Some(s),
        member_type_named(lowercase(member_type_name(t))) == Some(t),
{
    reveal_strlit("regular");
    reveal_strlit("lifetime");
    reveal_strlit("complimentary");
    reveal_strlit("current");
    reveal_strlit("lapsed");
    reveal_strlit("affiliate");
    lemma_lowercase_name(member_class_name(c));
    lemma_lowercase_name(member_status_name(s));
    lemma_lowercase_name(member_type_name(t));
    lemma_names_round_trip(c, s, t);
}

/// A text in any ASCII case decodes to the class, status or type whose
/// name its ASCII lowercasing is.
pub proof fn lemma_decodes_in_any_case(s: Seq<char>, c: MemberClass, st: MemberStatus, t: MemberType)
    requires
        is_ascii_chars(s),
    ensures
        ascii_lowercase(s) == member_class_name(c) ==> member_class_named(lowercase(s)) == Some(c),
        ascii_lowercase(s) == member_status_name(st) ==> member_status_named(lowercase(s)) == Some(st),
        ascii_lowercase(s) == member_type_name(t) ==> member_type_named(lowercase(s)) == Some(t),
{
    lemma_names_round_trip(c, st, t);
}

/// `r` is the error for an unexpected name of `kind`.
pub open spec fn is_unexpected(r: DecodeError, kind: DecodeKind, value: Seq<char>) -> bool {
    r matches DecodeError::Unexpected { kind: k, value: v } && k == kind && v@ == value
}

impl MemberClass {
    /// Decodes a class from its name, in any case.
    pub fn try_from(value: String) -> (r: Result<MemberClass, DecodeError>)
        ensures
            r is Ok <==> member_class_named(lowercase(value@)) is Some,
            r matches Ok(c) ==> member_class_named(lowercase(value@)) == Some(c),
            r matches Err(e) ==> is_unexpected(e, DecodeKind::MemberClass, lowercase(value@)),
    {
        let lower = to_lowercase(value.as_str());
        if same_text(lower.as_str(), "regular") {
            Ok(MemberClass::Regular)
        } else if same_text(lower.as_str(), "lifetime") {
            Ok(MemberClass::Lifetime)
        } else if same_text(lower.as_str(), "complimentary") {
            Ok(MemberClass::Complimentary)
        } else {
            Err(DecodeError::Unexpected { kind: DecodeKind::MemberClass, value: lower })
        }
    }

    /// The class's name, as it is displayed.
    pub fn as_str(&self) -> (r: &'static str)
        ensures
            r@ == member_class_name(*self),
    {
        match self {
            MemberClass::Regular => "regular",
            MemberClass::Lifetime => "lifetime",
            MemberClass::Complimentary => "complimentary",
        }
    }
}

impl Default for MemberClass {
    fn default() -> (r: MemberClass)
        ensures
            r == MemberClass::Regular,
    {
        MemberClass::Regular
    }
}

impl MemberStatus {
    /// Decodes a status from its name, in any case.
    pub fn try_from(value: String) -> (r: Result<MemberStatus, DecodeError>)
        ensures
            r is Ok <==> member_status_named(lowercase(value@)) is Some,
            r matches Ok(c) ==> member_status_named(lowercase(value@)) == Some(c),
            r matches Err(e) ==> is_unexpected(e, DecodeKind::MemberStatus, lowercase(value@)),
    {
        let lower = to_lowercase(value.as_str());
        if same_text(lower.as_str(), "current") {
            Ok(MemberStatus::Current)
        } else if same_text(lower.as_str(), "lapsed") {
            Ok(MemberStatus::Lapsed)
        } else {
            Err(DecodeError::Unexpected { kind: DecodeKind::MemberStatus, value: lower })
        }
    }

    /// Decodes a status from a personal status id: 947 and 1099 are
    /// current, 951 lapsed.
    pub fn try_from_status_id(value: i32) -> (r: Result<MemberStatus, DecodeError>)
        ensures
            r is Ok <==> member_status_of_id(value) is Some,
            r matches Ok(c) ==> member_status_of_id(value) == Some(c),
            r matches Err(e) ==> e == DecodeError::UnexpectedStatusId(value),
    {
        if value == 947 || value == 1099 {
            Ok(MemberStatus::Current)
        } else if value == 951 {
            Ok(MemberStatus::Lapsed)
        } else {
            Err(DecodeError::UnexpectedStatusId(value))
        }
    }

    /// The status's name, as it is displayed.
    pub fn as_str(&self) -> (r: &'static str)
        ensures
            r@ == member_status_name(*self),
    {
        match self {
            MemberStatus::Current => "current",
            MemberStatus::Lapsed => "lapsed",
        }
    }
}

impl Default for MemberStatus {
    fn default() -> (r: MemberStatus)
        ensures
            r == MemberStatus::Current,
    {
        MemberStatus::Current
    }
}

impl MemberType {
    /// Decodes a type from its name or the name of its membership field, in
    /// any case.
    pub fn try_from(value: String) -> (r: Result<MemberType, DecodeError>)
        ensures
            r is Ok <==> member_type_named(lowercase(value@)) is Some,
            r matches Ok(c) ==> member_type_named(lowercase(value@)) == Some(c),
            r matches Err(e) ==> is_unexpected(e, DecodeKind::MemberType, lowercase(value@)),
    {
        let lower = to_lowercase(value.as_str());
        if same_text(lower.as_str(), "field_home_club") || same_text(lower.as_str(), "regular") {
            Ok(MemberType::Regular)
        } else if same_text(lower.as_str(), "field_memberships") || same_text(
            lower.as_str(),
            "affiliate",
        ) {
            Ok(MemberType::Affiliate)
        } else {
            Err(DecodeError::Unexpected { kind: DecodeKind::MemberType, value: lower })
        }
    }

    /// The type's name, as it is displayed.
    pub fn as_str(&self) -> (r: &'static str)
        ensures
            r@ == member_type_name(*self),
    {
        match self {
            MemberType::Regular => "regular",
            MemberType::Affiliate => "affiliate",
        }
    }
}

impl Default for MemberType {
    fn default() -> (r: MemberType)
        ensures
            r == MemberType::Regular,
    {
        MemberType::Regular
    }
}

/// The partner columns of a member row.
pub struct PartnerUser {
    pub partner_uid: Option<u64>,
    pub partner_email: Option<String>,
    pub partner_first_name: Option<String>,
    pub partner_last_name: Option<String>,
    pub partner_birthday: Option<Date>,
    pub partner_last_login: Option<Date>,
}

impl PartnerUser {
    /// The partner, when the row names one. A row with a partner id has the
    /// partner's email.
    pub fn into_user(self) -> (r: Option<User>)
        requires
            self.partner_uid is Some ==> self.partner_email is Some,
        ensures
            r is Some <==> self.partner_uid is Some,
            r matches Some(u) ==> {
                &&& u.uid == self.partner_uid->0
                &&& u.email@ == self.partner_email->0@
                &&& u.first_name == self.partner_first_name
                &&& u.last_name == self.partner_last_name
                &&& u.birthday == self.partner_birthday
                &&& u.last_login == self.partner_last_login
            },
    {
        match self.partner_uid {
            Some(uid) => {
                let email = self.partner_email.unwrap();
                Some(
                    User {
                        uid,
                        email,
                        first_name: self.partner_first_name,
                        last_name: self.partner_last_name,
                        birthday: self.partner_birthday,
                        last_login: self.partner_last_login,
                    },
                )
            },
            None => None,
        }
    }
}

/// The club columns of a member row.
pub struct LocalClub {
    pub club_name: Option<String>,
    pub club_uid: Option<u64>,
    pub club_number: Option<i64>,
    pub club_region: Option<i64>,
    pub club_region_uid: Option<u64>,
}

impl LocalClub {
    /// The member's local club: a missing id is 0, a missing name empty,
    /// and the region is the region's node id.
    pub fn into_club(self) -> (r: Club)
        ensures
            r.uid == (match self.club_uid {
                Some(u) => u,
                None => 0,
            }),
            r.number == self.club_number,
            r.name@ == (match self.club_name {
                Some(n) => n@,
                None => Seq::<char>::empty(),
            }),
            r.region == self.club_region_uid,
    {
        let uid = match self.club_uid {
            Some(u) => u,
            None => 0,
        };
        let name = match self.club_name {
            Some(n) => n,
            None => String::new(),
        };
        Club { uid, number: self.club_number, name, region: self.club_region_uid }
    }
}

/// The BRN column of a member row: BRNs separated by commas.
pub struct Brns {
    pub brns: Option<String>,
}

/// The text of an optional text, empty when there is none.
pub open spec fn text_or_empty(t: Option<String>) -> Seq<char> {
    match t {
        Some(s) => s@,
        None => Seq::empty(),
    }
}

impl Brns {
    /// The BRNs: the pieces of the column between commas, each trimmed. A
    /// missing column gives one empty BRN.
    pub fn into_numbers(self) -> (r: Vec<String>)
        ensures
            r@.len() == split_text(text_or_empty(self.brns), ',').len(),
            forall|i: int|
                0 <= i < r@.len() ==> (#[trigger] r@[i])@ == trimmed_text(
                    split_text(text_or_empty(self.brns), ',')[i],
                ),
    {
        let text = match self.brns {
            Some(s) => s,
            None => String::new(),
        };
        let pieces = split_on(text.as_str(), ',');
        let ghost parts = split_text(text@, ',');
        assert(pieces@.len() == parts.len()) by {
            assert(pieces@.map_values(|p: String| p@).len() == parts.len());
        }
        let mut r: Vec<String> = Vec::new();
        let mut i: usize = 0;
        while i < pieces.len()
            invariant
                i <= pieces@.len(),
                pieces@.len() == parts.len(),
                pieces@.map_values(|p: String| p@) == parts,
                r@.len() == i,
                forall|k: int| 0 <= k < i ==> (#[trigger] r@[k])@ == trimmed_text(parts[k]),
            decreases pieces@.len() - i,
        {
            assert(pieces@[i as int]@ == parts[i as int]) by {
                assert(pieces@.map_values(|p: String| p@)[i as int] == pieces@[i as int]@);
            }
            r.push(trim(pieces[i].as_str()).to_owned());
            i = i + 1;
        }
        r
    }
}

// ---------------------------------------------------------------- application database

/// A member's mailing address.
pub struct Address {
    pub user_id: Option<u64>,
    pub street_address: Option<String>,
    pub street_address_2: Option<String>,
    pub zip_code: Option<String>,
    pub city: Option<String>,
    pub state: Option<String>,
    pub country: Option<String>,
}

/// Two addresses hold the same values.
pub open spec fn same_address(a: Address, b: Address) -> bool {
    &&& a.user_id == b.user_id
    &&& opt_text_view(a.street_address) == opt_text_view(b.street_address)
    &&& opt_text_view(a.street_address_2) == opt_text_view(b.street_address_2)
    &&& opt_text_view(a.zip_code) == opt_text_view(b.zip_code)
    &&& opt_text_view(a.city) == opt_text_view(b.city)
    &&& opt_text_view(a.state) == opt_text_view(b.state)
    &&& opt_text_view(a.country) == opt_text_view(b.country)
}

impl Address {
    /// A copy of the address.
    pub fn duplicate(&self) -> (r: Address)
        ensures
            same_address(r, *self),
    {
        Address {
            user_id: self.user_id,
            street_address: copy_opt_text(&self.street_address),
            street_address_2: copy_opt_text(&self.street_address_2),
            zip_code: copy_opt_text(&self.zip_code),
            city: copy_opt_text(&self.city),
            state: copy_opt_text(&self.state),
            country: copy_opt_text(&self.country),
        }
    }

    /// The address as an address of the application database, of the user
    /// the member's primary email identifies.
    pub fn to_db_address_for_member(self, member: &Member) -> (r: DbAddress)
        ensures
            r.user_id@ == spec_id_for_email(member.primary.email@),
            r.street_address == self.street_address,
            r.street_address_2 == self.street_address_2,
            r.zip_code == self.zip_code,
            r.city == self.city,
            r.state == self.state,
            r.country == self.country,
    {
        DbAddress {
            user_id: id_for_email(member.primary.email.as_str()),
            street_address: self.street_address,
            street_address_2: self.street_address_2,
            zip_code: self.zip_code,
            city: self.city,
            state: self.state,
            country: self.country,
        }
    }
}

/// The member's BRNs as BRNs of the application database, each held by
/// the user the primary email identifies.
pub fn brns_for(member: &Member) -> (r: Vec<Brn>)
    ensures
        r@.len() == member.brns@.len(),
        forall|i: int|
            0 <= i < r@.len() ==> (#[trigger] r@[i]).user_id@ == spec_id_for_email(member.primary.email@)
                && r@[i].number@ == member.brns@[i]@,
{
    let mut r: Vec<Brn> = Vec::new();
    let mut i: usize = 0;
    while i < member.brns.len()
        invariant
            i <= member.brns@.len(),
            r@.len() == i,
            forall|k: int|
                0 <= k < i ==> (#[trigger] r@[k]).user_id@ == spec_id_for_email(member.primary.email@)
                    && r@[k].number@ == member.brns@[k]@,
        decreases member.brns@.len() - i,
    {
        r.push(Brn { user_id: id_for_email(member.primary.email.as_str()), number: member.brns[i].clone() });
        i = i + 1;
    }
    r
}

// ---------------------------------------------------------------- queries

/// The query of the members, to which conditions are added.
pub const MEMBERS_QUERY: &'static str = r#"
    SELECT
    	users_field_data.uid AS uid,
    	alldata.email AS email,
    	alldata.first_name AS first_name,
    	alldata.last_name AS last_name,
        CAST(alldata.birthdate AS DATE) AS birthday,
        DATE(FROM_UNIXTIME(users_field_data.login)) AS last_login,

       	CAST(alldata.partner_user_id AS UNSIGNED) AS partner_uid,
    	alldata.partner_email AS partner_email,
    	alldata.partner_first_name AS partner_first_name,
    	alldata.partner_last_name AS partner_last_name,
        CAST(alldata.partner_birthdate AS DATE) AS partner_birthday,
        DATE(FROM_UNIXTIME(users_field_data.login)) AS partner_last_login,

    	IF(memclassterm.name IS NULL, "Regular", memclassterm.name) AS member_class,
    	paragraphs_item_field_data.parent_field_name AS member_type,
        alldata.personal_status_id as member_status, 

        CAST(node__field_club_number.field_club_number_value AS SIGNED) AS club_number, 
    	node_field_data_paragraph__field_club.nid AS club_uid,
    	node_field_data_paragraph__field_club.title AS club_name,
        node_field__data_paragraph_field_club__field_region_number.field_region_number_value as club_region,
        node_field_data_node__field_region.nid AS club_region_uid,
        brns.brns_values AS brns,

        CAST(alldata.membership_expire AS DATE) as expiration_date,
        CAST(alldata.membership_join_year AS DATE) as join_date

    FROM
    	paragraphs_item_field_data
    	LEFT JOIN paragraph__field_club ON paragraphs_item_field_data.id = paragraph__field_club.entity_id
    		AND paragraph__field_club.deleted = '0'
    		AND(paragraph__field_club.langcode = paragraphs_item_field_data.langcode
    			OR paragraph__field_club.bundle = 'membership')
    		INNER JOIN node_field_data node_field_data_paragraph__field_club ON paragraph__field_club.field_club_target_id = node_field_data_paragraph__field_club.nid
    		LEFT JOIN node__field_region node_field_data_paragraph__field_club__node__field_region ON node_field_data_paragraph__field_club.nid = node_field_data_paragraph__field_club__node__field_region.entity_id
    			AND node_field_data_paragraph__field_club__node__field_region.deleted = '0'
    	LEFT JOIN node__field_club_number ON 
            node__field_club_number.entity_id = node_field_data_paragraph__field_club.nid
    	LEFT JOIN node_field_data node_field_data_node__field_region ON 
            node_field_data_paragraph__field_club__node__field_region.field_region_target_id = node_field_data_node__field_region.nid
		LEFT JOIN node__field_region_number node_field__data_paragraph_field_club__field_region_number ON
			node_field_data_paragraph__field_club__node__field_region.field_region_target_id = node_field__data_paragraph_field_club__field_region_number.entity_id
    	LEFT JOIN paragraph__field_leave_date paragraph__field_leave_date ON paragraphs_item_field_data.id = paragraph__field_leave_date.entity_id
    		AND paragraph__field_leave_date.deleted = '0'
    		AND(paragraph__field_leave_date.langcode = paragraphs_item_field_data.langcode
    			OR paragraph__field_leave_date.bundle = 'membership')
    	LEFT JOIN paragraph__field_join_date paragraph__field_join_date ON paragraphs_item_field_data.id = paragraph__field_join_date.entity_id
    		AND paragraph__field_join_date.deleted = '0'
    		AND(paragraph__field_join_date.langcode = paragraphs_item_field_data.langcode
    			OR paragraph__field_join_date.bundle = 'membership')
    		INNER JOIN users_field_data users_field_data ON paragraphs_item_field_data.parent_id = users_field_data.uid
    		LEFT JOIN user__field_primary_member user_is_primary_member ON users_field_data.uid = user_is_primary_member.entity_id
    		INNER JOIN z_member_search_main alldata ON users_field_data.uid = alldata.user_id
    		INNER JOIN ssp_membership_international_membership rightmembership ON users_field_data.uid = rightmembership.user_id
    		LEFT JOIN paragraph__field_membership_class memclass ON rightmembership.paragraph_id = memclass.entity_id
    		LEFT JOIN taxonomy_term_field_data memclassterm ON memclass.field_membership_class_target_id = memclassterm.tid
    		LEFT JOIN v_brns brns ON users_field_data.uid = brns.user_id
    		LEFT JOIN user__field_home_club userhomeclub ON paragraphs_item_field_data.id = userhomeclub.field_home_club_target_id
    			AND userhomeclub.deleted = '0'
    	LEFT JOIN user__field_memberships useraffclub ON paragraphs_item_field_data.id = useraffclub.field_memberships_target_id
    		AND useraffclub.deleted = '0'
    	LEFT JOIN user__field_intraclub_memberships userintraclub ON paragraphs_item_field_data.id = userintraclub.field_intraclub_memberships_target_id
    		AND userintraclub.deleted = '0'
    WHERE (((paragraphs_item_field_data.status = '1')
    		AND(paragraphs_item_field_data.type IN('membership'))
    		AND(paragraph__field_leave_date.field_leave_date_value IS NOT NULL)
    		AND(paragraph__field_join_date.field_join_date_value IS NOT NULL))
    	AND((alldata.personal_status_id IN('947', '951', '1099'))
    	AND((CAST(paragraph__field_leave_date.field_leave_date_value AS DATE) >= DATE_SUB(NOW(), INTERVAL 1 YEAR)))
    AND((CAST(paragraph__field_join_date.field_join_date_value AS DATE) <= NOW()))
    AND(((useraffclub.entity_id IS NOT NULL
    	OR userhomeclub.entity_id IS NOT NULL
    	OR userintraclub.entity_id IS NOT NULL)))))
    AND(user_is_primary_member.field_primary_member_target_id IS NULL)
"#;

/// The condition that selects home club memberships.
pub const HOME_CLUB_CONDITION: &'static str = " AND paragraphs_item_field_data.parent_field_name = 'field_home_club'";

/// The query of the members of a club or of the clubs of a region. It
/// takes three arguments: the club's node id twice, then the region's
/// node id, each null when not selecting by it.
pub const CLUB_MEMBERS_QUERY: &'static str = r#"
WITH acp AS (
  SELECT
    p.parent_id AS uid,
    p.id        AS paragraph_id,
    pc.field_club_target_id AS club_nid,
    fjd.field_join_date_value  AS join_dt_raw,
    fld.field_leave_date_value AS leave_dt_raw
  FROM paragraphs_item_field_data p
  JOIN paragraph__field_club pc
    ON pc.entity_id = p.id
   AND pc.deleted = '0'
  LEFT JOIN paragraph__field_join_date fjd
    ON fjd.entity_id = p.id AND fjd.deleted = '0'
  LEFT JOIN paragraph__field_leave_date fld
    ON fld.entity_id = p.id AND fld.deleted = '0'
  WHERE p.status = '1'
    AND p.type   = 'membership'
    /* ---------- club or region scope (parameterized) ---------- */
    AND pc.field_club_target_id IN (
          /* branch 1: single club */
          SELECT club_nid
          FROM (SELECT ? AS club_nid) AS one
          WHERE ? IS NOT NULL
          UNION ALL
          /* branch 2: all clubs in a region */
          SELECT nr.entity_id AS club_nid
          FROM node__field_region nr
          WHERE nr.deleted = '0'
            AND nr.field_region_target_id = ?
        )
    AND fjd.field_join_date_value IS NOT NULL
    AND DATE(fjd.field_join_date_value) <= CURRENT_DATE
    AND (fld.field_leave_date_value IS NULL OR DATE(fld.field_leave_date_value) >= CURRENT_DATE)
),

flags AS (
  SELECT
    a.uid,
    GREATEST(MAX(uhc.entity_id IS NOT NULL), MAX(uic.entity_id IS NOT NULL)) AS member_flag,
    MAX(uac.entity_id IS NOT NULL)                                          AS affiliate_flag,
    MAX(DATE(a.join_dt_raw))                                                AS latest_join_date,
    MAX(DATE(a.leave_dt_raw))                                               AS latest_expiration_date
  FROM acp a
  LEFT JOIN user__field_home_club uhc
    ON uhc.entity_id = a.uid
   AND uhc.field_home_club_target_id = a.paragraph_id
   AND uhc.deleted = '0'
  LEFT JOIN user__field_memberships uac
    ON uac.entity_id = a.uid
   AND uac.field_memberships_target_id = a.paragraph_id
   AND uac.deleted = '0'
  LEFT JOIN user__field_intraclub_memberships uic
    ON uic.entity_id = a.uid
   AND uic.field_intraclub_memberships_target_id = a.paragraph_id
   AND uic.deleted = '0'
  GROUP BY a.uid
),

active_pick AS (
  SELECT a1.uid, a1.paragraph_id, a1.club_nid
  FROM acp a1
  JOIN (
    SELECT uid, MAX(DATE(join_dt_raw)) AS max_join
    FROM acp
    GROUP BY uid
  ) pick
    ON pick.uid = a1.uid AND pick.max_join = DATE(a1.join_dt_raw)
)

SELECT
  /* ===================== PRIMARY FIELDS ===================== */
  u.uid                                        AS uid,
  DATE(FROM_UNIXTIME(u.login))                 AS last_login,
  md.first_name                                AS first_name,
  md.last_name                                 AS last_name,
  md.email                                     AS email,
  CAST(md.birthdate AS DATE)                   AS birthday,

  /* ===================== MEMBER INFORMATION FIELDS ===================== */
  CASE
    WHEN flags.member_flag = 1 THEN 'regular'
    WHEN flags.affiliate_flag = 1 THEN 'affiliate'
    ELSE NULL
  END                                          AS member_type,
  COALESCE(ttd.name, 'Regular')                AS member_class,
  md.personal_status_id                        AS member_status,
  flags.latest_join_date                       AS join_date,
  flags.latest_expiration_date                 AS expiration_date,

  /* ===================== CLUB FIELDS ===================== */
  CAST(cnum.field_club_number_value AS SIGNED) AS club_number,
  nclub.nid                                    AS club_uid,
  nclub.title                                  AS club_name,
  rnum.field_region_number_value               AS club_region,
  region_node.nid                              AS club_region_uid,
  brns.brns_values                             AS brns,

  /* ===================== PARTNER FIELDS ===================== */
  CAST(md.partner_user_id AS UNSIGNED)         AS partner_uid,
  DATE(FROM_UNIXTIME(pu.login))                AS partner_last_login,
  md.partner_first_name                        AS partner_first_name,
  md.partner_last_name                         AS partner_last_name,
  md.partner_email                             AS partner_email,
  CAST(md.partner_birthdate AS DATE)           AS partner_birthday

FROM flags
JOIN users_field_data u
  ON u.uid = flags.uid
JOIN z_member_search_main md
  ON md.user_id = u.uid

LEFT JOIN users_field_data pu
  ON pu.uid = md.partner_user_id  /* get partner’s last_login */

LEFT JOIN user__field_primary_member pm_self
  ON pm_self.entity_id = u.uid
 AND pm_self.field_primary_member_target_id IS NOT NULL

LEFT JOIN active_pick
  ON active_pick.uid = u.uid

LEFT JOIN paragraph__field_membership_class mc
  ON mc.entity_id = active_pick.paragraph_id
 AND mc.deleted = '0'
LEFT JOIN taxonomy_term_field_data ttd
  ON ttd.tid = mc.field_membership_class_target_id

LEFT JOIN node_field_data nclub
  ON nclub.nid = active_pick.club_nid
LEFT JOIN node__field_club_number cnum
  ON cnum.entity_id = nclub.nid AND cnum.deleted = '0'
LEFT JOIN node__field_region cr
  ON cr.entity_id = nclub.nid AND cr.deleted = '0'
LEFT JOIN node_field_data region_node
  ON region_node.nid = cr.field_region_target_id
LEFT JOIN node__field_region_number rnum
  ON rnum.entity_id = region_node.nid AND rnum.deleted = '0'

LEFT JOIN v_brns brns
  ON brns.user_id = u.uid

WHERE
  md.personal_status_id IN ('947', '951', '1099')
  AND pm_self.entity_id IS NULL
  AND (flags.member_flag = 1 OR flags.affiliate_flag = 1)
"#;

/// The query of all members by their home club membership.
pub fn all_query() -> (r: Vec<SqlPiece>)
    ensures
        pieces_view(r@) == seq![SqlPieceView::Sql(MEMBERS_QUERY@), SqlPieceView::Sql(HOME_CLUB_CONDITION@)],
{
    let mut r: Vec<SqlPiece> = Vec::new();
    push_sql(&mut r, MEMBERS_QUERY);
    push_sql(&mut r, HOME_CLUB_CONDITION);
    assert(pieces_view(r@) =~= seq![SqlPieceView::Sql(MEMBERS_QUERY@), SqlPieceView::Sql(HOME_CLUB_CONDITION@)]);
    r
}

/// The query of the member whose user has a Drupal id, by the home club
/// membership.
pub fn by_uid_query(uid: u64) -> (r: Vec<SqlPiece>)
    ensures
        pieces_view(r@) == seq![
            SqlPieceView::Sql(MEMBERS_QUERY@),
            SqlPieceView::Sql("AND paragraphs_item_field_data.parent_field_name = 'field_home_club'"@),
            SqlPieceView::Sql("AND users_field_data.uid = "@),
            SqlPieceView::Bind(SqlValueView::U64(uid)),
        ],
{
    let mut r: Vec<SqlPiece> = Vec::new();
    push_sql(&mut r, MEMBERS_QUERY);
    push_sql(&mut r, "AND paragraphs_item_field_data.parent_field_name = 'field_home_club'");
    push_sql(&mut r, "AND users_field_data.uid = ");
    crate::db::query::push_bind(&mut r, SqlValue::U64(uid));
    assert(pieces_view(r@) =~= seq![
        SqlPieceView::Sql(MEMBERS_QUERY@),
        SqlPieceView::Sql("AND paragraphs_item_field_data.parent_field_name = 'field_home_club'"@),
        SqlPieceView::Sql("AND users_field_data.uid = "@),
        SqlPieceView::Bind(SqlValueView::U64(uid)),
    ]);
    r
}

/// The query of the member with an email address.
pub fn by_email_query(email: &str) -> (r: Vec<SqlPiece>)
    ensures
        pieces_view(r@) == seq![
            SqlPieceView::Sql(MEMBERS_QUERY@),
            SqlPieceView::Sql("AND users_field_data.mail = "@),
            SqlPieceView::Bind(SqlValueView::Text(email@)),
        ],
{
    where_query(MEMBERS_QUERY, "AND users_field_data.mail = ", SqlValue::Text(email.to_owned()))
}

} // verus!
