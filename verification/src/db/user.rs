//! Users of the application database, keyed by a digest of their email.
use vstd::prelude::*;
use crate::text::{copy_opt_text, opt_text_view};
use vstd::utf8::encode_utf8;
use crate::codec::{
    base64_url_no_pad, base64_unpadded_len, encode_base64_url_no_pad, is_base64_url_char, sha256,
    sha256_digest,
};
use crate::date::Date;
use crate::db::query::{
    RetainStatements, RowKind, SqlPiece, SqlPieceView, SqlValue, SqlValueView, TableRow,
    chunked_inserts_of, inserts_in_chunks, pieces_view, retain_with_keys, retains_keys,
    rows_of, values_view, where_query,
};
use crate::text::{
    ascii_lower, ascii_lowercase, lemma_ascii_lower_white_space, lemma_ascii_lowercase_idempotent, lemma_trim_fixed, lemma_trimmed, lowercase,
    to_lowercase, trim, trimmed_text,
};
use vstd::utf8::is_ascii_chars;

verus! {

/// A user of the application database. `id` is derived from the email by
/// `id_for_email`; `uid` is the user's Drupal id.
pub struct User {
    pub id: String,
    pub uid: i64,
    pub email: String,
    pub first_name: Option<String>,
    pub last_name: Option<String>,
    pub birthday: Option<Date>,
    pub phone_mobile: Option<String>,
    pub phone_home: Option<String>,
    pub last_login: Option<Date>,
}

/// The id of the user with an email address: the unpadded URL-safe base64
/// encoding of the SHA-256 digest of the trimmed, lowercased address.
pub open spec fn spec_id_for_email(email: Seq<char>) -> Seq<char> {
    base64_url_no_pad(sha256_digest(encode_utf8(lowercase(trimmed_text(email)))))
}

/// The id of the user with an email address.
pub fn id_for_email(email: &str) -> (r: String)
    ensures
        r@ == spec_id_for_email(email@),
        r@.len() == 43,
        forall|i: int| 0 <= i < r@.len() ==> is_base64_url_char(#[trigger] r@[i]),
{
    let lower = to_lowercase(trim(email));
    let digest = sha256(lower.as_str().as_bytes());
    assert(base64_unpadded_len(32) == 43);
    encode_base64_url_no_pad(digest.as_slice())
}

/// An ASCII email, and the same email trimmed and lowercased, give the
/// same user id.
pub proof fn lemma_id_ignores_space_and_case(email: Seq<char>)
    requires
        is_ascii_chars(email),
    ensures
        spec_id_for_email(lowercase(trimmed_text(email))) == spec_id_for_email(email),
{
    let t = trimmed_text(email);
    lemma_trimmed(email);
    let (a, b) = choose|a: int, b: int| 0 <= a <= b <= email.len() && t == email.subrange(a, b);
    assert(is_ascii_chars(t)) by {
        assert forall|i: int| 0 <= i < t.len() implies '\0' <= #[trigger] t[i] <= '\u{7f}' by {
            assert(t[i] == email[a + i]);
        }
    }
    lemma_ascii_lowercase_idempotent(t);
    let u = lowercase(t);
    assert(u == ascii_lowercase(t));
    if u.len() > 0 {
        lemma_ascii_lower_white_space(t[0]);
        lemma_ascii_lower_white_space(t.last());
        assert(u[0] == ascii_lower(t[0]));
        assert(u.last() == ascii_lower(t.last()));
    }
    lemma_trim_fixed(u);
}

impl TableRow for User {
    open spec fn row(&self, kind: RowKind) -> Seq<SqlValueView> {
        match kind {
            RowKind::Stored => seq![
                SqlValueView::Text(self.id@),
                SqlValueView::I64(self.uid),
                SqlValueView::Text(self.email@),
                SqlValueView::OptText(opt_text_view(self.first_name)),
                SqlValueView::OptText(opt_text_view(self.last_name)),
            ],
            RowKind::Key => seq![SqlValueView::Text(self.id@)],
        }
    }

    fn row_values(&self, kind: RowKind) -> (r: Vec<SqlValue>) {
        let mut r: Vec<SqlValue> = Vec::new();
        r.push(SqlValue::Text(self.id.clone()));
        if kind == RowKind::Stored {
            r.push(SqlValue::I64(self.uid));
            r.push(SqlValue::Text(self.email.clone()));
            r.push(SqlValue::OptText(crate::text::copy_opt_text(&self.first_name)));
            r.push(SqlValue::OptText(crate::text::copy_opt_text(&self.last_name)));
        }
        assert(values_view(r@) =~= self.row(kind));
        r
    }
}

/// A stored user row binds, in the order of the upsert's columns (`id`,
/// `uid`, `email`, `first_name`, `last_name`), the user's id, Drupal id,
/// email, first name and last name; the key row is the id alone.
pub proof fn lemma_user_row_columns(u: User)
    ensures
        u.row(RowKind::Stored).len() == 5,
        u.row(RowKind::Stored)[0] == SqlValueView::Text(u.id@),
        u.row(RowKind::Stored)[1] == SqlValueView::I64(u.uid),
        u.row(RowKind::Stored)[2] == SqlValueView::Text(u.email@),
        u.row(RowKind::Stored)[3] == SqlValueView::OptText(crate::text::opt_text_view(u.first_name)),
        u.row(RowKind::Stored)[4] == SqlValueView::OptText(crate::text::opt_text_view(u.last_name)),
        u.row(RowKind::Key) =~= seq![SqlValueView::Text(u.id@)],
{
}

/// The query of all users.
pub const FETCH_USER_QUERY: &'static str = r#"
    SELECT
        id,
        uid,
        email,
        first_name,
        last_name
    FROM
        users
"#;

/// The query of the user with a Drupal id.
pub fn by_uid_query(uid: i64) -> (r: Vec<SqlPiece>)
    ensures
        pieces_view(r@) == seq![
            SqlPieceView::Sql(FETCH_USER_QUERY@),
            SqlPieceView::Sql("WHERE uid = "@),
            SqlPieceView::Bind(SqlValueView::I64(uid)),
        ],
{
    where_query(FETCH_USER_QUERY, "WHERE uid = ", SqlValue::I64(uid))
}

/// The query of the user with an email address, found by the id the
/// address gives.
pub fn by_email_query(email: &str) -> (r: Vec<SqlPiece>)
    ensures
        pieces_view(r@) == seq![
            SqlPieceView::Sql(FETCH_USER_QUERY@),
            SqlPieceView::Sql("WHERE id = "@),
            SqlPieceView::Bind(SqlValueView::Text(spec_id_for_email(email@))),
        ],
{
    where_query(FETCH_USER_QUERY, "WHERE id = ", SqlValue::Text(id_for_email(email)))
}

/// The head of the user upsert.
pub const UPSERT_HEAD: &'static str = r#"INSERT INTO users (
                    id,
                    uid,
                    email,
                    first_name,
                    last_name
                ) "#;

/// The tail of the user upsert.
pub const UPSERT_TAIL: &'static str = r#"ON CONFLICT(id) DO UPDATE SET
                uid = excluded.uid,
                email = excluded.email,
                first_name = excluded.first_name,
                last_name = excluded.last_name
            "#;

/// The statements that insert or update users, in chunks.
pub fn upsert_many(users: &[User]) -> (r: Vec<Vec<SqlPiece>>)
    ensures
        chunked_inserts_of(r@, UPSERT_HEAD@, rows_of(users@, RowKind::Stored), UPSERT_TAIL@),
{
    inserts_in_chunks(UPSERT_HEAD, users, UPSERT_TAIL, RowKind::Stored)
}

/// The statements that delete the users not among `users`.
pub fn retain(users: &[User], timestamp: u128) -> (r: Option<RetainStatements>)
    ensures
        r is None <==> users@.len() == 0,
        r matches Some(s) ==> retains_keys(s, "users"@, "id"@, users@, timestamp),
{
    retain_with_keys("users", "id", users, timestamp)
}

} // verus!
