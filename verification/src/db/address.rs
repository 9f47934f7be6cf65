//! Mailing addresses of the application database.
use vstd::prelude::*;
use crate::text::{copy_opt_text, opt_text_view};
use crate::db::query::{
    RetainStatements, RowKind, SqlPiece, SqlPieceView, SqlValue, SqlValueView, TableRow,
    chunked_inserts_of, inserts_in_chunks, pieces_view, retain_with_keys,
    retains_keys, rows_of, values_view, where_query,
};
use crate::db::user::{id_for_email, spec_id_for_email};

verus! {

/// A user's mailing address; `user_id` is the user's `id`.
pub struct Address {
    pub user_id: String,
    pub street_address: Option<String>,
    pub street_address_2: Option<String>,
    pub zip_code: Option<String>,
    pub city: Option<String>,
    pub state: Option<String>,
    pub country: Option<String>,
}

impl TableRow for Address {
    open spec fn row(&self, kind: RowKind) -> Seq<SqlValueView> {
        match kind {
            RowKind::Stored => seq![
                SqlValueView::Text(self.user_id@),
                SqlValueView::OptText(opt_text_view(self.street_address)),
                SqlValueView::OptText(opt_text_view(self.street_address_2)),
                SqlValueView::OptText(opt_text_view(self.zip_code)),
                SqlValueView::OptText(opt_text_view(self.city)),
                SqlValueView::OptText(opt_text_view(self.state)),
                SqlValueView::OptText(opt_text_view(self.country)),
            ],
            RowKind::Key => seq![SqlValueView::Text(self.user_id@)],
        }
    }

    fn row_values(&self, kind: RowKind) -> (r: Vec<SqlValue>) {
        let mut r: Vec<SqlValue> = Vec::new();
        r.push(SqlValue::Text(self.user_id.clone()));
        if kind == RowKind::Stored {
            r.push(SqlValue::OptText(copy_opt_text(&self.street_address)));
            r.push(SqlValue::OptText(copy_opt_text(&self.street_address_2)));
            r.push(SqlValue::OptText(copy_opt_text(&self.zip_code)));
            r.push(SqlValue::OptText(copy_opt_text(&self.city)));
            r.push(SqlValue::OptText(copy_opt_text(&self.state)));
            r.push(SqlValue::OptText(copy_opt_text(&self.country)));
        }
        assert(values_view(r@) =~= self.row(kind));
        r
    }
}

/// A stored address row binds, in the order of the upsert's columns
/// (`user_id`, `street_address`, `street_address_2`, `zip_code`, `city`,
/// `state`, `country`), the matching fields; the key row is the user id.
pub proof fn lemma_address_row_columns(a: Address)
    ensures
        a.row(RowKind::Stored).len() == 7,
        a.row(RowKind::Stored)[0] == SqlValueView::Text(a.user_id@),
        a.row(RowKind::Stored)[1] == SqlValueView::OptText(opt_text_view(a.street_address)),
        a.row(RowKind::Stored)[2] == SqlValueView::OptText(opt_text_view(a.street_address_2)),
        a.row(RowKind::Stored)[3] == SqlValueView::OptText(opt_text_view(a.zip_code)),
        a.row(RowKind::Stored)[4] == SqlValueView::OptText(opt_text_view(a.city)),
        a.row(RowKind::Stored)[5] == SqlValueView::OptText(opt_text_view(a.state)),
        a.row(RowKind::Stored)[6] == SqlValueView::OptText(opt_text_view(a.country)),
        a.row(RowKind::Key) =~= seq![SqlValueView::Text(a.user_id@)],
{
}

/// The query of all addresses.
pub const FETCH_ADDRESS_QUERY: &'static str = r#"
    SELECT
        user_id,
        street_address,
        street_address_2,
        zip_code,
        city,
        state,
        country
    FROM
        addresses
"#;

/// The query of the addresses of the user with an email address.
pub fn by_email_query(email: &str) -> (r: Vec<SqlPiece>)
    ensures
        pieces_view(r@) == seq![
            SqlPieceView::Sql(FETCH_ADDRESS_QUERY@),
            SqlPieceView::Sql("WHERE user_id = "@),
            SqlPieceView::Bind(SqlValueView::Text(spec_id_for_email(email@))),
        ],
{
    where_query(FETCH_ADDRESS_QUERY, "WHERE user_id = ", SqlValue::Text(id_for_email(email)))
}

/// The head of the address upsert.
pub const UPSERT_HEAD: &'static str = r#"INSERT INTO addresses (
                    user_id,
                    street_address,
                    street_address_2,
                    zip_code,
                    city,
                    state,
                    country
                ) "#;

/// The tail of the address upsert.
pub const UPSERT_TAIL: &'static str = r#"ON CONFLICT(user_id) DO UPDATE SET
                street_address = excluded.street_address,
                street_address_2 = excluded.street_address_2,
                zip_code = excluded.zip_code,
                city = excluded.city,
                state = excluded.state,
                country = excluded.country
            "#;

/// The statements that insert or update addresses, in chunks.
pub fn upsert_many(addresses: &[Address]) -> (r: Vec<Vec<SqlPiece>>)
    ensures
        chunked_inserts_of(r@, UPSERT_HEAD@, rows_of(addresses@, RowKind::Stored), UPSERT_TAIL@),
{
    inserts_in_chunks(UPSERT_HEAD, addresses, UPSERT_TAIL, RowKind::Stored)
}

/// The statements that delete the addresses not among `addresses`.
pub fn retain(addresses: &[Address], timestamp: u128) -> (r: Option<RetainStatements>)
    ensures
        r is None <==> addresses@.len() == 0,
        r matches Some(s) ==> retains_keys(s, "addresses"@, "user_id"@, addresses@, timestamp),
{
    retain_with_keys("addresses", "user_id", addresses, timestamp)
}

} // verus!
