//! BRNs of the application database.
use vstd::prelude::*;
use crate::chunks::{chunk_bounds, chunk_count, chunk_end, is_chunking};
use crate::db::query::{
    RowKind, SqlPiece, SqlPieceView, SqlValue, SqlValueView, TableRow,
    chunked_inserts_of, inserts_in_chunks, pieces_view, push_separated_binds, push_sql, rows_of,
    separated_binds, values_view, where_query,
};
use crate::db::user::{id_for_email, spec_id_for_email};

verus! {

/// A BRN held by a user; `user_id` is the user's `id`.
pub struct Brn {
    pub user_id: String,
    pub number: String,
}

impl TableRow for Brn {
    open spec fn row(&self, kind: RowKind) -> Seq<SqlValueView> {
        match kind {
            RowKind::Stored => seq![SqlValueView::Text(self.user_id@), SqlValueView::Text(self.number@)],
            RowKind::Key => seq![SqlValueView::Text(self.number@)],
        }
    }

    fn row_values(&self, kind: RowKind) -> (r: Vec<SqlValue>) {
        let mut r: Vec<SqlValue> = Vec::new();
        if kind == RowKind::Stored {
            r.push(SqlValue::Text(self.user_id.clone()));
        }
        r.push(SqlValue::Text(self.number.clone()));
        assert(values_view(r@) =~= self.row(kind));
        r
    }
}

/// The query of all BRNs.
pub const FETCH_BRN_QUERY: &'static str = r#"
    SELECT
        user_id,
        number
    FROM
        brns
"#;

/// The query of the BRN with a number.
pub fn by_number_query(number: &str) -> (r: Vec<SqlPiece>)
    ensures
        pieces_view(r@) == seq![
            SqlPieceView::Sql(FETCH_BRN_QUERY@),
            SqlPieceView::Sql("WHERE number = "@),
            SqlPieceView::Bind(SqlValueView::Text(number@)),
        ],
{
    where_query(FETCH_BRN_QUERY, "WHERE number = ", SqlValue::Text(number.to_owned()))
}

/// The query of the BRNs of the user with an email address.
pub fn by_email_query(email: &str) -> (r: Vec<SqlPiece>)
    ensures
        pieces_view(r@) == seq![
            SqlPieceView::Sql(FETCH_BRN_QUERY@),
            SqlPieceView::Sql("WHERE user_id = "@),
            SqlPieceView::Bind(SqlValueView::Text(spec_id_for_email(email@))),
        ],
{
    where_query(FETCH_BRN_QUERY, "WHERE user_id = ", SqlValue::Text(id_for_email(email)))
}

/// The head of the BRN upsert.
pub const UPSERT_HEAD: &'static str = r#"INSERT INTO brns (
                    user_id,
                    number
                ) "#;

/// The tail of the BRN upsert, which matches BRNs by number.
pub const UPSERT_TAIL: &'static str = r#"ON CONFLICT(number) DO UPDATE SET
                user_id = excluded.user_id
            "#;

/// The statements that insert or update BRNs, in chunks.
pub fn upsert_many(brns: &[Brn]) -> (r: Vec<Vec<SqlPiece>>)
    ensures
        chunked_inserts_of(r@, UPSERT_HEAD@, rows_of(brns@, RowKind::Stored), UPSERT_TAIL@),
{
    inserts_in_chunks(UPSERT_HEAD, brns, UPSERT_TAIL, RowKind::Stored)
}

/// The head of a BRN delete.
pub const DELETE_HEAD: &'static str = r#" DELETE FROM brns WHERE number NOT IN ("#;

/// The numbers of BRNs, as bound values.
pub open spec fn brn_numbers(brns: Seq<Brn>) -> Seq<SqlValueView> {
    brns.map_values(|b: Brn| SqlValueView::Text(b.number@))
}

/// A delete of the BRNs whose number is none of `numbers`.
pub open spec fn delete_pieces(numbers: Seq<SqlValueView>) -> Seq<SqlPieceView> {
    seq![SqlPieceView::Sql(DELETE_HEAD@)] + separated_binds(numbers) + seq![SqlPieceView::Sql(") "@)]
}

/// The deletes of the BRNs whose number is not among `brns`, one per chunk
/// of `chunk_size` numbers, each deleting what its own chunk does not
/// name; none when there are no BRNs.
pub fn retain(brns: &[Brn], chunk_size: usize) -> (r: Vec<Vec<SqlPiece>>)
    requires
        chunk_size > 0,
    ensures
        r@.len() == chunk_count(brns@.len() as int, chunk_size as int),
        forall|k: int|
            0 <= k < r@.len() ==> pieces_view(#[trigger] r@[k]@) == delete_pieces(
                brn_numbers(brns@).subrange(
                    k * chunk_size,
                    chunk_end(k, chunk_size as int, brns@.len() as int),
                ),
            ),
{
    let bounds = chunk_bounds(brns.len(), chunk_size);
    let mut r: Vec<Vec<SqlPiece>> = Vec::new();
    let mut k: usize = 0;
    while k < bounds.len()
        invariant
            k <= bounds@.len(),
            r@.len() == k,
            chunk_size > 0,
            is_chunking(bounds@, brns@.len() as int, chunk_size as int),
            forall|j: int|
                0 <= j < k ==> pieces_view(#[trigger] r@[j]@) == delete_pieces(
                    brn_numbers(brns@).subrange(
                        j * chunk_size,
                        chunk_end(j, chunk_size as int, brns@.len() as int),
                    ),
                ),
        decreases bounds@.len() - k,
    {
        let (lo, hi) = bounds[k];
        let mut numbers: Vec<SqlValue> = Vec::new();
        let mut i: usize = lo;
        proof {
            assert(k * chunk_size <= chunk_end(k as int, chunk_size as int, brns@.len() as int)) by (nonlinear_arith)
                requires
                    k < (brns@.len() + chunk_size - 1) / (chunk_size as int),
                    chunk_size > 0,
            {
                assert(k * chunk_size < brns@.len());
            }
        }
        while i < hi
            invariant
                lo <= i <= hi <= brns@.len(),
                values_view(numbers@) == brn_numbers(brns@).subrange(lo as int, i as int),
            decreases hi - i,
        {
            let ghost before = numbers@;
            let number = brns[i].number.clone();
            numbers.push(SqlValue::Text(number));
            proof {
                assert(numbers@[numbers@.len() - 1]@ == SqlValueView::Text(brns@[i as int].number@));
                assert(values_view(numbers@) =~= values_view(before).push(SqlValueView::Text(brns@[i as int].number@)));
                assert(brn_numbers(brns@)[i as int] == SqlValueView::Text(brns@[i as int].number@));
                assert(values_view(numbers@) =~= brn_numbers(brns@).subrange(lo as int, i + 1));
            }
            i = i + 1;
        }
        let mut statement: Vec<SqlPiece> = Vec::new();
        push_sql(&mut statement, DELETE_HEAD);
        push_separated_binds(&mut statement, &numbers);
        push_sql(&mut statement, ") ");
        assert(pieces_view(statement@) =~= delete_pieces(brn_numbers(brns@).subrange(lo as int, hi as int)));
        r.push(statement);
        k = k + 1;
    }
    r
}

} // verus!
