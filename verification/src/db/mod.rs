//! The application database: its rows, the statements that read and write
//! them and the bookkeeping of bulk upserts. Running the statements happens
//! outside the library, which hands out their pieces.
use vstd::prelude::*;

pub mod address;
pub mod brn;
pub mod club;
pub mod leadership;
pub mod query;
pub mod region;
pub mod standing_committee;
pub mod user;

verus! {

/// How many rows one insert statement carries.
pub const DB_INSERT_CHUNK_SIZE: usize = 1000;

/// The sum of a sequence of row counts.
pub open spec fn sum_counts(s: Seq<u64>) -> int
    decreases s.len(),
{
    if s.len() == 0 {
        0
    } else {
        sum_counts(s.drop_last()) + s.last()
    }
}

/// The total of the rows affected by the statements of a bulk operation.
pub fn total_affected(counts: &[u64]) -> (r: u64)
    requires
        sum_counts(counts@) <= u64::MAX,
    ensures
        r == sum_counts(counts@),
{
    let mut total: u64 = 0;
    let mut i: usize = 0;
    while i < counts.len()
        invariant
            i <= counts@.len(),
            total == sum_counts(counts@.take(i as int)),
            sum_counts(counts@) <= u64::MAX,
        decreases counts@.len() - i,
    {
        proof {
            assert(counts@.take(i + 1).drop_last() =~= counts@.take(i as int));
            lemma_sum_counts_prefix(counts@, i + 1);
        }
        total = total + counts[i];
        i = i + 1;
    }
    assert(counts@.take(counts@.len() as int) =~= counts@);
    total
}

/// The sum of a prefix is at most the sum of the whole.
pub proof fn lemma_sum_counts_prefix(s: Seq<u64>, n: int)
    requires
        0 <= n <= s.len(),
    ensures
        sum_counts(s.take(n)) <= sum_counts(s),
    decreases s.len() - n,
{
    if n < s.len() {
        lemma_sum_counts_prefix(s, n + 1);
        assert(s.take(n + 1).drop_last() =~= s.take(n));
    } else {
        assert(s.take(n) =~= s);
    }
}

} // verus!
