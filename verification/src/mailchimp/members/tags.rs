//! Tags of audience members.
use vstd::prelude::*;
use vstd::string::*;
use crate::chunks::{chunk_bounds, is_chunking};
use crate::chunks::{chunk_count, chunk_end};
use crate::mailchimp::batches::{Batch, BatchMethod, BatchOperation};

pub mod batch;

verus! {

/// The path of a member's tags, under `prefix`.
pub fn tags_update_path(prefix: &str, list_id: &str, member_id: &str) -> (r: String)
    ensures
        r@ == prefix@ + "/lists/"@ + list_id@ + "/members/"@ + member_id@ + "/tags"@,
{
    let mut p = prefix.to_owned();
    p.append("/lists/");
    p.append(list_id);
    p.append("/members/");
    p.append(member_id);
    p.append("/tags");
    p
}

/// How many members' tag updates one batch carries.
pub const TAG_UPDATES_PER_BATCH: usize = 300;

/// `op` posts the tag updates `body` of member `member_id` of list
/// `list_id`, identified by the member id.
pub open spec fn is_tag_update_op(op: BatchOperation, list_id: Seq<char>, member_id: Seq<char>, body: Seq<char>) -> bool {
    &&& op.method == BatchMethod::POST
    &&& op.path@ == "/lists/"@ + list_id + "/members/"@ + member_id + "/tags"@
    &&& op.body@ == body
    &&& op.operation_id@ == member_id
    &&& op.params@.len() == 0
}

/// `b` holds the tag updates `updates[lo..hi]`, in order.
pub open spec fn is_tag_update_batch(b: Batch, list_id: Seq<char>, updates: Seq<(String, String)>, lo: int, hi: int) -> bool {
    &&& b.operations@.len() == hi - lo
    &&& forall|j: int|
        0 <= j < hi - lo ==> is_tag_update_op(
            #[trigger] b.operations@[j],
            list_id,
            updates[lo + j].0@,
            updates[lo + j].1@,
        )
}

/// The batches that apply tag updates, each given as a member id and the
/// JSON document of its updates: one operation per member, identified by
/// the member id, `TAG_UPDATES_PER_BATCH` members per batch.
pub fn update_many_batches(list_id: &str, updates: &[(String, String)]) -> (r: Vec<Batch>)
    ensures
        r@.len() == chunk_count(updates@.len() as int, TAG_UPDATES_PER_BATCH as int),
        forall|k: int|
            0 <= k < r@.len() ==> is_tag_update_batch(
                #[trigger] r@[k],
                list_id@,
                updates@,
                k * TAG_UPDATES_PER_BATCH,
                chunk_end(k, TAG_UPDATES_PER_BATCH as int, updates@.len() as int),
            ),
{
    let bounds = chunk_bounds(updates.len(), TAG_UPDATES_PER_BATCH);
    let mut r: Vec<Batch> = Vec::new();
    let mut k: usize = 0;
    while k < bounds.len()
        invariant
            k <= bounds@.len(),
            r@.len() == k,
            is_chunking(bounds@, updates@.len() as int, TAG_UPDATES_PER_BATCH as int),
            forall|kk: int|
                0 <= kk < k ==> is_tag_update_batch(
                    #[trigger] r@[kk],
                    list_id@,
                    updates@,
                    kk * TAG_UPDATES_PER_BATCH,
                    chunk_end(kk, TAG_UPDATES_PER_BATCH as int, updates@.len() as int),
                ),
        decreases bounds@.len() - k,
    {
        let (lo, hi) = bounds[k];
        proof {
            assert(k * TAG_UPDATES_PER_BATCH <= chunk_end(k as int, TAG_UPDATES_PER_BATCH as int, updates@.len() as int)) by (nonlinear_arith)
                requires
                    k < (updates@.len() + TAG_UPDATES_PER_BATCH - 1) / (TAG_UPDATES_PER_BATCH as int),
                    TAG_UPDATES_PER_BATCH == 300,
            {
                assert(k * 300 < updates@.len());
            }
        }
        let mut batch = Batch::default();
        let mut i: usize = lo;
        while i < hi
            invariant
                lo <= i <= hi <= updates@.len(),
                is_tag_update_batch(batch, list_id@, updates@, lo as int, i as int),
            decreases hi - i,
        {
            let (member_id, body) = &updates[i];
            let ghost before = batch.operations@;
            let op = batch::update(&mut batch, list_id, member_id.as_str(), body.clone());
            op.operation_id = member_id.clone();
            proof {
                let last = batch.operations@.last();
                assert(batch.operations@ == before.push(last));
                assert forall|j: int| 0 <= j < i + 1 - lo implies is_tag_update_op(
                    #[trigger] batch.operations@[j],
                    list_id@,
                    updates@[lo + j].0@,
                    updates@[lo + j].1@,
                ) by {
                    if j < i - lo {
                        assert(batch.operations@[j] == before[j]);
                    }
                }
            }
            i = i + 1;
        }
        r.push(batch);
        k = k + 1;
    }
    r
}

} // verus!
