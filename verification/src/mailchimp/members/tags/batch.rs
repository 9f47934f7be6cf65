//! Tag updates as operations of a batch.
use vstd::prelude::*;
use crate::mailchimp::batches::{Batch, BatchMethod, BatchOperation};
use crate::mailchimp::members::tags::tags_update_path;

verus! {

/// Adds the operation that applies tag updates to a member; `body` is the
/// JSON document `{"tags": [...]}` holding the updates.
pub fn update<'a>(batch: &'a mut Batch, list_id: &str, member_id: &str, body: String) -> (r: &'a mut BatchOperation)
    ensures
        r.method == BatchMethod::POST,
        r.path@ == "/lists/"@ + list_id@ + "/members/"@ + member_id@ + "/tags"@,
        r.body == body,
        r.operation_id@ == Seq::<char>::empty(),
        r.params@.len() == 0,
        final(batch).operations@ == old(batch).operations@.push(*final(r)),
{
    let path = tags_update_path("", list_id, member_id);
    proof {
        reveal_strlit("");
        assert(""@ + "/lists/"@ =~= "/lists/"@);
    }
    batch.post(path.as_str(), body)
}

} // verus!
