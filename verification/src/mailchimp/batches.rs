//! Batch operations: many API calls submitted as one batch and polled until
//! the batch has finished.
use vstd::prelude::*;
use vstd::string::*;
use crate::mailchimp::{DEFAULT_QUERY_COUNT, PagedQuery, PagedResponse, join_strs, seq_join, str_views};

verus! {

/// The HTTP method of one operation of a batch.
#[derive(Clone, Copy, Debug, PartialEq, Eq, Structural)]
pub enum BatchMethod {
    GET,
    POST,
    PUT,
    PATCH,
    DELETE,
}

/// One operation of a batch: method, path, query parameters, JSON body and
/// an identifier the caller chooses.
pub struct BatchOperation {
    pub method: BatchMethod,
    pub path: String,
    pub params: Vec<(String, String)>,
    pub body: String,
    pub operation_id: String,
}

impl BatchOperation {
    /// An operation with no parameters and an empty identifier; `body` is
    /// the operation's JSON body.
    pub fn new(method: BatchMethod, path: &str, body: String) -> (r: BatchOperation)
        ensures
            r.method == method,
            r.path@ == path@,
            r.params@.len() == 0,
            r.body == body,
            r.operation_id@ == Seq::<char>::empty(),
    {
        BatchOperation {
            method,
            path: path.to_owned(),
            params: Vec::new(),
            body,
            operation_id: String::new(),
        }
    }
}

/// A batch of operations.
pub struct Batch {
    pub operations: Vec<BatchOperation>,
}

impl Default for Batch {
    fn default() -> (r: Batch)
        ensures
            r.operations@.len() == 0,
    {
        Batch { operations: Vec::new() }
    }
}

impl Batch {
    /// Adds an operation and hands it out for further changes.
    fn add(&mut self, op: BatchOperation) -> (r: &mut BatchOperation)
        ensures
            *r == op,
            final(self).operations@ == old(self).operations@.push(*final(r)),
    {
        self.operations.push(op);
        let last = self.operations.len() - 1;
        &mut self.operations[last]
    }

    /// Adds a POST of `body` to `path`.
    pub fn post(&mut self, path: &str, body: String) -> (r: &mut BatchOperation)
        ensures
            r.method == BatchMethod::POST && r.path@ == path@ && r.body == body
                && r.operation_id@ == Seq::<char>::empty() && r.params@.len() == 0,
            final(self).operations@ == old(self).operations@.push(*final(r)),
    {
        self.add(BatchOperation::new(BatchMethod::POST, path, body))
    }

    /// Adds an operation for a PATCH; like the service's client, it is sent
    /// with the POST method.
    pub fn patch(&mut self, path: &str, body: String) -> (r: &mut BatchOperation)
        ensures
            r.method == BatchMethod::POST && r.path@ == path@ && r.body == body
                && r.operation_id@ == Seq::<char>::empty() && r.params@.len() == 0,
            final(self).operations@ == old(self).operations@.push(*final(r)),
    {
        self.add(BatchOperation::new(BatchMethod::POST, path, body))
    }

    /// Adds a PUT of `body` to `path`.
    pub fn put(&mut self, path: &str, body: String) -> (r: &mut BatchOperation)
        ensures
            r.method == BatchMethod::PUT && r.path@ == path@ && r.body == body
                && r.operation_id@ == Seq::<char>::empty() && r.params@.len() == 0,
            final(self).operations@ == old(self).operations@.push(*final(r)),
    {
        self.add(BatchOperation::new(BatchMethod::PUT, path, body))
    }

    /// Adds a DELETE of `path` carrying `body`.
    pub fn delete(&mut self, path: &str, body: String) -> (r: &mut BatchOperation)
        ensures
            r.method == BatchMethod::DELETE && r.path@ == path@ && r.body == body
                && r.operation_id@ == Seq::<char>::empty() && r.params@.len() == 0,
            final(self).operations@ == old(self).operations@.push(*final(r)),
    {
        self.add(BatchOperation::new(BatchMethod::DELETE, path, body))
    }
}

/// The processing status of a submitted batch.
#[derive(Clone, Copy, Debug, PartialEq, Eq, Structural)]
pub enum BatchStatus {
    Preprocessing,
    Pending,
    Started,
    Finalizing,
    Finished,
}

/// What the API reports about a submitted batch; `submitted_at` is the
/// submission time as RFC 3339 text.
pub struct BatchInfo {
    pub id: String,
    pub status: BatchStatus,
    pub total_operations: u16,
    pub finished_operations: u16,
    pub errored_operations: u16,
    pub submitted_at: String,
    pub completed_at: String,
    pub response_body_url: String,
}

/// Whether to poll a submitted batch again: when running it to completion
/// and it has not finished yet.
pub fn keep_polling(to_completion: bool, status: BatchStatus) -> (r: bool)
    ensures
        r == (to_completion && status != BatchStatus::Finished),
{
    to_completion && match status {
        BatchStatus::Finished => false,
        _ => true,
    }
}

/// The path batches are submitted to and listed from.
pub fn batches_path() -> (r: &'static str)
    ensures
        r@ == "/3.0/batches"@,
{
    "/3.0/batches"
}

/// The path of one batch.
pub fn batch_path(id: &str) -> (r: String)
    ensures
        r@ == "/3.0/batches/"@ + id@,
{
    let mut p = "/3.0/batches/".to_owned();
    p.append(id);
    p
}

/// A query of the submitted batches.
#[derive(Clone)]
pub struct BatchesQuery {
    pub fields: String,
    pub count: u32,
    pub offset: u32,
}

impl PagedQuery for BatchesQuery {
    open spec fn spec_fields(&self) -> Seq<char> {
        self.fields@
    }

    open spec fn spec_count(&self) -> u32 {
        self.count
    }

    open spec fn spec_offset(&self) -> u32 {
        self.offset
    }

    fn default_fields() -> (r: Vec<&'static str>)
        ensures
            r@.len() == 0,
    {
        Vec::new()
    }

    fn fields(&self) -> (r: &str) {
        self.fields.as_str()
    }

    fn set_fields(&mut self, fields: String) {
        self.fields = fields;
    }

    fn set_count(&mut self, count: u32) {
        self.count = count;
    }

    fn offset(&self) -> (r: u32) {
        self.offset
    }

    fn set_offset(&mut self, offset: u32) {
        self.offset = offset;
    }
}

impl Default for BatchesQuery {
    fn default() -> (r: BatchesQuery)
        ensures
            r.fields@ == Seq::<char>::empty(),
            r.count == DEFAULT_QUERY_COUNT,
            r.offset == 0,
    {
        let names = BatchesQuery::default_fields();
        let fields = join_strs(names.as_slice(), ",");
        assert(str_views(names@).len() == 0);
        BatchesQuery { fields, count: DEFAULT_QUERY_COUNT, offset: 0 }
    }
}

/// A page of batches.
pub struct BatchesResponse {
    pub batches: Vec<BatchInfo>,
    pub total_items: u16,
}

impl PagedResponse for BatchesResponse {
    type Item = BatchInfo;

    open spec fn spec_items(&self) -> Seq<BatchInfo> {
        self.batches@
    }

    fn pop(&mut self) -> (r: Option<BatchInfo>) {
        self.batches.pop()
    }

    fn len(&self) -> (r: usize) {
        self.batches.len()
    }
}

} // verus!
