//! The earlier, minimal form of audience lists: id and name only.
use vstd::prelude::*;
use crate::mailchimp::{join_strs, seq_join, str_views};

verus! {

/// A query of the audience lists naming the fields to return.
#[derive(Clone)]
pub struct ListsQuery {
    pub fields: String,
    pub count: u32,
    pub offset: u32,
}

impl Default for ListsQuery {
    fn default() -> (r: ListsQuery)
        ensures
            r.fields@ == Seq::<char>::empty(),
            r.count == 0,
            r.offset == 0,
    {
        ListsQuery { fields: String::new(), count: 0, offset: 0 }
    }
}

impl ListsQuery {
    /// A query returning the given fields, otherwise default.
    pub fn for_fields(fields: &[&str]) -> (r: ListsQuery)
        ensures
            r.fields@ == seq_join(str_views(fields@), ","@),
            r.count == 0,
            r.offset == 0,
    {
        ListsQuery { fields: join_strs(fields, ","), count: 0, offset: 0 }
    }

    pub fn set_count(&mut self, count: u32)
        ensures
            final(self).count == count,
            final(self).fields == old(self).fields,
            final(self).offset == old(self).offset,
    {
        self.count = count;
    }

    pub fn offset(&self) -> (r: u32)
        ensures
            r == self.offset,
    {
        self.offset
    }

    pub fn set_offset(&mut self, offset: u32)
        ensures
            final(self).offset == offset,
            final(self).fields == old(self).fields,
            final(self).count == old(self).count,
    {
        self.offset = offset;
    }
}

/// An audience list: id and name.
pub struct List {
    pub id: String,
    pub name: String,
}

/// A page of audience lists.
pub struct ListsResponse {
    pub lists: Vec<List>,
}

} // verus!
