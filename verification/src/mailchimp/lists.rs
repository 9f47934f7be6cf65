//! Audience lists.
use vstd::prelude::*;
use vstd::string::*;
use crate::mailchimp::{DEFAULT_QUERY_COUNT, PagedQuery, PagedResponse, join_strs, seq_join, str_views};

verus! {

/// The contact details of an audience's owner.
pub struct ListContact {
    pub address1: String,
    pub address2: String,
    pub city: String,
    pub company: String,
    pub country: String,
    pub phone: String,
    pub state: String,
    pub zip: String,
}

/// The defaults of campaigns sent to an audience.
pub struct CampaignDefaults {
    pub from_email: String,
    pub from_name: String,
    pub language: String,
    pub subject: String,
}

/// An audience list. `date_created` is the creation time as RFC 3339 text.
/// The list's statistics, which hold floating-point rates, are kept where
/// responses are decoded.
pub struct List {
    pub id: String,
    pub name: String,
    pub contact: Option<ListContact>,
    pub permission_reminder: String,
    pub campaign_defaults: Option<CampaignDefaults>,
    pub email_type_option: bool,
    pub use_archive_bar: bool,
    pub date_created: Option<String>,
    pub notify_on_subscribe: String,
    pub notify_on_unsubscribe: String,
    pub double_optin: bool,
    pub has_welcome: bool,
    pub marketing_permissions: bool,
}

/// The path of the audience lists.
pub fn lists_path() -> (r: &'static str)
    ensures
        r@ == "/3.0/lists"@,
{
    "/3.0/lists"
}

/// The path of one audience list.
pub fn list_path(list_id: &str) -> (r: String)
    ensures
        r@ == "/3.0/lists/"@ + list_id@,
{
    let mut p = "/3.0/lists/".to_owned();
    p.append(list_id);
    p
}

/// A query of the audience lists.
#[derive(Clone)]
pub struct ListsQuery {
    pub fields: String,
    pub count: u32,
    pub offset: u32,
}

/// The fields a list query returns by default.
pub open spec fn lists_default_fields() -> Seq<Seq<char>> {
    seq!["lists.id"@, "lists.name"@]
}

impl PagedQuery for ListsQuery {
    open spec fn spec_fields(&self) -> Seq<char> {
        self.fields@
    }

    open spec fn spec_count(&self) -> u32 {
        self.count
    }

    open spec fn spec_offset(&self) -> u32 {
        self.offset
    }

    fn default_fields() -> (r: Vec<&'static str>)
        ensures
            str_views(r@) == lists_default_fields(),
    {
        let r = vec!["lists.id", "lists.name"];
        assert(str_views(r@) =~= lists_default_fields());
        r
    }

    fn fields(&self) -> (r: &str) {
        self.fields.as_str()
    }

    fn set_fields(&mut self, fields: String) {
        self.fields = fields;
    }

    fn set_count(&mut self, count: u32) {
        self.count = count;
    }

    fn offset(&self) -> (r: u32) {
        self.offset
    }

    fn set_offset(&mut self, offset: u32) {
        self.offset = offset;
    }
}

impl Default for ListsQuery {
    fn default() -> (r: ListsQuery)
        ensures
            r.fields@ == seq_join(lists_default_fields(), ","@),
            r.count == DEFAULT_QUERY_COUNT,
            r.offset == 0,
    {
        let names = ListsQuery::default_fields();
        ListsQuery { fields: join_strs(names.as_slice(), ","), count: DEFAULT_QUERY_COUNT, offset: 0 }
    }
}

/// A page of audience lists.
pub struct ListsResponse {
    pub lists: Vec<List>,
}

impl PagedResponse for ListsResponse {
    type Item = List;

    open spec fn spec_items(&self) -> Seq<List> {
        self.lists@
    }

    fn pop(&mut self) -> (r: Option<List>) {
        self.lists.pop()
    }

    fn len(&self) -> (r: usize) {
        self.lists.len()
    }
}

} // verus!
