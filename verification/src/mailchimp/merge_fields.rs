//! Merge fields of an audience: the per-member data fields of a list.
use vstd::prelude::*;
use vstd::string::*;
use crate::date::Date;
use crate::mailchimp::{DEFAULT_QUERY_COUNT, Error, PagedQuery, PagedResponse, join_strs, seq_join, str_views};
use crate::text::same_text;

verus! {

/// The type of a merge field.
#[derive(Clone, Copy, Debug, PartialEq, Eq, Structural)]
pub enum MergeType {
    Text,
    Number,
    Address,
    Phone,
    Date,
    Url,
    ImageUrl,
    Radio,
    Dropdown,
    Birthday,
    Zip,
}

impl Default for MergeType {
    fn default() -> (r: MergeType)
        ensures
            r == MergeType::Text,
    {
        MergeType::Text
    }
}

/// The merge type a lowercase name denotes, if any.
pub open spec fn merge_type_named(s: Seq<char>) -> Option<MergeType> {
    if s == "text"@ {
        Some(MergeType::Text)
    } else if s == "number"@ {
        Some(MergeType::Number)
    } else if s == "address"@ {
        Some(MergeType::Address)
    } else if s == "phone"@ {
        Some(MergeType::Phone)
    } else if s == "date"@ {
        Some(MergeType::Date)
    } else if s == "url"@ {
        Some(MergeType::Url)
    } else if s == "imageurl"@ {
        Some(MergeType::ImageUrl)
    } else if s == "radio"@ {
        Some(MergeType::Radio)
    } else if s == "dropdown"@ {
        Some(MergeType::Dropdown)
    } else if s == "birthday"@ {
        Some(MergeType::Birthday)
    } else if s == "zip"@ {
        Some(MergeType::Zip)
    } else {
        None
    }
}

/// The name the API gives a merge type.
pub open spec fn merge_type_api_name(t: MergeType) -> Seq<char> {
    match t {
        MergeType::Text => "text"@,
        MergeType::Number => "number"@,
        MergeType::Address => "address"@,
        MergeType::Phone => "phone"@,
        MergeType::Date => "date"@,
        MergeType::Url => "url"@,
        MergeType::ImageUrl => "imageurl"@,
        MergeType::Radio => "radio"@,
        MergeType::Dropdown => "dropdown"@,
        MergeType::Birthday => "birthday"@,
        MergeType::Zip => "zip"@,
    }
}

/// Each merge type's API name parses back to that type.
pub proof fn lemma_merge_type_names(t: MergeType)
    ensures
        merge_type_named(merge_type_api_name(t)) == Some(t),
{
    reveal_strlit("text");
    reveal_strlit("number");
    reveal_strlit("address");
    reveal_strlit("phone");
    reveal_strlit("date");
    reveal_strlit("url");
    reveal_strlit("imageurl");
    reveal_strlit("radio");
    reveal_strlit("dropdown");
    reveal_strlit("birthday");
    reveal_strlit("zip");
    assert("number"@ != "text"@) by { assert("number"@.len() != "text"@.len()); }
    assert("address"@ != "text"@) by { assert("address"@.len() != "text"@.len()); }
    assert("address"@ != "number"@) by { assert("address"@.len() != "number"@.len()); }
    assert("phone"@ != "text"@) by { assert("phone"@.len() != "text"@.len()); }
    assert("phone"@ != "number"@) by { assert("phone"@.len() != "number"@.len()); }
    assert("phone"@ != "address"@) by { assert("phone"@.len() != "address"@.len()); }
    assert("date"@ != "text"@) by { assert("date"@[0] != "text"@[0]); }
    assert("date"@ != "number"@) by { assert("date"@.len() != "number"@.len()); }
    assert("date"@ != "address"@) by { assert("date"@.len() != "address"@.len()); }
    assert("date"@ != "phone"@) by { assert("date"@.len() != "phone"@.len()); }
    assert("url"@ != "text"@) by { assert("url"@.len() != "text"@.len()); }
    assert("url"@ != "number"@) by { assert("url"@.len() != "number"@.len()); }
    assert("url"@ != "address"@) by { assert("url"@.len() != "address"@.len()); }
    assert("url"@ != "phone"@) by { assert("url"@.len() != "phone"@.len()); }
    assert("url"@ != "date"@) by { assert("url"@.len() != "date"@.len()); }
    assert("imageurl"@ != "text"@) by { assert("imageurl"@.len() != "text"@.len()); }
    assert("imageurl"@ != "number"@) by { assert("imageurl"@.len() != "number"@.len()); }
    assert("imageurl"@ != "address"@) by { assert("imageurl"@.len() != "address"@.len()); }
    assert("imageurl"@ != "phone"@) by { assert("imageurl"@.len() != "phone"@.len()); }
    assert("imageurl"@ != "date"@) by { assert("imageurl"@.len() != "date"@.len()); }
    assert("imageurl"@ != "url"@) by { assert("imageurl"@.len() != "url"@.len()); }
    assert("radio"@ != "text"@) by { assert("radio"@.len() != "text"@.len()); }
    assert("radio"@ != "number"@) by { assert("radio"@.len() != "number"@.len()); }
    assert("radio"@ != "address"@) by { assert("radio"@.len() != "address"@.len()); }
    assert("radio"@ != "phone"@) by { assert("radio"@[0] != "phone"@[0]); }
    assert("radio"@ != "date"@) by { assert("radio"@.len() != "date"@.len()); }
    assert("radio"@ != "url"@) by { assert("radio"@.len() != "url"@.len()); }
    assert("radio"@ != "imageurl"@) by { assert("radio"@.len() != "imageurl"@.len()); }
    assert("dropdown"@ != "text"@) by { assert("dropdown"@.len() != "text"@.len()); }
    assert("dropdown"@ != "number"@) by { assert("dropdown"@.len() != "number"@.len()); }
    assert("dropdown"@ != "address"@) by { assert("dropdown"@.len() != "address"@.len()); }
    assert("dropdown"@ != "phone"@) by { assert("dropdown"@.len() != "phone"@.len()); }
    assert("dropdown"@ != "date"@) by { assert("dropdown"@.len() != "date"@.len()); }
    assert("dropdown"@ != "url"@) by { assert("dropdown"@.len() != "url"@.len()); }
    assert("dropdown"@ != "imageurl"@) by { assert("dropdown"@[0] != "imageurl"@[0]); }
    assert("dropdown"@ != "radio"@) by { assert("dropdown"@.len() != "radio"@.len()); }
    assert("birthday"@ != "text"@) by { assert("birthday"@.len() != "text"@.len()); }
    assert("birthday"@ != "number"@) by { assert("birthday"@.len() != "number"@.len()); }
    assert("birthday"@ != "address"@) by { assert("birthday"@.len() != "address"@.len()); }
    assert("birthday"@ != "phone"@) by { assert("birthday"@.len() != "phone"@.len()); }
    assert("birthday"@ != "date"@) by { assert("birthday"@.len() != "date"@.len()); }
    assert("birthday"@ != "url"@) by { assert("birthday"@.len() != "url"@.len()); }
    assert("birthday"@ != "imageurl"@) by { assert("birthday"@[0] != "imageurl"@[0]); }
    assert("birthday"@ != "radio"@) by { assert("birthday"@.len() != "radio"@.len()); }
    assert("birthday"@ != "dropdown"@) by { assert("birthday"@[0] != "dropdown"@[0]); }
    assert("zip"@ != "text"@) by { assert("zip"@.len() != "text"@.len()); }
    assert("zip"@ != "number"@) by { assert("zip"@.len() != "number"@.len()); }
    assert("zip"@ != "address"@) by { assert("zip"@.len() != "address"@.len()); }
    assert("zip"@ != "phone"@) by { assert("zip"@.len() != "phone"@.len()); }
    assert("zip"@ != "date"@) by { assert("zip"@.len() != "date"@.len()); }
    assert("zip"@ != "url"@) by { assert("zip"@[0] != "url"@[0]); }
    assert("zip"@ != "imageurl"@) by { assert("zip"@.len() != "imageurl"@.len()); }
    assert("zip"@ != "radio"@) by { assert("zip"@.len() != "radio"@.len()); }
    assert("zip"@ != "dropdown"@) by { assert("zip"@.len() != "dropdown"@.len()); }
    assert("zip"@ != "birthday"@) by { assert("zip"@.len() != "birthday"@.len()); }
}

impl MergeType {
    /// Parses a merge type from its lowercase API name.
    pub fn from_str(s: &str) -> (r: Result<MergeType, Error>)
        ensures
            match r {
                Ok(t) => merge_type_named(s@) == Some(t),
                Err(e) => merge_type_named(s@) is None && (e matches Error::InvalidMergeType(m)
                    && m@ == s@),
            },
    {
        if same_text(s, "text") {
            Ok(MergeType::Text)
        } else if same_text(s, "number") {
            Ok(MergeType::Number)
        } else if same_text(s, "address") {
            Ok(MergeType::Address)
        } else if same_text(s, "phone") {
            Ok(MergeType::Phone)
        } else if same_text(s, "date") {
            Ok(MergeType::Date)
        } else if same_text(s, "url") {
            Ok(MergeType::Url)
        } else if same_text(s, "imageurl") {
            Ok(MergeType::ImageUrl)
        } else if same_text(s, "radio") {
            Ok(MergeType::Radio)
        } else if same_text(s, "dropdown") {
            Ok(MergeType::Dropdown)
        } else if same_text(s, "birthday") {
            Ok(MergeType::Birthday)
        } else if same_text(s, "zip") {
            Ok(MergeType::Zip)
        } else {
            Err(Error::InvalidMergeType(s.to_owned()))
        }
    }
}

/// A merge field of an audience.
pub struct MergeField {
    pub merge_id: i32,
    pub tag: String,
    pub name: String,
    /// The field's type (the API's `type` member).
    pub field_type: MergeType,
}

impl Default for MergeField {
    fn default() -> (r: MergeField)
        ensures
            r.merge_id == 0,
            r.tag@ == Seq::<char>::empty(),
            r.name@ == Seq::<char>::empty(),
            r.field_type == MergeType::Text,
    {
        MergeField { merge_id: 0, tag: String::new(), name: String::new(), field_type: MergeType::default() }
    }
}

/// The path of an audience's merge fields.
pub fn merge_fields_path(list_id: &str) -> (r: String)
    ensures
        r@ == "/3.0/lists/"@ + list_id@ + "/merge-fields"@,
{
    let mut p = "/3.0/lists/".to_owned();
    p.append(list_id);
    p.append("/merge-fields");
    p
}

/// The path of one merge field of an audience.
pub fn merge_field_path(list_id: &str, merge_id: &str) -> (r: String)
    ensures
        r@ == "/3.0/lists/"@ + list_id@ + "/merge-fields/"@ + merge_id@,
{
    let mut p = "/3.0/lists/".to_owned();
    p.append(list_id);
    p.append("/merge-fields/");
    p.append(merge_id);
    p
}

/// A query of an audience's merge fields.
#[derive(Clone)]
pub struct MergeFieldsQuery {
    pub fields: String,
    pub count: u32,
    pub offset: u32,
}

/// The fields a merge field query returns by default.
pub open spec fn merge_fields_default_fields() -> Seq<Seq<char>> {
    seq![
        "merge_fields.merge_id"@,
        "merge_fields.tag"@,
        "merge_fields.name"@,
        "merge_fields.type"@,
    ]
}

impl PagedQuery for MergeFieldsQuery {
    open spec fn spec_fields(&self) -> Seq<char> {
        self.fields@
    }

    open spec fn spec_count(&self) -> u32 {
        self.count
    }

    open spec fn spec_offset(&self) -> u32 {
        self.offset
    }

    fn default_fields() -> (r: Vec<&'static str>)
        ensures
            str_views(r@) == merge_fields_default_fields(),
    {
        let r = vec!["merge_fields.merge_id", "merge_fields.tag", "merge_fields.name", "merge_fields.type"];
        assert(str_views(r@) =~= merge_fields_default_fields());
        r
    }

    fn fields(&self) -> (r: &str) {
        self.fields.as_str()
    }

    fn set_fields(&mut self, fields: String) {
        self.fields = fields;
    }

    fn set_count(&mut self, count: u32) {
        self.count = count;
    }

    fn offset(&self) -> (r: u32) {
        self.offset
    }

    fn set_offset(&mut self, offset: u32) {
        self.offset = offset;
    }
}

impl Default for MergeFieldsQuery {
    fn default() -> (r: MergeFieldsQuery)
        ensures
            r.fields@ == seq_join(merge_fields_default_fields(), ","@),
            r.count == DEFAULT_QUERY_COUNT,
            r.offset == 0,
    {
        let names = MergeFieldsQuery::default_fields();
        MergeFieldsQuery { fields: join_strs(names.as_slice(), ","), count: DEFAULT_QUERY_COUNT, offset: 0 }
    }
}

/// A page of merge fields.
pub struct MergeFieldsResponse {
    pub merge_fields: Vec<MergeField>,
}

impl PagedResponse for MergeFieldsResponse {
    type Item = MergeField;

    open spec fn spec_items(&self) -> Seq<MergeField> {
        self.merge_fields@
    }

    fn pop(&mut self) -> (r: Option<MergeField>) {
        self.merge_fields.pop()
    }

    fn len(&self) -> (r: usize) {
        self.merge_fields.len()
    }
}

// ---------------------------------------------------------------- values

/// A value for a merge field.
pub enum MergeValue {
    Text(String),
    Unsigned(u64),
    Signed(i64),
    Date(Date),
}

/// A merge field value as a plain value.
pub enum MergeValueView {
    Text(Seq<char>),
    Unsigned(u64),
    Signed(i64),
    Date(Date),
}

impl View for MergeValue {
    type V = MergeValueView;

    open spec fn view(&self) -> MergeValueView {
        match self {
            MergeValue::Text(s) => MergeValueView::Text(s@),
            MergeValue::Unsigned(v) => MergeValueView::Unsigned(*v),
            MergeValue::Signed(v) => MergeValueView::Signed(*v),
            MergeValue::Date(d) => MergeValueView::Date(*d),
        }
    }
}

/// An optional value as a plain value.
pub open spec fn opt_value_view(v: Option<MergeValue>) -> Option<MergeValueView> {
    match v {
        Some(x) => Some(x@),
        None => None,
    }
}

/// A value for the merge field with the given tag.
pub struct MergeFieldValue {
    pub tag: String,
    pub value: MergeValue,
}

/// A tagged value as a pair of plain values.
pub open spec fn field_value_view(v: MergeFieldValue) -> (Seq<char>, MergeValueView) {
    (v.tag@, v.value@)
}

/// Tagged values as plain values.
pub open spec fn field_values_view(vs: Seq<MergeFieldValue>) -> Seq<(Seq<char>, MergeValueView)> {
    vs.map_values(|v: MergeFieldValue| field_value_view(v))
}

/// An optional tagged value as a plain value.
pub open spec fn opt_field_view(v: Option<MergeFieldValue>) -> Option<(Seq<char>, MergeValueView)> {
    match v {
        Some(x) => Some(field_value_view(x)),
        None => None,
    }
}

/// The merge fields configured for an audience, by which member data is
/// turned into merge field values.
pub struct MergeFields {
    pub fields: Vec<MergeField>,
}

/// Whether one of `fields` has the tag `tag`.
pub open spec fn has_merge_tag(fields: Seq<MergeField>, tag: Seq<char>) -> bool {
    exists|i: int| 0 <= i < fields.len() && (#[trigger] fields[i]).tag@ == tag
}

/// The tagged value for `tag`: present when the audience has a field with
/// that tag and a value is given.
pub open spec fn merge_entry(fields: Seq<MergeField>, tag: Seq<char>, value: Option<MergeValueView>) -> Option<
    (Seq<char>, MergeValueView),
> {
    if has_merge_tag(fields, tag) && value is Some {
        Some((tag, value->0))
    } else {
        None
    }
}

/// The values present among optional ones, in order.
pub open spec fn present<A>(s: Seq<Option<A>>) -> Seq<A>
    decreases s.len(),
{
    if s.len() == 0 {
        Seq::empty()
    } else {
        let p = present(s.drop_last());
        match s.last() {
            Some(a) => p.push(a),
            None => p,
        }
    }
}

/// Appends a tagged value when there is one.
pub fn push_present(out: &mut Vec<MergeFieldValue>, v: Option<MergeFieldValue>)
    ensures
        field_values_view(final(out)@) == field_values_view(old(out)@) + present(seq![opt_field_view(v)]),
{
    let ghost w = opt_field_view(v);
    let ghost single = seq![w];
    assert(single.drop_last() =~= Seq::<Option<(Seq<char>, MergeValueView)>>::empty());
    assert(single.last() == w);
    assert(present(single.drop_last()) =~= Seq::<(Seq<char>, MergeValueView)>::empty());
    match v {
        Some(x) => {
            let ghost xv = field_value_view(x);
            out.push(x);
            assert(present(single) =~= seq![xv]);
        },
        None => {
            assert(present(single) =~= Seq::<(Seq<char>, MergeValueView)>::empty());
        },
    }
    assert(field_values_view(out@) =~= field_values_view(old(out)@) + present(single));
}

impl MergeFields {
    /// Whether the audience has a merge field with this tag.
    pub fn has_tag(&self, tag: &str) -> (r: bool)
        ensures
            r == has_merge_tag(self.fields@, tag@),
    {
        let mut i: usize = 0;
        while i < self.fields.len()
            invariant
                i <= self.fields@.len(),
                forall|k: int| 0 <= k < i ==> (#[trigger] self.fields@[k]).tag@ != tag@,
            decreases self.fields@.len() - i,
        {
            if same_text(self.fields[i].tag.as_str(), tag) {
                return true;
            }
            i = i + 1;
        }
        false
    }

    /// The merge field value for `tag`: present when the audience has a
    /// field with that tag and a value is given.
    pub fn to_value(&self, tag: &str, value: Option<MergeValue>) -> (r: Option<MergeFieldValue>)
        ensures
            opt_field_view(r) == merge_entry(self.fields@, tag@, opt_value_view(value)),
    {
        match value {
            Some(v) => {
                if self.has_tag(tag) {
                    Some(MergeFieldValue { tag: tag.to_owned(), value: v })
                } else {
                    None
                }
            },
            None => None,
        }
    }
}

} // verus!
