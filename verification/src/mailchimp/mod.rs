//! Mailchimp marketing API client: authentication, request construction,
//! response classification and paging. Sending requests and decoding JSON
//! bodies happen outside the library, which hands out `Request` values and
//! decides what a response means.
use vstd::prelude::*;
use vstd::string::*;
use vstd::utf8::encode_utf8;
use vstd::std_specs::cmp::PartialEqSpec;
use crate::codec::{base64_padded_len, base64_standard, encode_base64_standard, is_base64_standard_char};
use crate::text::{split_on, split_text, starts_with, text_starts_with};

pub mod batches;
pub mod client;
pub mod error;
pub mod health;
pub mod list;
pub mod lists;
pub mod members;
pub mod merge_fields;

pub use error::{Error, MailchimError};

verus! {

/// The default timeout for API requests, in seconds.
pub const DEFAULT_TIMEOUT: u64 = 20;

/// Default number of items to return in a query.
pub const DEFAULT_QUERY_COUNT: u32 = 1000;

// ---------------------------------------------------------------- joining

/// The texts of `parts` joined with `sep` between consecutive parts.
pub open spec fn seq_join(parts: Seq<Seq<char>>, sep: Seq<char>) -> Seq<char>
    decreases parts.len(),
{
    if parts.len() == 0 {
        Seq::empty()
    } else if parts.len() == 1 {
        parts[0]
    } else {
        seq_join(parts.drop_last(), sep) + sep + parts.last()
    }
}

/// The views of a sequence of string slices.
pub open spec fn str_views(parts: Seq<&str>) -> Seq<Seq<char>> {
    parts.map_values(|p: &str| p@)
}

/// Joins `parts` with `sep`, as `[&str]::join` does.
pub fn join_strs(parts: &[&str], sep: &str) -> (r: String)
    ensures
        r@ == seq_join(str_views(parts@), sep@),
{
    let mut res = String::new();
    let ghost views = str_views(parts@);
    let mut i: usize = 0;
    while i < parts.len()
        invariant
            i <= parts@.len(),
            views == str_views(parts@),
            res@ == seq_join(views.take(i as int), sep@),
        decreases parts@.len() - i,
    {
        if i != 0 {
            res.append(sep);
        }
        res.append(parts[i]);
        assert(views.take(i + 1).drop_last() =~= views.take(i as int));
        i = i + 1;
    }
    assert(views.take(parts@.len() as int) =~= views);
    res
}

// ---------------------------------------------------------------- API keys

/// The data center of an API key: the second `-`-separated piece of the key,
/// if the key has one.
pub open spec fn spec_data_center(key: Seq<char>) -> Option<Seq<char>> {
    if split_text(key, '-').len() >= 2 {
        Some(split_text(key, '-')[1])
    } else {
        None
    }
}

/// The data center that an API key names (`<key>-<dc>`).
pub struct DataCenter(pub String);

impl DataCenter {
    /// Parses the data center out of an API key.
    pub fn from_str(s: &str) -> (r: Result<DataCenter, Error>)
        ensures
            match r {
                Ok(dc) => spec_data_center(s@) == Some(dc.0@),
                Err(e) => spec_data_center(s@) is None && e is MalformedAPIKey,
            },
    {
        let mut parts = split_on(s, '-');
        if parts.len() >= 2 {
            let ghost views = parts@.map_values(|p: String| p@);
            let dc = parts.remove(1);
            assert(views[1] == dc@);
            Ok(DataCenter(dc))
        } else {
            Err(Error::MalformedAPIKey)
        }
    }
}

// ---------------------------------------------------------------- outside calls

/// What `url::Url::parse` gives for a text, as the serialization of the
/// parsed URL, or `None` when it refuses the text.
pub uninterp spec fn url_parse(input: Seq<char>) -> Option<Seq<char>>;

/// What `url::Url::join` gives for a base URL and a reference, as the
/// serialization of the joined URL, or `None` when parsing fails.
pub uninterp spec fn url_join(base: Seq<char>, input: Seq<char>) -> Option<Seq<char>>;

/// Calls `url::Url::parse` and hands out the parsed URL's serialization
/// (`String::from(url)`); the outcome is named `url_parse` of the input.
#[verifier::external_body]
fn parse_url(input: &str) -> (r: Result<String, url::ParseError>)
    ensures
        match r {
            Ok(u) => url_parse(input@) == Some(u@),
            Err(_) => url_parse(input@) is None,
        },
{
    url::Url::parse(input).map(String::from)
}

/// Calls `url::Url::join` on the base URL parsed back from its
/// serialization (`Url::parse`), and hands out the joined URL's
/// serialization; the outcome, a failure of either call included, is named
/// `url_join` of the two texts.
#[verifier::external_body]
fn join_url(base: &str, input: &str) -> (r: Result<String, url::ParseError>)
    ensures
        match r {
            Ok(u) => url_join(base@, input@) == Some(u@),
            Err(_) => url_join(base@, input@) is None,
        },
{
    match url::Url::parse(base) {
        Ok(b) => b.join(input).map(String::from),
        Err(e) => Err(e),
    }
}

/// A byte that `http::HeaderValue` accepts: visible ASCII, obs-text or tab.
pub open spec fn header_byte_ok(b: u8) -> bool {
    (b >= 32 && b != 127) || b == 9
}

/// Calls `reqwest::header::HeaderValue::from_str`, which, as its source
/// shows, accepts a text exactly when every byte of its UTF-8 encoding is
/// accepted by `header_byte_ok`.
#[verifier::external_body]
fn header_value_ok(s: &str) -> (r: bool)
    ensures
        r == (forall|i: int|
            0 <= i < encode_utf8(s@).len() ==> header_byte_ok(#[trigger] encode_utf8(s@)[i])),
{
    reqwest::header::HeaderValue::from_str(s).is_ok()
}

// ---------------------------------------------------------------- authentication

/// The authorization header value for an API key:
/// `Basic ` followed by the base64 encoding of `username:<key>`.
pub open spec fn basic_auth_header(key: Seq<char>) -> Seq<char> {
    "Basic "@ + base64_standard(encode_utf8("username:"@ + key))
}

/// The endpoint text for a data center.
pub open spec fn endpoint_text(dc: Seq<char>) -> Seq<char> {
    "https://"@ + dc + ".api.mailchimp.com"@
}

/// The endpoint URL an API key leads to, if its data center yields a URL.
pub open spec fn spec_endpoint(key: Seq<char>) -> Option<Seq<char>> {
    match spec_data_center(key) {
        Some(dc) => url_parse(endpoint_text(dc)),
        None => None,
    }
}

/// Credentials and endpoint of HTTP basic authentication.
pub struct BasicAuth {
    pub auth_header: String,
    pub endpoint: String,
}

/// How requests authenticate against the API.
pub enum AuthMode {
    Basic(BasicAuth),
}

/// The path a request is sent to: the given path with a leading `/`.
pub open spec fn rooted_path(path: Seq<char>) -> Seq<char> {
    if starts_with(path, "/"@) {
        path
    } else {
        "/"@ + path
    }
}

proof fn lemma_header_bytes_ok(prefix: Seq<char>, enc: Seq<char>)
    requires
        forall|i: int| 0 <= i < prefix.len() ==> ' ' <= #[trigger] prefix[i] <= '~',
        forall|i: int| 0 <= i < enc.len() ==> is_base64_standard_char(#[trigger] enc[i]),
    ensures
        forall|i: int|
            0 <= i < encode_utf8(prefix + enc).len() ==> header_byte_ok(
                #[trigger] encode_utf8(prefix + enc)[i],
            ),
{
    let s = prefix + enc;
    assert forall|i: int| 0 <= i < s.len() implies ' ' <= #[trigger] s[i] <= '~' by {
        if i < prefix.len() {
            assert(s[i] == prefix[i]);
        } else {
            assert(s[i] == enc[i - prefix.len()]);
            assert(is_base64_standard_char(enc[i - prefix.len()]));
        }
    }
    assert(vstd::utf8::is_ascii_chars(s));
    vstd::utf8::is_ascii_chars_encode_utf8(s);
    assert forall|i: int| 0 <= i < encode_utf8(s).len() implies header_byte_ok(
        #[trigger] encode_utf8(s)[i],
    ) by {
        assert(s[i] as u8 == encode_utf8(s)[i]);
        assert(' ' <= s[i] <= '~');
        let c = s[i];
        assert(32 <= c as u32 <= 126);
        assert(c as u8 == c as u32);
    }
}

impl AuthMode {
    /// Basic authentication for an API key.
    pub fn new_basic_auth(key: &str) -> (r: Result<AuthMode, Error>)
        requires
            base64_padded_len(encode_utf8("username:"@ + key@).len() as int) <= usize::MAX,
        ensures
            r is Ok <==> spec_endpoint(key@) is Some,
            r matches Ok(AuthMode::Basic(b)) ==> b.auth_header@ == basic_auth_header(key@)
                && Some(b.endpoint@) == spec_endpoint(key@),
            r matches Err(e) ==> (spec_data_center(key@) is None && e is MalformedAPIKey) || (
            spec_data_center(key@) is Some && e is MalformedUrl),
    {
        let mut user = "username:".to_owned();
        user.append(key);
        let encoded = encode_base64_standard(user.as_str().as_bytes());
        let mut header = "Basic ".to_owned();
        header.append(encoded.as_str());
        proof {
            reveal_strlit("Basic ");
            lemma_header_bytes_ok("Basic "@, encoded@);
        }
        if !header_value_ok(header.as_str()) {
            return Err(Error::MalformedAPIKey);
        }
        let dc = DataCenter::from_str(key)?;
        let mut url = "https://".to_owned();
        url.append(dc.0.as_str());
        url.append(".api.mailchimp.com");
        match parse_url(url.as_str()) {
            Ok(endpoint) => Ok(AuthMode::Basic(BasicAuth { auth_header: header, endpoint })),
            Err(e) => Err(Error::MalformedUrl(e)),
        }
    }

    /// The authorization header value of these credentials.
    pub open spec fn spec_header(&self) -> Seq<char> {
        match self {
            AuthMode::Basic(b) => b.auth_header@,
        }
    }

    /// The endpoint URL of these credentials.
    pub open spec fn spec_endpoint_url(&self) -> Seq<char> {
        match self {
            AuthMode::Basic(b) => b.endpoint@,
        }
    }

    /// Every mode carries a token.
    pub fn has_token(&self) -> (r: bool)
        ensures
            r,
    {
        match self {
            AuthMode::Basic(_) => true,
        }
    }

    /// The API endpoint URL.
    pub fn to_endpoint_url(&self) -> (r: String)
        ensures
            r@ == self.spec_endpoint_url(),
    {
        match self {
            AuthMode::Basic(auth) => auth.endpoint.clone(),
        }
    }

    /// The URL for a path of the API: the path, given a leading `/` when it
    /// lacks one, joined onto the endpoint.
    pub fn to_request_url(&self, path: &str) -> (r: Result<String, Error>)
        ensures
            match r {
                Ok(u) => url_join(self.spec_endpoint_url(), rooted_path(path@)) == Some(u@),
                Err(e) => url_join(self.spec_endpoint_url(), rooted_path(path@)) is None
                    && e is MalformedUrl,
            },
    {
        let mut uri = path.to_owned();
        proof {
            reveal_strlit("/");
        }
        if !text_starts_with(path, "/") {
            let mut rooted = "/".to_owned();
            rooted.append(path);
            uri = rooted;
        }
        let endpoint = self.to_endpoint_url();
        match join_url(endpoint.as_str(), uri.as_str()) {
            Ok(u) => Ok(u),
            Err(e) => Err(Error::MalformedUrl(e)),
        }
    }

    /// The authorization header value.
    pub fn to_authorization_header(&self) -> (r: String)
        ensures
            r@ == self.spec_header(),
    {
        match self {
            AuthMode::Basic(auth) => auth.auth_header.clone(),
        }
    }
}

} // verus!

verus! {

// ---------------------------------------------------------------- client

/// A client of the API: its credentials and its request timeout in seconds.
pub struct Client {
    pub auth: AuthMode,
    pub timeout: u64,
}

/// HTTP methods the client uses.
#[derive(Clone, Copy, Debug, PartialEq, Eq, Structural)]
pub enum Method {
    GET,
    POST,
    PATCH,
    PUT,
    DELETE,
}

/// A request to send: method, absolute URL and the two headers every
/// request carries.
pub struct Request {
    pub method: Method,
    pub url: String,
    pub authorization: String,
    pub content_type: String,
}

impl Client {
    /// A client with the default timeout.
    pub fn new(auth: AuthMode) -> (r: Client)
        ensures
            r.auth == auth,
            r.timeout == DEFAULT_TIMEOUT,
    {
        Client::new_with_timeout(auth, DEFAULT_TIMEOUT)
    }

    /// A client with the given timeout in seconds.
    pub fn new_with_timeout(auth: AuthMode, timeout: u64) -> (r: Client)
        ensures
            r.auth == auth,
            r.timeout == timeout,
    {
        Client { auth, timeout }
    }

    /// The request for `method` on `path`: the URL that `to_request_url`
    /// gives, the authorization header and a JSON content type.
    pub fn request(&self, method: Method, path: &str) -> (r: Result<Request, Error>)
        ensures
            match r {
                Ok(req) => {
                    &&& req.method == method
                    &&& url_join(self.auth.spec_endpoint_url(), rooted_path(path@)) == Some(req.url@)
                    &&& req.authorization@ == self.auth.spec_header()
                    &&& req.content_type@ == "application/json"@
                },
                Err(e) => url_join(self.auth.spec_endpoint_url(), rooted_path(path@)) is None
                    && e is MalformedUrl,
            },
    {
        let url = self.auth.to_request_url(path)?;
        Ok(Request {
            method,
            url,
            authorization: self.auth.to_authorization_header(),
            content_type: "application/json".to_owned(),
        })
    }
}

// ---------------------------------------------------------------- responses

/// What a response's status means for a fetch or a submission.
pub enum ResponseClass {
    /// A 4xx status: the body is an API error document.
    MailchimpError,
    /// A 5xx status: the request failed with that status.
    HttpError,
    /// Any other status: the body holds the result.
    Body,
}

/// A client error status (4xx).
pub open spec fn is_client_error(status: u16) -> bool {
    400 <= status <= 499
}

/// A server error status (5xx).
pub open spec fn is_server_error(status: u16) -> bool {
    500 <= status <= 599
}

/// Classifies the status of a response to a fetch or a submission: client
/// errors carry an API error document, server errors fail the request, and
/// every other status carries the result.
pub fn classify_response(status: u16) -> (r: ResponseClass)
    ensures
        is_client_error(status) ==> r is MailchimpError,
        is_server_error(status) ==> r is HttpError,
        !is_client_error(status) && !is_server_error(status) ==> r is Body,
{
    if 400 <= status && status <= 499 {
        ResponseClass::MailchimpError
    } else if 500 <= status && status <= 599 {
        ResponseClass::HttpError
    } else {
        ResponseClass::Body
    }
}

/// Whether a deletion succeeded: any status but a client or server error.
pub fn delete_succeeded(status: u16) -> (r: bool)
    ensures
        r == !(is_client_error(status) || is_server_error(status)),
{
    !(400 <= status && status <= 599)
}

/// The JSON text a submission's result is decoded from: the body, or
/// `null` when the body is empty.
pub fn submit_json_text(body: &[u8]) -> (r: Vec<u8>)
    ensures
        body@.len() == 0 ==> r@ == seq![110u8, 117u8, 108u8, 108u8],
        body@.len() > 0 ==> r@ == body@,
{
    if body.len() == 0 {
        vec![110u8, 117u8, 108u8, 108u8]
    } else {
        vstd::slice::slice_to_vec(body)
    }
}

} // verus!

verus! {

// ---------------------------------------------------------------- retries

/// How often a failed request is retried.
#[derive(Clone, Copy)]
pub enum RetryPolicy {
    NoRetry,
    Retries(usize),
}

impl Default for RetryPolicy {
    fn default() -> (r: RetryPolicy)
        ensures
            r is NoRetry,
    {
        RetryPolicy::NoRetry
    }
}

impl RetryPolicy {
    /// No retries.
    pub fn none() -> (r: RetryPolicy)
        ensures
            r is NoRetry,
    {
        RetryPolicy::NoRetry
    }

    /// At most `retries` retries.
    pub fn with_retries(retries: usize) -> (r: RetryPolicy)
        ensures
            r == RetryPolicy::Retries(retries),
    {
        RetryPolicy::Retries(retries)
    }

    /// How many delays (and so retries) the policy yields.
    pub open spec fn spec_attempts(self) -> nat {
        match self {
            RetryPolicy::NoRetry => 0,
            RetryPolicy::Retries(n) => n as nat,
        }
    }

    /// How many retries the policy allows.
    pub fn attempts(&self) -> (r: usize)
        ensures
            r == self.spec_attempts(),
    {
        match self {
            RetryPolicy::NoRetry => 0,
            RetryPolicy::Retries(n) => *n,
        }
    }
}

// ---------------------------------------------------------------- queries

/// A query of a paged collection: the fields to return, the page size and
/// the offset of the first item.
pub trait PagedQuery: Sized {
    spec fn spec_fields(&self) -> Seq<char>;

    spec fn spec_count(&self) -> u32;

    spec fn spec_offset(&self) -> u32;

    /// The fields a query returns by default.
    fn default_fields() -> Vec<&'static str>;

    fn fields(&self) -> (r: &str)
        ensures
            r@ == self.spec_fields(),
    ;

    fn set_fields(&mut self, fields: String)
        ensures
            final(self).spec_fields() == fields@,
            final(self).spec_count() == old(self).spec_count(),
            final(self).spec_offset() == old(self).spec_offset(),
    ;

    /// Adds `fields` after the current fields, separated by commas.
    fn append_fields(&mut self, fields: &[&str])
        ensures
            final(self).spec_fields() == old(self).spec_fields() + ","@ + seq_join(
                str_views(fields@),
                ","@,
            ),
            final(self).spec_count() == old(self).spec_count(),
            final(self).spec_offset() == old(self).spec_offset(),
    {
        let mut all = self.fields().to_owned();
        all.append(",");
        let joined = join_strs(fields, ",");
        all.append(joined.as_str());
        self.set_fields(all);
    }

    fn set_count(&mut self, count: u32)
        ensures
            final(self).spec_count() == count,
            final(self).spec_fields() == old(self).spec_fields(),
            final(self).spec_offset() == old(self).spec_offset(),
    ;

    fn offset(&self) -> (r: u32)
        ensures
            r == self.spec_offset(),
    ;

    fn set_offset(&mut self, offset: u32)
        ensures
            final(self).spec_offset() == offset,
            final(self).spec_fields() == old(self).spec_fields(),
            final(self).spec_count() == old(self).spec_count(),
    ;

    /// Moves the offset forward by `inc` items.
    fn inc_offset(&mut self, inc: u32)
        requires
            old(self).spec_offset() + inc <= u32::MAX,
        ensures
            final(self).spec_offset() == old(self).spec_offset() + inc,
            final(self).spec_fields() == old(self).spec_fields(),
            final(self).spec_count() == old(self).spec_count(),
    {
        let o = self.offset();
        self.set_offset(o + inc);
    }
}

// ---------------------------------------------------------------- responses

/// A page of a paged collection.
pub trait PagedResponse: Sized {
    type Item;

    spec fn spec_items(&self) -> Seq<Self::Item>;

    /// Takes the last item of the page.
    fn pop(&mut self) -> (r: Option<Self::Item>)
        ensures
            old(self).spec_items().len() > 0 ==> r == Some(old(self).spec_items().last())
                && final(self).spec_items() == old(self).spec_items().drop_last(),
            old(self).spec_items().len() == 0 ==> r is None && final(self).spec_items()
                == old(self).spec_items(),
    ;

    /// The number of items left on the page.
    fn len(&self) -> (r: usize)
        ensures
            r == self.spec_items().len(),
    ;

    /// Whether no item is left on the page.
    fn is_empty(&self) -> (r: bool)
        ensures
            r == (self.spec_items().len() == 0),
    {
        self.len() == 0
    }
}

// ---------------------------------------------------------------- paging

/// The items of `pages` in the order paging hands them out: each page in
/// turn, from its last item to its first.
pub open spec fn paged_items<T>(pages: Seq<Seq<T>>) -> Seq<T>
    decreases pages.len(),
{
    if pages.len() == 0 {
        Seq::empty()
    } else {
        paged_items(pages.drop_last()) + pages.last().reverse()
    }
}

/// The number of items in `pages`.
pub open spec fn pages_len<T>(pages: Seq<Seq<T>>) -> int
    decreases pages.len(),
{
    if pages.len() == 0 {
        0
    } else {
        pages_len(pages.drop_last()) + pages.last().len()
    }
}

/// What paging asks for next.
pub enum PagerStep<T> {
    /// Hand out this item.
    Emit(T),
    /// Fetch the page starting at this offset, then `receive` it.
    Fetch(u32),
    /// The collection is exhausted.
    Done,
}

/// The state of walking a paged collection: the rest of the current page,
/// the offset of the next page, and whether a fetch is outstanding, the
/// outstanding fetch is the first one, or the walk has ended. The ghost
/// fields record the pages received and the items handed out.
pub struct Pager<T> {
    pub buffer: Vec<T>,
    pub offset: u32,
    pub first: bool,
    pub awaiting: bool,
    pub done: bool,
    pub start: Ghost<u32>,
    pub pages: Ghost<Seq<Seq<T>>>,
    pub emitted: Ghost<Seq<T>>,
}

impl<T> Pager<T> {
    /// The invariant of a walk: the items handed out followed by the rest
    /// of the current page (in hand-out order) are the items of the pages
    /// received, and the offset has advanced by their number.
    pub open spec fn wf(&self) -> bool {
        &&& paged_items(self.pages@) == self.emitted@ + self.buffer@.reverse()
        &&& self.offset == self.start@ + pages_len(self.pages@)
        &&& self.awaiting ==> self.buffer@.len() == 0 && !self.done
        &&& self.done ==> self.buffer@.len() == 0
        &&& self.first ==> self.pages@.len() == 0
    }

    /// A walk starting at `offset`.
    pub fn new(offset: u32) -> (r: Pager<T>)
        ensures
            r.wf(),
            r.offset == offset,
            r.start@ == offset,
            r.first,
            !r.awaiting,
            !r.done,
            r.buffer@.len() == 0,
            r.pages@.len() == 0,
            r.emitted@.len() == 0,
    {
        let r = Pager {
            buffer: Vec::new(),
            offset,
            first: true,
            awaiting: false,
            done: false,
            start: Ghost(offset),
            pages: Ghost(Seq::empty()),
            emitted: Ghost(Seq::empty()),
        };
        assert(r.buffer@.reverse() =~= Seq::<T>::empty());
        assert(r.emitted@ + r.buffer@.reverse() =~= Seq::<T>::empty());
        r
    }

    /// The next step: the last item of the current page if one is left,
    /// otherwise a fetch at the current offset, or the end of the walk.
    pub fn next_step(&mut self) -> (r: PagerStep<T>)
        requires
            old(self).wf(),
            !old(self).awaiting,
        ensures
            final(self).wf(),
            final(self).start == old(self).start,
            final(self).pages == old(self).pages,
            final(self).first == old(self).first,
            old(self).done ==> r is Done && *final(self) == *old(self),
            !old(self).done && old(self).buffer@.len() > 0 ==> {
                &&& r == PagerStep::Emit(old(self).buffer@.last())
                &&& final(self).buffer@ == old(self).buffer@.drop_last()
                &&& final(self).emitted@ == old(self).emitted@.push(old(self).buffer@.last())
                &&& !final(self).awaiting && !final(self).done
                &&& final(self).offset == old(self).offset
            },
            !old(self).done && old(self).buffer@.len() == 0 ==> {
                &&& r == PagerStep::<T>::Fetch(old(self).offset)
                &&& final(self).awaiting && !final(self).done
                &&& final(self).buffer@.len() == 0
                &&& final(self).emitted == old(self).emitted
                &&& final(self).offset == old(self).offset
            },
    {
        if self.done {
            return PagerStep::Done;
        }
        let ghost old_buffer = self.buffer@;
        match self.buffer.pop() {
            Some(item) => {
                let ghost old_emitted = self.emitted@;
                proof {
                    assert(old_buffer =~= self.buffer@.push(item));
                    assert(old_buffer.drop_last() =~= self.buffer@);
                    assert(old_buffer.reverse() =~= seq![item] + self.buffer@.reverse());
                    assert(old_emitted + old_buffer.reverse() =~= old_emitted.push(item)
                        + self.buffer@.reverse());
                }
                self.emitted = Ghost(old_emitted.push(item));
                PagerStep::Emit(item)
            },
            None => {
                self.awaiting = true;
                PagerStep::Fetch(self.offset)
            },
        }
    }

    /// Takes in the page a `Fetch` asked for. An empty page after the first
    /// one ends the walk; otherwise the offset advances by the page's length
    /// and its items become the current page.
    pub fn receive(&mut self, page: Vec<T>)
        requires
            old(self).wf(),
            old(self).awaiting,
            old(self).offset + page@.len() <= u32::MAX,
        ensures
            final(self).wf(),
            final(self).start == old(self).start,
            final(self).pages@ == old(self).pages@.push(page@),
            final(self).emitted == old(self).emitted,
            !final(self).awaiting,
            !final(self).first,
            (page@.len() == 0 && !old(self).first) <==> final(self).done,
            final(self).offset == old(self).offset + page@.len(),
            final(self).buffer@ == page@,
    {
        let ghost old_pages = self.pages@;
        let n = page.len();
        proof {
            assert(old_pages.push(page@).drop_last() =~= old_pages);
            assert(self.buffer@.reverse() =~= Seq::<T>::empty());
            assert(self.emitted@ + Seq::<T>::empty() =~= self.emitted@);
        }
        if n == 0 && !self.first {
            self.done = true;
        }
        self.offset = self.offset + (n as u32);
        self.first = false;
        self.awaiting = false;
        self.buffer = page;
        self.pages = Ghost(old_pages.push(self.buffer@));
    }
}

/// A finished walk has handed out every item of every page it received,
/// each page from its last item to its first, and its offset has moved
/// past all of them.
pub proof fn lemma_walk_complete<T>(p: Pager<T>)
    requires
        p.wf(),
        p.done,
    ensures
        p.emitted@ == paged_items(p.pages@),
        p.offset == p.start@ + pages_len(p.pages@),
{
    assert(p.buffer@.reverse() =~= Seq::<T>::empty());
    assert(p.emitted@ + p.buffer@.reverse() =~= p.emitted@);
}

// ---------------------------------------------------------------- values

/// Whether `value` equals its type's default value.
pub fn is_default<T: PartialEq + Default>(value: &T) -> (r: bool)
    ensures
        exists|d: T|
            #[trigger] call_ensures(T::default, (), d) && (T::obeys_eq_spec() ==> r
                == value.eq_spec(&d)),
{
    let d = T::default();
    let r = *value == d;
    assert(call_ensures(T::default, (), d) && (T::obeys_eq_spec() ==> r == value.eq_spec(&d)));
    r
}

/// How whole numbers of other widths are read into an `i32`.
pub struct I32Visitor;

impl I32Visitor {
    pub fn visit_i8(&self, value: i8) -> (r: i32)
        ensures
            r == value,
    {
        value as i32
    }

    pub fn visit_i16(&self, value: i16) -> (r: i32)
        ensures
            r == value,
    {
        value as i32
    }

    pub fn visit_i32(&self, value: i32) -> (r: i32)
        ensures
            r == value,
    {
        value
    }

    /// The value when it lies within the range of `i32`, `None` otherwise.
    pub fn visit_i64(&self, value: i64) -> (r: Option<i32>)
        ensures
            i32::MIN <= value <= i32::MAX ==> r == Some(value as i32),
            !(i32::MIN <= value <= i32::MAX) ==> r is None,
    {
        if value >= i32::MIN as i64 && value <= i32::MAX as i64 {
            Some(value as i32)
        } else {
            None
        }
    }

    /// The value truncated to its low 32 bits, read as an `i32`.
    pub fn visit_u64(&self, value: u64) -> (r: i32)
        ensures
            r == value as i32,
    {
        #[verifier::truncate]
        (value as i32)
    }
}

/// A number read leniently into an `i32`: the value read, or 0 when the
/// input held none (null, or a number out of range).
pub fn lenient_i32(read: Option<i32>) -> (r: i32)
    ensures
        r == match read {
            Some(v) => v,
            None => 0i32,
        },
{
    match read {
        Some(v) => v,
        None => 0,
    }
}

} // verus!
