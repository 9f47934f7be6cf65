//! Constructing a client from an API key.
use vstd::prelude::*;
use vstd::utf8::encode_utf8;
use crate::codec::base64_padded_len;
use crate::mailchimp::{
    AuthMode, Client, DEFAULT_TIMEOUT, Error, basic_auth_header, spec_data_center, spec_endpoint,
};

verus! {

/// A client authenticating with the given API key, with the default timeout.
pub fn from_api_key(key: &str) -> (r: Result<Client, Error>)
    requires
        base64_padded_len(encode_utf8("username:"@ + key@).len() as int) <= usize::MAX,
    ensures
        r is Ok <==> spec_endpoint(key@) is Some,
        r matches Ok(c) ==> c.timeout == DEFAULT_TIMEOUT && c.auth.spec_header() == basic_auth_header(key@)
            && Some(c.auth.spec_endpoint_url()) == spec_endpoint(key@),
        r matches Err(e) ==> (spec_data_center(key@) is None && e is MalformedAPIKey) || (
        spec_data_center(key@) is Some && e is MalformedUrl),
{
    let auth = AuthMode::new_basic_auth(key)?;
    Ok(Client::new(auth))
}

} // verus!
