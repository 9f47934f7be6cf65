//! The settings of the command line: the Drupal database and the Mailchimp
//! account, with the defaults the commands fall back on.
use vstd::prelude::*;
use vstd::utf8::encode_utf8;
use crate::codec::base64_padded_len;
use crate::mailchimp::{
    Client, DEFAULT_TIMEOUT, Error, basic_auth_header, spec_data_center, spec_endpoint,
};
use crate::mailchimp::client::from_api_key;

verus! {

/// The settings of the command line.
pub struct Settings {
    pub database: DatabaseSettings,
    pub mail: MailSetting,
}

/// Where the Drupal database is.
pub struct DatabaseSettings {
    pub url: String,
}

/// The Mailchimp account, the merge field descriptor, and the list, club
/// and region the commands use when none is given.
pub struct MailSetting {
    pub api_key: String,
    pub fields: String,
    pub club: Option<u64>,
    pub region: Option<u64>,
    pub list: Option<String>,
}

/// No list was given and none is configured.
#[derive(Clone, Copy, Debug, PartialEq, Eq, Structural)]
pub enum SettingsError {
    NoListId,
}

impl MailSetting {
    /// A client for the account.
    pub fn client(&self) -> (r: Result<Client, Error>)
        requires
            base64_padded_len(encode_utf8("username:"@ + self.api_key@).len() as int) <= usize::MAX,
        ensures
            r is Ok <==> spec_endpoint(self.api_key@) is Some,
            r matches Ok(c) ==> c.timeout == DEFAULT_TIMEOUT && c.auth.spec_header() == basic_auth_header(
                self.api_key@,
            ) && Some(c.auth.spec_endpoint_url()) == spec_endpoint(self.api_key@),
            r matches Err(e) ==> (spec_data_center(self.api_key@) is None && e is MalformedAPIKey) || (
            spec_data_center(self.api_key@) is Some && e is MalformedUrl),
    {
        from_api_key(self.api_key.as_str())
    }

    /// The given list, else the configured one.
    pub fn list_override<'a>(&'a self, list: &'a Option<String>) -> (r: Result<&'a str, SettingsError>)
        ensures
            r is Ok <==> (list is Some || self.list is Some),
            r matches Ok(s) ==> s@ == (match list {
                Some(l) => l@,
                None => self.list->0@,
            }),
            r matches Err(e) ==> e == SettingsError::NoListId,
    {
        match list {
            Some(l) => Ok(l.as_str()),
            None => match &self.list {
                Some(l) => Ok(l.as_str()),
                None => Err(SettingsError::NoListId),
            },
        }
    }

    /// The given club, else the configured one.
    pub fn club_override(&self, uid: Option<u64>) -> (r: Option<u64>)
        ensures
            r == (match uid {
                Some(u) => Some(u),
                None => self.club,
            }),
    {
        match uid {
            Some(u) => Some(u),
            None => self.club,
        }
    }

    /// The given region, else the configured one.
    pub fn region_override(&self, uid: Option<u64>) -> (r: Option<u64>)
        ensures
            r == (match uid {
                Some(u) => Some(u),
                None => self.region,
            }),
    {
        match uid {
            Some(u) => Some(u),
            None => self.region,
        }
    }

    /// The given merge field descriptor, else the configured one; one is
    /// always configured.
    pub fn fields_override<'a>(&'a self, fields: &'a Option<String>) -> (r: Result<&'a str, SettingsError>)
        ensures
            r matches Ok(s) && s@ == (match fields {
                Some(f) => f@,
                None => self.fields@,
            }),
    {
        match fields {
            Some(f) => Ok(f.as_str()),
            None => Ok(self.fields.as_str()),
        }
    }
}

} // verus!
