//! The choices of the audience list commands.
use vstd::prelude::*;
use crate::cli::settings::MailSetting;

verus! {

/// Arguments of the sync of members to an audience: the list, the merge
/// field descriptor, and a single member's email, a club or a region.
pub struct Sync {
    pub list: Option<String>,
    pub merge_fields: Option<String>,
    pub member: Option<String>,
    pub club: Option<u64>,
    pub region: Option<u64>,
}

/// Which members a sync reads.
pub enum SyncScope {
    /// The member with this email.
    Member(String),
    /// The members of the club with this node id.
    Club(u64),
    /// The members of the clubs of the region with this node id.
    Region(u64),
    /// All members.
    All,
}

impl Sync {
    /// The members to sync: the given member, else the club given or
    /// configured, else the region given or configured, else all.
    pub fn scope(&self, mail: &MailSetting) -> (r: SyncScope)
        ensures
            match self.member {
                Some(email) => r matches SyncScope::Member(e) && e@ == email@,
                None => match (if self.club is Some { self.club } else { mail.club }) {
                    Some(c) => r == SyncScope::Club(c),
                    None => match (if self.region is Some { self.region } else { mail.region }) {
                        Some(g) => r == SyncScope::Region(g),
                        None => r == SyncScope::All,
                    },
                },
            },
    {
        match &self.member {
            Some(email) => SyncScope::Member(email.clone()),
            None => match mail.club_override(self.club) {
                Some(c) => SyncScope::Club(c),
                None => match mail.region_override(self.region) {
                    Some(g) => SyncScope::Region(g),
                    None => SyncScope::All,
                },
            },
        }
    }

    /// Whether members missing from the source are deleted from the
    /// audience: only when not syncing a single member.
    pub fn retains(&self) -> (r: bool)
        ensures
            r == (self.member is None),
    {
        self.member.is_none()
    }
}

/// How many times a sync retries a failed batch.
pub const SYNC_RETRIES: usize = 3;

} // verus!
