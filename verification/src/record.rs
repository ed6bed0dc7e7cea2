//! Profiles as they are kept between runs.
//!
//! Older versions of the launcher stored the directory of a profile beside
//! its name. The directory follows from the name, so a stored one is read and
//! dropped, and none is written.

use vstd::prelude::*;

use crate::profiles::{Channel, Profile, ProfileView, Server};

verus! {

/// A profile in its stored form.
#[derive(Debug, Clone, PartialEq, Eq)]
pub struct ProfileRecord {
    pub name: String,
    pub server: Server,
    pub channel: Channel,
    /// The directory that an older launcher stored. It decides nothing.
    pub directory: Option<String>,
    pub version: Option<String>,
}

/// What a [`ProfileRecord`] holds, as mathematical values.
pub struct ProfileRecordView {
    pub name: Seq<char>,
    pub server: Server,
    pub channel: Channel,
    pub directory: Option<Seq<char>>,
    pub version: Option<Seq<char>>,
}

impl View for ProfileRecord {
    type V = ProfileRecordView;

    open spec fn view(&self) -> ProfileRecordView {
        ProfileRecordView {
            name: self.name@,
            server: self.server,
            channel: self.channel,
            directory: match self.directory {
                Some(d) => Some(d@),
                None => None,
            },
            version: match self.version {
                Some(v) => Some(v@),
                None => None,
            },
        }
    }
}

impl ProfileRecordView {
    /// The profile that the record stands for.
    pub open spec fn profile(self) -> ProfileView {
        ProfileView {
            name: self.name,
            server: self.server,
            channel: self.channel,
            version: self.version,
        }
    }

    /// The record that a profile is stored as.
    pub open spec fn of(profile: ProfileView) -> ProfileRecordView {
        ProfileRecordView {
            name: profile.name,
            server: profile.server,
            channel: profile.channel,
            directory: None,
            version: profile.version,
        }
    }
}

impl ProfileRecord {
    /// The record that `profile` is stored as.
    pub fn from_profile(profile: Profile) -> (record: ProfileRecord)
        ensures
            record@ == ProfileRecordView::of(profile@),
    {
        ProfileRecord {
            name: profile.name,
            server: profile.server,
            channel: profile.channel,
            directory: None,
            version: profile.version,
        }
    }

    /// The profile that this record stands for. A stored directory is dropped.
    pub fn into_profile(self) -> (profile: Profile)
        ensures
            profile@ == self@.profile(),
    {
        Profile {
            name: self.name,
            server: self.server,
            channel: self.channel,
            version: self.version,
        }
    }
}

/// Storing a profile and reading it back gives the profile: its name,
/// server, channel and version are kept.
pub proof fn lemma_record_round_trip(profile: ProfileView)
    ensures
        ProfileRecordView::of(profile).profile() == profile,
{
}

/// Whatever directory a record holds, it stands for the same profile, with
/// the name, server, channel and version that the record holds.
pub proof fn lemma_stored_directory_is_ignored(
    record: ProfileRecordView,
    directory: Option<Seq<char>>,
)
    ensures
        (ProfileRecordView { directory, ..record }).profile() == record.profile(),
        record.profile().name == record.name,
        record.profile().server == record.server,
        record.profile().channel == record.channel,
        record.profile().version == record.version,
{
}

} // verus!
