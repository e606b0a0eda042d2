//! The record of the last status pushed, and the hold that a manual status
//! places on automatic updates.

use vstd::prelude::*;

use crate::error::StatusError;
use crate::text::{trim_char, trimmed};

verus! {

/// What a pushed status says, as mathematical values.
pub struct StatusRecord {
    pub text: Seq<char>,
    pub emoji: Seq<char>,
    pub expiration: i64,
}

/// A status as the remote profile holds it: text, emoji and the Unix time,
/// in whole seconds, at which it lapses. An expiration of `0` means that the
/// status never lapses.
#[derive(Debug, PartialEq, Eq)]
pub struct StatusCache {
    pub text: String,
    pub emoji: String,
    pub expiration: i64,
}

impl View for StatusCache {
    type V = StatusRecord;

    open spec fn view(&self) -> StatusRecord {
        StatusRecord { text: self.text@, emoji: self.emoji@, expiration: self.expiration }
    }
}

impl Clone for StatusCache {
    fn clone(&self) -> (copy: StatusCache)
        ensures
            copy == *self,
    {
        StatusCache {
            text: self.text.clone(),
            emoji: self.emoji.clone(),
            expiration: self.expiration,
        }
    }
}

/// The status that the fields of a remote profile spell. The text and the
/// emoji arrive as JSON text and lose the quotes at either end; without an
/// expiration there is no status to report.
pub open spec fn profile_status(
    text: Seq<char>,
    emoji: Seq<char>,
    expiration: Option<i64>,
) -> Result<StatusRecord, StatusError> {
    match expiration {
        Some(expires_at) => Ok(
            StatusRecord {
                text: trimmed(text, '"'),
                emoji: trimmed(emoji, '"'),
                expiration: expires_at,
            },
        ),
        None => Err(StatusError::ReplyWithoutExpiration),
    }
}

impl StatusCache {
    /// The status that the fields of a remote profile spell.
    pub fn from_profile(text: &str, emoji: &str, expiration: Option<i64>) -> (status: Result<
        StatusCache,
        StatusError,
    >)
        ensures
            match status {
                Ok(found) => profile_status(text@, emoji@, expiration) == Ok::<
                    StatusRecord,
                    StatusError,
                >(found@),
                Err(error) => profile_status(text@, emoji@, expiration) == Err::<
                    StatusRecord,
                    StatusError,
                >(error),
            },
    {
        match expiration {
            Some(expires_at) => Ok(
                StatusCache {
                    text: trim_char(text, '"'),
                    emoji: trim_char(emoji, '"'),
                    expiration: expires_at,
                },
            ),
            None => Err(StatusError::ReplyWithoutExpiration),
        }
    }
}

/// Whether automatic updates may replace the status on record.
#[derive(Clone, Copy, Debug, PartialEq, Eq, Structural)]
pub enum Hold {
    /// The status on record was set automatically: nothing protects it.
    Automatic,
    /// The status on record was set by hand and lapses at the given Unix
    /// time; `0` stands for a status that never lapses.
    ManualHold(i64),
}

impl Hold {
    /// Whether the hold still stands at the time `now`. A manual status
    /// stands until it lapses, and for good if it never lapses: the `0` of
    /// "never" is no time in the past.
    pub open spec fn active_at(self, now: int) -> bool {
        match self {
            Hold::Automatic => false,
            Hold::ManualHold(expires_at) => expires_at == 0 || expires_at > now,
        }
    }

    /// Whether the hold still stands at the time `now`.
    pub fn is_active(&self, now: i64) -> (active: bool)
        ensures
            active == self.active_at(now as int),
    {
        match *self {
            Hold::Automatic => false,
            Hold::ManualHold(expires_at) => expires_at == 0 || expires_at > now,
        }
    }
}

/// What a cache entry says, as mathematical values.
pub struct CacheView {
    pub status: StatusRecord,
    pub manually_set: bool,
}

impl CacheView {
    /// The hold that this entry places on automatic updates.
    pub open spec fn hold(self) -> Hold {
        if self.manually_set {
            Hold::ManualHold(self.status.expiration)
        } else {
            Hold::Automatic
        }
    }
}

/// The last status pushed, and whether the user chose it by hand.
#[derive(Debug, PartialEq, Eq)]
pub struct Cache {
    pub status: StatusCache,
    pub manually_set: bool,
}

impl View for Cache {
    type V = CacheView;

    open spec fn view(&self) -> CacheView {
        CacheView { status: self.status@, manually_set: self.manually_set }
    }
}

impl Clone for Cache {
    fn clone(&self) -> (copy: Cache)
        ensures
            copy == *self,
    {
        Cache { status: self.status.clone(), manually_set: self.manually_set }
    }
}

impl Cache {
    /// The hold that this entry places on automatic updates.
    pub fn hold(&self) -> (hold: Hold)
        ensures
            hold == self@.hold(),
    {
        if self.manually_set {
            Hold::ManualHold(self.status.expiration)
        } else {
            Hold::Automatic
        }
    }
}

/// What an attempt to read the cache leaves to resolve against, and the
/// failure to report: a cache that could not be read counts as no cache,
/// and the failure is handed on so that it can be reported as a warning.
pub fn entry_or_none(read: Result<Option<Cache>, StatusError>) -> (usable: (
    Option<Cache>,
    Option<StatusError>,
))
    ensures
        read matches Ok(entry) ==> usable == (entry, None::<StatusError>),
        read matches Err(failure) ==> usable == (None::<Cache>, Some(failure)),
{
    match read {
        Ok(entry) => (entry, None),
        Err(failure) => (None, Some(failure)),
    }
}

/// The hold in force given what the cache holds, if anything.
pub open spec fn hold_of(cache: Option<CacheView>) -> Hold {
    match cache {
        Some(entry) => entry.hold(),
        None => Hold::Automatic,
    }
}

} // verus!
