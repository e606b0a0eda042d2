//! The client's decisions, from the configuration to the update.

use vstd::prelude::*;
use vstd::string::*;

use crate::address::IpAddress;
use crate::cache::{profile_status, Cache, StatusCache, StatusRecord};
use crate::clock::{current_timestamp, expiration, expiration_is_computable};
use crate::config::{view_of, Config, StatusConfig};
use crate::error::StatusError;
use crate::gateway::{first_step, Update};
use crate::json::{integer, json_integer_of, json_member_of, json_parsed, member, parse, render};
use crate::location::{find, lookup};
use crate::resolver::{resolution, resolution_at, resolvable, Reason, ResolvedStatus};

verus! {

/// What came back from the request for the public IP address.
#[derive(Clone, Copy, Debug, PartialEq, Eq, Structural)]
pub enum IpReply {
    /// The request could not be made.
    Failed,
    /// The request was answered with this HTTP status and, if the body is
    /// an address and nothing else, this address.
    Answered(u16, Option<IpAddress>),
}

/// Where the public IP address is asked for when the configuration names no
/// other place.
pub open spec fn default_ip_request_address() -> Seq<char> {
    "https://ip.clara.net"@
}

/// The public IP address that a reply holds: the address in the body of an
/// answer whose HTTP status is a success, one from 200 to 299.
pub open spec fn public_ip_of(reply: IpReply) -> Result<IpAddress, StatusError> {
    match reply {
        IpReply::Failed => Err(StatusError::IpRequestFailed),
        IpReply::Answered(status, address) => if 200 <= status < 300 {
            match address {
                Some(ip) => Ok(ip),
                None => Err(StatusError::IpUnparsable),
            }
        } else {
            Err(StatusError::IpRequestStatus(status))
        },
    }
}

/// The status that a remote profile's answer reports: that of the members
/// `status_text`, `status_emoji` and `status_expiration` of the member
/// `profile` of the document that `body` spells.
pub open spec fn reported_status(body: Seq<char>) -> Result<StatusRecord, StatusError> {
    match json_parsed(body) {
        Some(answer) => {
            let profile = json_member_of(answer, "profile"@);
            profile_status(
                json_member_of(profile, "status_text"@),
                json_member_of(profile, "status_emoji"@),
                json_integer_of(json_member_of(profile, "status_expiration"@)),
            )
        },
        None => Err(StatusError::ReplyUnreadable),
    }
}

/// The client: the decisions that lead from the configuration and the
/// current address to the status pushed.
#[derive(Debug)]
pub struct SlackStatus<'a> {
    pub config: &'a Config,
}

impl<'a> SlackStatus<'a> {
    /// A client for `config`, which must hold a token.
    pub fn from(config: &'a Config) -> (client: Result<SlackStatus<'a>, StatusError>)
        ensures
            config.token@.len() == 0 ==> client == Err::<SlackStatus<'a>, StatusError>(
                StatusError::MissingToken,
            ),
            config.token@.len() > 0 ==> client == Ok::<SlackStatus<'a>, StatusError>(
                SlackStatus { config },
            ),
    {
        if config.token.as_str().is_empty() {
            Err(StatusError::MissingToken)
        } else {
            Ok(SlackStatus { config })
        }
    }

    /// The status of the one location that has the address `ip`; none where
    /// no location has it, and none where several do.
    pub fn status_from_location(&self, ip: &IpAddress) -> (status: Option<StatusConfig>)
        ensures
            view_of(status) == lookup(self.config@.locations, *ip).status(),
    {
        find(&self.config.locations, ip).into_status()
    }

    /// The status for `ip`: that of its location, or the default.
    pub fn status_from(&self, ip: &IpAddress) -> (status: StatusConfig)
        ensures
            status@ == self.config@.status_for(*ip),
    {
        match self.status_from_location(ip) {
            Some(status) => status,
            None => self.config.resolve_default(),
        }
    }

    /// Resolves the status for `ip` at the time `now`.
    ///
    /// A status asked for by hand is taken as it is. Otherwise a manual
    /// status on record that still stands is shown and the update held
    /// back; failing that, the address decides.
    pub fn resolve(
        &self,
        ip: &IpAddress,
        cache: &Option<Cache>,
        manual_override: Option<StatusConfig>,
        now: i64,
    ) -> (resolved: ResolvedStatus)
        requires
            resolvable(self.config@, *ip, view_of(*cache), view_of(manual_override), now as int),
        ensures
            resolved@ == resolution(
                self.config@,
                *ip,
                view_of(*cache),
                view_of(manual_override),
                now as int,
            ),
    {
        match manual_override {
            Some(status) => {
                let expires_at = expiration(status.expire_after_hours, now);
                ResolvedStatus {
                    status,
                    computed_expiration: expires_at,
                    suppress_update: false,
                    reason: Reason::NoCacheConflict,
                }
            },
            None => {
                match cache {
                    Some(entry) if entry.hold().is_active(now) => ResolvedStatus {
                        status: StatusConfig {
                            text: entry.status.text.clone(),
                            emoji: entry.status.emoji.clone(),
                            expire_after_hours: None,
                        },
                        computed_expiration: entry.status.expiration,
                        suppress_update: true,
                        reason: Reason::ManualHoldActive,
                    },
                    _ => {
                        let status = self.status_from(ip);
                        let expires_at = expiration(status.expire_after_hours, now);
                        ResolvedStatus {
                            status,
                            computed_expiration: expires_at,
                            suppress_update: false,
                            reason: Reason::NoCacheConflict,
                        }
                    },
                }
            },
        }
    }

    /// Whether the status for `ip` can be resolved at the time `now`.
    pub fn can_resolve(
        &self,
        ip: &IpAddress,
        cache: &Option<Cache>,
        manual_override: &Option<StatusConfig>,
        now: i64,
    ) -> (able: bool)
        ensures
            able == resolvable(
                self.config@,
                *ip,
                view_of(*cache),
                view_of(*manual_override),
                now as int,
            ),
    {
        match manual_override {
            Some(status) => expiration_is_computable(status.expire_after_hours, now),
            None => {
                match cache {
                    Some(entry) if entry.hold().is_active(now) => true,
                    _ => expiration_is_computable(self.status_from(ip).expire_after_hours, now),
                }
            },
        }
    }

    /// Resolves the status for `ip` at the time that the clock shows, or
    /// yields `None` where no expiration can be computed from that time.
    pub fn resolve_now(
        &self,
        ip: &IpAddress,
        cache: &Option<Cache>,
        manual_override: Option<StatusConfig>,
    ) -> (resolved: Option<ResolvedStatus>)
        ensures
            exists|now: i64|
                view_of(resolved) == resolution_at(
                    self.config@,
                    *ip,
                    view_of(*cache),
                    view_of(manual_override),
                    now as int,
                ),
    {
        let now = current_timestamp();
        let ghost manual = view_of(manual_override);
        let resolved = if self.can_resolve(ip, cache, &manual_override, now) {
            Some(self.resolve(ip, cache, manual_override, now))
        } else {
            None
        };
        assert(view_of(resolved) == resolution_at(
            self.config@,
            *ip,
            view_of(*cache),
            manual,
            now as int,
        ));
        resolved
    }

    /// How the update that pushes `resolved` begins. `manually_set` says
    /// whether the status was asked for by hand; it goes on record with the
    /// status once the remote profile has taken it.
    pub fn set_slack_status(&self, resolved: &ResolvedStatus, manually_set: bool) -> (update:
        Update)
        ensures
            update@ == first_step(resolved@, manually_set),
    {
        if resolved.suppress_update {
            Update::Done(Ok(()))
        } else {
            Update::Send(
                Cache {
                    status: StatusCache {
                        text: resolved.status.text.clone(),
                        emoji: resolved.status.emoji.clone(),
                        expiration: resolved.computed_expiration,
                    },
                    manually_set,
                },
            )
        }
    }

    /// The status that the remote profile reports in `body`, the text of
    /// its answer.
    pub fn get_slack_status(&self, body: &str) -> (status: Result<Option<StatusCache>, StatusError>)
        ensures
            match status {
                Ok(Some(found)) => reported_status(body@) == Ok::<
                    StatusRecord,
                    StatusError,
                >(found@),
                Ok(None) => false,
                Err(error) => reported_status(body@) == Err::<
                    StatusRecord,
                    StatusError,
                >(error),
            },
    {
        match parse(body) {
            Ok(answer) => {
                let profile = member(&answer, "profile");
                let text = render(member(profile, "status_text"));
                let emoji = render(member(profile, "status_emoji"));
                let expiration = integer(member(profile, "status_expiration"));
                match StatusCache::from_profile(text.as_str(), emoji.as_str(), expiration) {
                    Ok(found) => Ok(Some(found)),
                    Err(error) => Err(error),
                }
            },
            Err(_) => Err(StatusError::ReplyUnreadable),
        }
    }

    /// Where to ask for the public IP address: at the place that the
    /// configuration names, or else at the built-in one.
    pub fn ip_request_address(&self) -> (url: String)
        ensures
            url@ == match self.config@.ip_request_address {
                Some(address) => address,
                None => default_ip_request_address(),
            },
    {
        match &self.config.ip_request_address {
            Some(address) => address.clone(),
            None => String::from_str("https://ip.clara.net"),
        }
    }

    /// The public IP address that `reply` holds.
    pub fn get_public_ip(&self, reply: IpReply) -> (ip: Result<IpAddress, StatusError>)
        ensures
            ip == public_ip_of(reply),
    {
        match reply {
            IpReply::Failed => Err(StatusError::IpRequestFailed),
            IpReply::Answered(status, address) => {
                if 200 <= status && status < 300 {
                    match address {
                        Some(found) => Ok(found),
                        None => Err(StatusError::IpUnparsable),
                    }
                } else {
                    Err(StatusError::IpRequestStatus(status))
                }
            },
        }
    }
}

} // verus!
