//! The decision: which status to show, and whether to push it.

use vstd::prelude::*;

use crate::address::IpAddress;
use crate::cache::{hold_of, CacheView};
use crate::clock::{expiration_fits, expiration_of, MAX_HOURS};
use crate::config::{fallback_status, ConfigView, StatusConfig, StatusTemplate};
use crate::location::{lookup, matching, LocationView, Lookup};

verus! {

/// Why a resolution came out as it did.
#[derive(Clone, Copy, Debug, PartialEq, Eq, Structural)]
pub enum Reason {
    /// Nothing on record stood in the way.
    NoCacheConflict,
    /// A status set by hand has not lapsed yet, and no automatic update may
    /// replace it.
    ManualHoldActive,
}

/// What a resolution says, as mathematical values.
pub struct Resolution {
    pub status: StatusTemplate,
    pub computed_expiration: int,
    pub suppress_update: bool,
    pub reason: Reason,
}

/// The outcome of one resolution: the status to show, the Unix time at which
/// it lapses (`0` for never), and whether the update is to be held back.
#[derive(Debug, PartialEq, Eq)]
pub struct ResolvedStatus {
    pub status: StatusConfig,
    pub computed_expiration: i64,
    pub suppress_update: bool,
    pub reason: Reason,
}

impl View for ResolvedStatus {
    type V = Resolution;

    open spec fn view(&self) -> Resolution {
        Resolution {
            status: self.status@,
            computed_expiration: self.computed_expiration as int,
            suppress_update: self.suppress_update,
            reason: self.reason,
        }
    }
}

/// Whether a resolution at `now` is held back: no status was asked for by
/// hand, and the cache holds a manual status that still stands.
pub open spec fn held(cache: Option<CacheView>, manual: Option<StatusTemplate>, now: int) -> bool {
    manual is None && hold_of(cache).active_at(now)
}

/// The status that a resolution settles on. In order of precedence: the
/// status asked for by hand; the manual status on record, while it stands;
/// the status of the location that `ip` belongs to; the default.
pub open spec fn chosen_status(
    config: ConfigView,
    ip: IpAddress,
    cache: Option<CacheView>,
    manual: Option<StatusTemplate>,
    now: int,
) -> StatusTemplate {
    if manual is Some {
        manual->0
    } else if held(cache, manual, now) {
        StatusTemplate {
            text: cache->0.status.text,
            emoji: cache->0.status.emoji,
            expire_after_hours: None,
        }
    } else {
        config.status_for(ip)
    }
}

/// The resolution for `ip` at the time `now`, given the configuration, what
/// the cache holds, and the status asked for by hand, if any.
///
/// A held resolution shows the status on record, with the expiration on
/// record, and suppresses the update. Any other shows the chosen status,
/// which lapses the chosen number of hours after `now`.
pub open spec fn resolution(
    config: ConfigView,
    ip: IpAddress,
    cache: Option<CacheView>,
    manual: Option<StatusTemplate>,
    now: int,
) -> Resolution {
    let status = chosen_status(config, ip, cache, manual, now);
    if held(cache, manual, now) {
        Resolution {
            status,
            computed_expiration: cache->0.status.expiration as int,
            suppress_update: true,
            reason: Reason::ManualHoldActive,
        }
    } else {
        Resolution {
            status,
            computed_expiration: expiration_of(status.expire_after_hours, now),
            suppress_update: false,
            reason: Reason::NoCacheConflict,
        }
    }
}

/// Whether the resolution can be computed: it is held, or the expiration of
/// the chosen status can be.
pub open spec fn resolvable(
    config: ConfigView,
    ip: IpAddress,
    cache: Option<CacheView>,
    manual: Option<StatusTemplate>,
    now: int,
) -> bool {
    held(cache, manual, now) || expiration_fits(
        chosen_status(config, ip, cache, manual, now).expire_after_hours,
        now,
    )
}

/// Whether a lapse is between no hours and `bound` hours.
pub open spec fn lapses_within(hours: Option<i64>, bound: int) -> bool {
    hours matches Some(h) ==> 0 <= h <= bound
}

/// Whether every lapse that a configuration names is between no hours and
/// `bound` hours.
pub open spec fn config_lapses_within(config: ConfigView, bound: int) -> bool {
    &&& forall|i: int|
        0 <= i < config.locations.len() ==> lapses_within(
            (#[trigger] config.locations[i]).expire_after_hours,
            bound,
        )
    &&& config.defaults matches Some(status) ==> lapses_within(status.expire_after_hours, bound)
}

/// The resolution at `now` where it can be computed, and `None` where not.
pub open spec fn resolution_at(
    config: ConfigView,
    ip: IpAddress,
    cache: Option<CacheView>,
    manual: Option<StatusTemplate>,
    now: int,
) -> Option<Resolution> {
    if resolvable(config, ip, cache, manual, now) {
        Some(resolution(config, ip, cache, manual, now))
    } else {
        None
    }
}

/// A resolution can be computed whenever no lapse in play exceeds `bound`
/// hours and that many hours after `now` is still a time that an `i64`
/// holds. The lapses in play are those of the configuration, that of the
/// status asked for by hand, and the hour of the built-in fallback.
pub proof fn lemma_resolvable_within_bound(
    config: ConfigView,
    ip: IpAddress,
    cache: Option<CacheView>,
    manual: Option<StatusTemplate>,
    now: int,
    bound: int,
)
    requires
        1 <= bound <= MAX_HOURS,
        config_lapses_within(config, bound),
        manual matches Some(status) ==> lapses_within(status.expire_after_hours, bound),
        i64::MIN <= now,
        now + bound * 3600 <= i64::MAX,
    ensures
        resolvable(config, ip, cache, manual, now),
{
    if manual is None && !held(cache, manual, now) {
        let found = matching(config.locations, ip);
        if found.len() == 1 {
            config.locations.lemma_filter_contains_rev(
                |location: LocationView| location.ip == ip,
                found[0],
            );
        }
    }
}

/// A status set by hand that lapses an hour after `now` holds back every
/// automatic resolution at `now`, whatever the address.
pub proof fn lemma_manual_hold_suppresses(
    config: ConfigView,
    ip: IpAddress,
    entry: CacheView,
    now: int,
)
    requires
        entry.manually_set,
        entry.status.expiration == now + 3600,
    ensures
        resolution(config, ip, Some(entry), None, now).suppress_update,
{
}

/// While a manual status on record stands, an automatic resolution is held
/// back whatever the address: it suppresses the update and shows the status
/// on record, with the expiration on record.
pub proof fn lemma_standing_hold_suppresses(
    config: ConfigView,
    ip: IpAddress,
    entry: CacheView,
    now: int,
)
    requires
        entry.hold().active_at(now),
    ensures
        resolution(config, ip, Some(entry), None, now) == (Resolution {
            status: StatusTemplate {
                text: entry.status.text,
                emoji: entry.status.emoji,
                expire_after_hours: None,
            },
            computed_expiration: entry.status.expiration as int,
            suppress_update: true,
            reason: Reason::ManualHoldActive,
        }),
{
}

/// A status set by hand that lapsed ten seconds before `now` holds nothing
/// back: the automatic resolution at `now` goes by the address and
/// suppresses nothing. The one exception is the time at which those ten
/// seconds lead to the expiration `0`, which says that a status never
/// lapses.
pub proof fn lemma_lapsed_hold_releases(
    config: ConfigView,
    ip: IpAddress,
    entry: CacheView,
    now: int,
)
    requires
        entry.manually_set,
        entry.status.expiration == now - 10,
        entry.status.expiration != 0,
    ensures
        !resolution(config, ip, Some(entry), None, now).suppress_update,
        resolution(config, ip, Some(entry), None, now).status == config.status_for(ip),
{
}

/// An entry whose hold does not stand, because it was set automatically or
/// because it has lapsed, weighs on an automatic resolution as no entry
/// does.
pub proof fn lemma_without_hold_cache_is_ignored(
    config: ConfigView,
    ip: IpAddress,
    entry: CacheView,
    now: int,
)
    requires
        !entry.hold().active_at(now),
    ensures
        resolution(config, ip, Some(entry), None, now) == resolution(config, ip, None, None, now),
        resolution(config, ip, None, None, now) == (Resolution {
            status: config.status_for(ip),
            computed_expiration: expiration_of(config.status_for(ip).expire_after_hours, now),
            suppress_update: false,
            reason: Reason::NoCacheConflict,
        }),
{
}

/// A status asked for by hand is resolved as it is, whatever the address,
/// the configuration and the cache: it is never suppressed, and it lapses
/// its own number of hours after `now`.
pub proof fn lemma_override_wins(
    config: ConfigView,
    ip: IpAddress,
    cache: Option<CacheView>,
    status: StatusTemplate,
    now: int,
)
    ensures
        resolution(config, ip, cache, Some(status), now) == (Resolution {
            status,
            computed_expiration: expiration_of(status.expire_after_hours, now),
            suppress_update: false,
            reason: Reason::NoCacheConflict,
        }),
{
}

/// The built-in fallback is resolved only where neither a location has the
/// address nor the user configured a default: with an address that exactly
/// one location has, that location's status is resolved, and with
/// configured defaults and no such location, the defaults are.
pub proof fn lemma_fallback_is_last_resort(config: ConfigView, ip: IpAddress)
    ensures
        lookup(config.locations, ip) matches Lookup::Unique(status) ==> config.status_for(ip)
            == status,
        !(lookup(config.locations, ip) is Unique) && config.defaults is Some ==> config.status_for(
            ip,
        ) == config.defaults->0,
        !(lookup(config.locations, ip) is Unique) && config.defaults is None ==> config.status_for(
            ip,
        ) == fallback_status(),
{
}

} // verus!
