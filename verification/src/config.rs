//! Status templates and the user's configuration.

use vstd::prelude::*;
use vstd::string::*;

use crate::address::IpAddress;
use crate::location::{
    distinct_addresses, is_selected, lemma_filter_keeps_distinct,
    lemma_with_location_keeps_distinct, lookup, table_view, with_location, without_address,
    without_selected, Location, LocationView, Lookup,
};

verus! {

/// An optional value, seen through the view of what it holds.
pub open spec fn view_of<T: View>(value: Option<T>) -> Option<T::V> {
    match value {
        Some(held) => Some(held@),
        None => None,
    }
}

/// What a status template says, as mathematical values.
pub struct StatusTemplate {
    pub text: Seq<char>,
    pub emoji: Seq<char>,
    pub expire_after_hours: Option<i64>,
}

/// A status one intends to show: its text, its emoji, and after how many
/// hours it lapses once applied. `None` hours means that it never lapses.
#[derive(Debug, PartialEq, Eq)]
pub struct StatusConfig {
    pub text: String,
    pub emoji: String,
    pub expire_after_hours: Option<i64>,
}

impl View for StatusConfig {
    type V = StatusTemplate;

    open spec fn view(&self) -> StatusTemplate {
        StatusTemplate {
            text: self.text@,
            emoji: self.emoji@,
            expire_after_hours: self.expire_after_hours,
        }
    }
}

impl Clone for StatusConfig {
    fn clone(&self) -> (copy: StatusConfig)
        ensures
            copy == *self,
    {
        StatusConfig {
            text: self.text.clone(),
            emoji: self.emoji.clone(),
            expire_after_hours: self.expire_after_hours,
        }
    }
}

/// The status shown when no location matches and the user configured no
/// default of their own: commuting, for one hour.
pub open spec fn fallback_status() -> StatusTemplate {
    StatusTemplate {
        text: "commuting"@,
        emoji: ":mountain_railway:"@,
        expire_after_hours: Some(1i64),
    }
}

/// The hours after which a status lapses, for each of the three choices
/// offered when one is entered by hand: an hour, a day, never.
pub open spec fn lapse_choice(choice: usize) -> Option<i64> {
    if choice == 0 {
        Some(1i64)
    } else if choice == 1 {
        Some(24i64)
    } else {
        None
    }
}

impl StatusTemplate {
    /// The status on one line: the emoji, a space, the text.
    pub open spec fn line(self) -> Seq<char> {
        self.emoji + seq![' '] + self.text
    }
}

impl StatusConfig {
    /// The status on one line: the emoji, a space, the text.
    pub fn describe(&self) -> (line: String)
        ensures
            line@ == self@.line(),
    {
        proof {
            reveal_strlit(" ");
        }
        let mut line = self.emoji.clone();
        line.append(" ");
        line.append(self.text.as_str());
        line
    }

    /// A status entered by hand: its text, its emoji, and which of the
    /// three lapses was chosen.
    pub fn entered(text: String, emoji: String, choice: usize) -> (status: StatusConfig)
        ensures
            status@ == (StatusTemplate {
                text: text@,
                emoji: emoji@,
                expire_after_hours: lapse_choice(choice),
            }),
    {
        let expire_after_hours = if choice == 0 {
            Some(1)
        } else if choice == 1 {
            Some(24)
        } else {
            None
        };
        StatusConfig { text, emoji, expire_after_hours }
    }

    /// The built-in fallback status.
    pub fn fallback() -> (status: StatusConfig)
        ensures
            status@ == fallback_status(),
    {
        StatusConfig {
            text: String::from_str("commuting"),
            emoji: String::from_str(":mountain_railway:"),
            expire_after_hours: Some(1),
        }
    }
}

/// What a configuration says, as mathematical values.
#[verifier::ext_equal]
pub struct ConfigView {
    pub token: Seq<char>,
    pub ip_request_address: Option<Seq<char>>,
    pub locations: Seq<LocationView>,
    pub defaults: Option<StatusTemplate>,
}

impl ConfigView {
    /// No two locations share an address, so that every address that the
    /// table knows has exactly one status.
    pub open spec fn well_formed(self) -> bool {
        distinct_addresses(self.locations)
    }

    /// The status for an address that no location claims: the default that
    /// the user configured, or else the built-in fallback.
    pub open spec fn default_status(self) -> StatusTemplate {
        match self.defaults {
            Some(status) => status,
            None => fallback_status(),
        }
    }

    /// The status for `ip`: that of the one location that has it, or the
    /// default where none has it or the table is in conflict over it.
    pub open spec fn status_for(self, ip: IpAddress) -> StatusTemplate {
        match lookup(self.locations, ip) {
            Lookup::Unique(status) => status,
            _ => self.default_status(),
        }
    }
}

/// The user's configuration.
///
/// * `token`: the credential for the remote profile.
/// * `ip_request_address`: where to ask for the public IP address, if not at
///   the built-in place.
/// * `locations`: the known locations, each with its status.
/// * `defaults`: the status for an address that no location claims.
#[derive(Debug, PartialEq, Eq)]
pub struct Config {
    pub token: String,
    pub ip_request_address: Option<String>,
    pub locations: Vec<Location>,
    pub defaults: Option<StatusConfig>,
}

impl View for Config {
    type V = ConfigView;

    open spec fn view(&self) -> ConfigView {
        ConfigView {
            token: self.token@,
            ip_request_address: view_of(self.ip_request_address),
            locations: table_view(self.locations@),
            defaults: view_of(self.defaults),
        }
    }
}

impl Clone for Config {
    fn clone(&self) -> (copy: Config)
        ensures
            copy@ == self@,
    {
        let mut locations: Vec<Location> = Vec::new();
        let mut i: usize = 0;
        while i < self.locations.len()
            invariant
                i <= self.locations.len(),
                locations@ == self.locations@.take(i as int),
            decreases self.locations.len() - i,
        {
            locations.push(self.locations[i].clone());
            i = i + 1;
        }
        Config {
            token: self.token.clone(),
            ip_request_address: match &self.ip_request_address {
                Some(address) => Some(address.clone()),
                None => None,
            },
            locations,
            defaults: match &self.defaults {
                Some(status) => Some(status.clone()),
                None => None,
            },
        }
    }
}

impl Config {
    /// A minimal configuration: the token and nothing else.
    pub fn with(token: String) -> (config: Config)
        ensures
            config@ == (ConfigView {
                token: token@,
                ip_request_address: None,
                locations: Seq::empty(),
                defaults: None,
            }),
            config@.well_formed(),
    {
        Config { token, ip_request_address: None, locations: Vec::new(), defaults: None }
    }

    /// The status for an address that no location claims. Without
    /// configured defaults this is the built-in fallback.
    pub fn resolve_default(&self) -> (status: StatusConfig)
        ensures
            status@ == self@.default_status(),
            self.defaults is None ==> status@ == fallback_status(),
    {
        match &self.defaults {
            Some(status) => status.clone(),
            None => StatusConfig::fallback(),
        }
    }

    /// Puts `location` into the table, in place of whatever the table held
    /// for its address: the entries for that address leave, and `location`
    /// joins at the end.
    pub fn set_location(&mut self, location: Location)
        ensures
            final(self)@ == (ConfigView {
                locations: with_location(old(self)@.locations, location@),
                ..old(self)@
            }),
            old(self)@.well_formed() ==> final(self)@.well_formed(),
    {
        let ghost table = table_view(self.locations@);
        let mut kept: Vec<Location> = Vec::new();
        let mut i: usize = 0;
        while i < self.locations.len()
            invariant
                i <= self.locations.len(),
                *self == *old(self),
                table == table_view(self.locations@),
                table_view(kept@) == without_address(table.take(i as int), location.ip),
            decreases self.locations.len() - i,
        {
            proof {
                assert(table.take(i + 1) =~= table.take(i as int).push(table[i as int]));
                table.take(i as int).lemma_filter_push(
                    table[i as int],
                    |entry: LocationView| entry.ip != location.ip,
                );
            }
            if !(self.locations[i].ip == location.ip) {
                kept.push(self.locations[i].clone());
            }
            i = i + 1;
        }
        proof {
            assert(table.take(i as int) =~= table);
        }
        kept.push(location);
        proof {
            if distinct_addresses(table) {
                lemma_with_location_keeps_distinct(table, location@);
            }
        }
        self.locations = kept;
    }

    /// Takes out of the table the entries at the positions `selected`,
    /// along with any other entry that says the same as one of them.
    pub fn remove_locations(&mut self, selected: &Vec<usize>)
        requires
            forall|k: int| 0 <= k < selected.len() ==> selected[k] < old(self).locations.len(),
        ensures
            final(self)@ == (ConfigView {
                locations: without_selected(old(self)@.locations, selected@),
                ..old(self)@
            }),
            old(self)@.well_formed() ==> final(self)@.well_formed(),
    {
        let ghost table = table_view(self.locations@);
        let ghost keep = |entry: LocationView| !is_selected(table, selected@, entry);
        let mut kept: Vec<Location> = Vec::new();
        let mut i: usize = 0;
        while i < self.locations.len()
            invariant
                i <= self.locations.len(),
                *self == *old(self),
                table == table_view(self.locations@),
                keep == |entry: LocationView| !is_selected(table, selected@, entry),
                forall|k: int| 0 <= k < selected.len() ==> selected[k] < self.locations.len(),
                table_view(kept@) == table.take(i as int).filter(keep),
            decreases self.locations.len() - i,
        {
            proof {
                assert(table.take(i + 1) =~= table.take(i as int).push(table[i as int]));
                table.take(i as int).lemma_filter_push(table[i as int], keep);
            }
            if !self.selects(selected, &self.locations[i]) {
                kept.push(self.locations[i].clone());
            }
            i = i + 1;
        }
        proof {
            assert(table.take(i as int) =~= table);
            if distinct_addresses(table) {
                lemma_filter_keeps_distinct(table, keep);
            }
        }
        self.locations = kept;
    }

    /// Whether no two locations share an address.
    pub fn is_well_formed(&self) -> (distinct: bool)
        ensures
            distinct == self@.well_formed(),
    {
        let ghost table = table_view(self.locations@);
        let mut j: usize = 0;
        while j < self.locations.len()
            invariant
                j <= self.locations.len(),
                table == table_view(self.locations@),
                forall|a: int, b: int|
                    0 <= a < b < j ==> (#[trigger] table[a]).ip != (#[trigger] table[b]).ip,
            decreases self.locations.len() - j,
        {
            let mut i: usize = 0;
            while i < j
                invariant
                    i <= j < self.locations.len(),
                    table == table_view(self.locations@),
                    forall|a: int| 0 <= a < i ==> (#[trigger] table[a]).ip != table[j as int].ip,
                decreases j - i,
            {
                if self.locations[i].ip == self.locations[j].ip {
                    assert(table[i as int].ip == table[j as int].ip);
                    return false;
                }
                i = i + 1;
            }
            j = j + 1;
        }
        true
    }

    /// Whether `entry` says the same as one of the entries of the table at
    /// the positions `selected`.
    fn selects(&self, selected: &Vec<usize>, entry: &Location) -> (found: bool)
        requires
            forall|k: int| 0 <= k < selected.len() ==> selected[k] < self.locations.len(),
        ensures
            found == is_selected(self@.locations, selected@, entry@),
    {
        let ghost table = table_view(self.locations@);
        let mut k: usize = 0;
        while k < selected.len()
            invariant
                k <= selected.len(),
                table == table_view(self.locations@),
                forall|n: int| 0 <= n < selected.len() ==> selected[n] < self.locations.len(),
                forall|n: int| 0 <= n < k ==> table[#[trigger] selected[n] as int] != entry@,
            decreases selected.len() - k,
        {
            if self.locations[selected[k]].same_as(entry) {
                return true;
            }
            k = k + 1;
        }
        false
    }
}

} // verus!
