//! Known locations and the lookup of an address among them.

use vstd::prelude::*;

use crate::address::IpAddress;
use crate::config::{StatusConfig, StatusTemplate};

verus! {

/// What a location says, as mathematical values.
pub struct LocationView {
    pub ip: IpAddress,
    pub text: Seq<char>,
    pub emoji: Seq<char>,
    pub expire_after_hours: Option<i64>,
}

impl LocationView {
    /// The status that this location asks for.
    pub open spec fn status(self) -> StatusTemplate {
        StatusTemplate {
            text: self.text,
            emoji: self.emoji,
            expire_after_hours: self.expire_after_hours,
        }
    }
}

/// A location pairs a public IP address, IPv4 or IPv6, with the status to
/// show while connected from it.
#[derive(Debug, PartialEq, Eq)]
pub struct Location {
    pub ip: IpAddress,
    pub text: String,
    pub emoji: String,
    pub expire_after_hours: Option<i64>,
}

impl View for Location {
    type V = LocationView;

    open spec fn view(&self) -> LocationView {
        LocationView {
            ip: self.ip,
            text: self.text@,
            emoji: self.emoji@,
            expire_after_hours: self.expire_after_hours,
        }
    }
}

impl Clone for Location {
    fn clone(&self) -> (copy: Location)
        ensures
            copy == *self,
    {
        Location {
            ip: self.ip,
            text: self.text.clone(),
            emoji: self.emoji.clone(),
            expire_after_hours: self.expire_after_hours,
        }
    }
}

impl Location {
    /// The status that this location asks for.
    pub fn status(&self) -> (status: StatusConfig)
        ensures
            status@ == self@.status(),
    {
        StatusConfig {
            text: self.text.clone(),
            emoji: self.emoji.clone(),
            expire_after_hours: self.expire_after_hours,
        }
    }

    /// Whether two locations say the same in every field.
    pub fn same_as(&self, other: &Location) -> (same: bool)
        ensures
            same == (self@ == other@),
    {
        self.ip == other.ip && self.text == other.text && self.emoji == other.emoji
            && self.expire_after_hours == other.expire_after_hours
    }
}

/// The outcome of looking an address up in a location table.
#[derive(Debug, PartialEq, Eq)]
pub enum Lookup<T> {
    /// No location has the address.
    NoMatch,
    /// Exactly one location has the address; this is its status.
    Unique(T),
    /// Two or more locations have the address: the table is misconfigured,
    /// and no status is picked from among them.
    Conflict,
}

impl<T: View> View for Lookup<T> {
    type V = Lookup<T::V>;

    open spec fn view(&self) -> Lookup<T::V> {
        match *self {
            Lookup::NoMatch => Lookup::NoMatch,
            Lookup::Unique(status) => Lookup::Unique(status@),
            Lookup::Conflict => Lookup::Conflict,
        }
    }
}

impl<T> Lookup<T> {
    /// The status found, if the lookup found exactly one.
    pub open spec fn status(self) -> Option<T> {
        match self {
            Lookup::Unique(status) => Some(status),
            _ => None,
        }
    }

    /// Gives up the status found; a conflict yields none, as no match does.
    pub fn into_status(self) -> (status: Option<T>)
        ensures
            status == self.status(),
    {
        match self {
            Lookup::Unique(status) => Some(status),
            _ => None,
        }
    }

    /// Whether the lookup ran into a misconfigured table.
    pub fn is_conflict(&self) -> (conflict: bool)
        ensures
            conflict == (*self is Conflict),
    {
        match self {
            Lookup::Conflict => true,
            _ => false,
        }
    }
}

/// A location table as mathematical values, entry by entry.
pub open spec fn table_view(locations: Seq<Location>) -> Seq<LocationView> {
    locations.map_values(|location: Location| location@)
}

/// The entries of `table` whose address is exactly `ip`, in table order.
pub open spec fn matching(table: Seq<LocationView>, ip: IpAddress) -> Seq<LocationView> {
    table.filter(|location: LocationView| location.ip == ip)
}

/// What looking `ip` up in `table` yields: the status of the one entry that
/// has it, nothing if none has it, a conflict if several have it.
pub open spec fn lookup(table: Seq<LocationView>, ip: IpAddress) -> Lookup<StatusTemplate> {
    let found = matching(table, ip);
    if found.len() == 0 {
        Lookup::NoMatch
    } else if found.len() == 1 {
        Lookup::Unique(found[0].status())
    } else {
        Lookup::Conflict
    }
}

/// No two entries of `table` share an address.
pub open spec fn distinct_addresses(table: Seq<LocationView>) -> bool {
    forall|i: int, j: int|
        0 <= i < j < table.len() ==> (#[trigger] table[i]).ip != (#[trigger] table[j]).ip
}

/// `table` without the entries whose address is `ip`.
pub open spec fn without_address(table: Seq<LocationView>, ip: IpAddress) -> Seq<LocationView> {
    table.filter(|location: LocationView| location.ip != ip)
}

/// `table` with `location` in place of whatever it held for that address:
/// the entries for other addresses, in their order, then `location`.
pub open spec fn with_location(table: Seq<LocationView>, location: LocationView) -> Seq<
    LocationView,
> {
    without_address(table, location.ip).push(location)
}

/// Whether `entry` says the same as one of the entries of `table` at the
/// positions `selected`.
pub open spec fn is_selected(
    table: Seq<LocationView>,
    selected: Seq<usize>,
    entry: LocationView,
) -> bool {
    exists|k: int| 0 <= k < selected.len() && table[#[trigger] selected[k] as int] == entry
}

/// `table` without the entries at the positions `selected`, and without
/// any other entry that says the same as one of them.
pub open spec fn without_selected(table: Seq<LocationView>, selected: Seq<usize>) -> Seq<
    LocationView,
> {
    table.filter(|entry: LocationView| !is_selected(table, selected, entry))
}

/// Looks `ip` up among `locations` by exact equality of addresses.
pub fn find(locations: &Vec<Location>, ip: &IpAddress) -> (found: Lookup<StatusConfig>)
    ensures
        found@ == lookup(table_view(locations@), *ip),
{
    let ghost table = table_view(locations@);
    let mut count: usize = 0;
    let mut first: usize = 0;
    let mut i: usize = 0;
    while i < locations.len()
        invariant
            i <= locations.len(),
            table == table_view(locations@),
            count <= i,
            count == matching(table.take(i as int), *ip).len(),
            count >= 1 ==> first < i && matching(table.take(i as int), *ip)[0] == table[first as int],
        decreases locations.len() - i,
    {
        proof {
            let prefix = table.take(i as int);
            assert(table.take(i + 1) =~= prefix.push(table[i as int]));
            prefix.lemma_filter_push(
                table[i as int],
                |location: LocationView| location.ip == *ip,
            );
        }
        if locations[i].ip == *ip {
            if count == 0 {
                first = i;
            }
            count = count + 1;
        }
        i = i + 1;
    }
    proof {
        assert(table.take(i as int) =~= table);
    }
    if count == 0 {
        Lookup::NoMatch
    } else if count == 1 {
        Lookup::Unique(locations[first].status())
    } else {
        Lookup::Conflict
    }
}

/// In a table where no two entries share an address, looking up the address
/// of any entry yields exactly that entry's status.
pub proof fn lemma_lookup_finds_entry(table: Seq<LocationView>, k: int)
    requires
        distinct_addresses(table),
        0 <= k < table.len(),
    ensures
        lookup(table, table[k].ip) == Lookup::Unique(table[k].status()),
{
    lemma_matching_single(table, k);
}

/// An address that two or more entries of the table have yields a conflict,
/// hence no status: none of the entries is picked.
pub proof fn lemma_lookup_duplicate_conflicts(
    table: Seq<LocationView>,
    ip: IpAddress,
    i: int,
    j: int,
)
    requires
        0 <= i < j < table.len(),
        table[i].ip == ip,
        table[j].ip == ip,
    ensures
        lookup(table, ip) == Lookup::<StatusTemplate>::Conflict,
        lookup(table, ip).status() is None,
{
    let before = table.take(j);
    lemma_matching_counts(before, ip, i);
    lemma_matching_counts(table, ip, j);
}

/// An address that no entry has yields no match, and conversely.
pub proof fn lemma_lookup_absent(table: Seq<LocationView>, ip: IpAddress)
    ensures
        lookup(table, ip) is NoMatch <==> forall|i: int|
            0 <= i < table.len() ==> (#[trigger] table[i]).ip != ip,
{
    if forall|i: int| 0 <= i < table.len() ==> (#[trigger] table[i]).ip != ip {
        lemma_matching_none(table, ip);
    } else {
        let i = choose|i: int| 0 <= i < table.len() && (#[trigger] table[i]).ip == ip;
        lemma_matching_counts(table, ip, i);
    }
}

/// An entry with the address sought adds one to the matches of what
/// precedes it, and what follows never takes a match away.
proof fn lemma_matching_counts(table: Seq<LocationView>, ip: IpAddress, i: int)
    requires
        0 <= i < table.len(),
        table[i].ip == ip,
    ensures
        matching(table.take(i + 1), ip) == matching(table.take(i), ip).push(table[i]),
        matching(table, ip).len() >= matching(table.take(i), ip).len() + 1,
{
    let pred = |location: LocationView| location.ip == ip;
    assert(table.take(i + 1) =~= table.take(i).push(table[i]));
    table.take(i).lemma_filter_push(table[i], pred);
    table.lemma_filter_take_len(pred, i + 1);
}

/// Where no entry has the address, nothing matches.
proof fn lemma_matching_none(table: Seq<LocationView>, ip: IpAddress)
    requires
        forall|i: int| 0 <= i < table.len() ==> (#[trigger] table[i]).ip != ip,
    ensures
        matching(table, ip).len() == 0,
    decreases table.len(),
{
    reveal(Seq::filter);
    if table.len() > 0 {
        lemma_matching_none(table.drop_last(), ip);
    }
}

/// Where entry `k` is the only one with its address, it is the only match.
proof fn lemma_matching_single(table: Seq<LocationView>, k: int)
    requires
        distinct_addresses(table),
        0 <= k < table.len(),
    ensures
        matching(table, table[k].ip) == seq![table[k]],
    decreases table.len(),
{
    let ip = table[k].ip;
    let rest = table.drop_last();
    reveal(Seq::filter);
    if k == table.len() - 1 {
        lemma_matching_none(rest, ip);
    } else {
        lemma_matching_single(rest, k);
    }
}

/// After a location is put into a table, looking its address up yields its
/// status, whatever the table held for that address before.
pub proof fn lemma_with_location_is_found(table: Seq<LocationView>, location: LocationView)
    ensures
        lookup(with_location(table, location), location.ip) == Lookup::Unique(location.status()),
{
    let ip = location.ip;
    let others = without_address(table, ip);
    assert forall|i: int| 0 <= i < others.len() implies (#[trigger] others[i]).ip != ip by {
        table.lemma_filter_pred(|entry: LocationView| entry.ip != ip, i);
    }
    lemma_matching_none(others, ip);
    others.lemma_filter_push(location, |entry: LocationView| entry.ip == ip);
}

/// Putting a location into a table leaves the lookup of every other
/// address as it was.
pub proof fn lemma_with_location_keeps_others(
    table: Seq<LocationView>,
    location: LocationView,
    ip: IpAddress,
)
    requires
        ip != location.ip,
    ensures
        lookup(with_location(table, location), ip) == lookup(table, ip),
{
    lemma_without_address_keeps_matches(table, location.ip, ip);
    without_address(table, location.ip).lemma_filter_push(
        location,
        |entry: LocationView| entry.ip == ip,
    );
}

/// Putting a location into a table in which no two entries share an
/// address yields such a table again.
pub proof fn lemma_with_location_keeps_distinct(table: Seq<LocationView>, location: LocationView)
    requires
        distinct_addresses(table),
    ensures
        distinct_addresses(with_location(table, location)),
{
    let others = without_address(table, location.ip);
    let after = with_location(table, location);
    lemma_filter_keeps_distinct(table, |entry: LocationView| entry.ip != location.ip);
    assert forall|i: int, j: int| 0 <= i < j < after.len() implies (#[trigger] after[i]).ip
        != (#[trigger] after[j]).ip by {
        if j == others.len() {
            table.lemma_filter_pred(|entry: LocationView| entry.ip != location.ip, i);
        }
    }
}

/// Removing selected entries leaves exactly the entries of the table that
/// say the same as none of the selected ones.
pub proof fn lemma_without_selected_contents(
    table: Seq<LocationView>,
    selected: Seq<usize>,
    entry: LocationView,
)
    ensures
        without_selected(table, selected).contains(entry) <==> table.contains(entry)
            && !is_selected(table, selected, entry),
{
    let keep = |entry: LocationView| !is_selected(table, selected, entry);
    if without_selected(table, selected).contains(entry) {
        table.lemma_filter_contains_rev(keep, entry);
    }
    if table.contains(entry) && !is_selected(table, selected, entry) {
        let i = choose|i: int| 0 <= i < table.len() && table[i] == entry;
        table.lemma_filter_contains(keep, i);
    }
}

/// Leaving the entries of one address out does not change which entries
/// match another.
proof fn lemma_without_address_keeps_matches(
    table: Seq<LocationView>,
    left_out: IpAddress,
    ip: IpAddress,
)
    requires
        ip != left_out,
    ensures
        matching(without_address(table, left_out), ip) == matching(table, ip),
    decreases table.len(),
{
    let other = |entry: LocationView| entry.ip != left_out;
    let same = |entry: LocationView| entry.ip == ip;
    if table.len() == 0 {
        reveal(Seq::filter);
    } else {
        let rest = table.drop_last();
        let last = table.last();
        assert(table =~= rest.push(last));
        lemma_without_address_keeps_matches(rest, left_out, ip);
        rest.lemma_filter_push(last, other);
        rest.lemma_filter_push(last, same);
        rest.filter(other).lemma_filter_push(last, same);
    }
}

/// What is filtered out of a table in which no two entries share an
/// address is such a table again.
pub proof fn lemma_filter_keeps_distinct(table: Seq<LocationView>, keep: spec_fn(LocationView) -> bool)
    requires
        distinct_addresses(table),
    ensures
        distinct_addresses(table.filter(keep)),
    decreases table.len(),
{
    if table.len() == 0 {
        reveal(Seq::filter);
    } else {
        let rest = table.drop_last();
        let last = table.last();
        assert(table =~= rest.push(last));
        lemma_filter_keeps_distinct(rest, keep);
        rest.lemma_filter_push(last, keep);
        let kept = rest.filter(keep);
        let all = table.filter(keep);
        assert forall|i: int, j: int| 0 <= i < j < all.len() implies (#[trigger] all[i]).ip
            != (#[trigger] all[j]).ip by {
            if j == kept.len() {
                rest.lemma_filter_contains_rev(keep, kept[i]);
            }
        }
    }
}

} // verus!
