//! The cache policy: when a source's cache entry is consulted or refreshed,
//! what a refresh writes, and how a stored entry is read back.
use crate::fetcher::{
    opt_view, parses_as_calendar, read_calendar, unfold_text, unfolded, Remote,
};
use vstd::prelude::*;

verus! {

/// Relies on `icalendar::Calendar`'s `Display`, which writes the calendar as
/// iCalendar text.
#[verifier::external_body]
fn calendar_text(cal: &icalendar::Calendar) -> (r: String) {
    cal.to_string()
}

/// Relies on `chrono::Utc::now` and `DateTime::to_rfc3339`: the current time
/// as an RFC 3339 timestamp. Nothing is known of its value.
#[verifier::external_body]
fn now_rfc3339() -> (r: String) {
    chrono::Utc::now().to_rfc3339()
}

/// One row of the cache table.
pub struct CacheEntry {
    /// The identity hash of the source; the row's key.
    pub hash: String,
    /// When the refresh that wrote the row ran.
    pub update_time: Option<String>,
    /// The unfolded calendar text, or none where the refresh could not fetch it.
    pub calendar: Option<String>,
}

/// The cache table after `e` was written: the row for its hash is replaced whole.
pub open spec fn upserted(
    table: Map<Seq<char>, Option<Seq<char>>>,
    e: CacheEntry,
) -> Map<Seq<char>, Option<Seq<char>>> {
    table.insert(e.hash@, opt_view(e.calendar))
}

/// The calendar text a lookup of `hash` finds: none for a missing row or a row
/// without a calendar.
pub open spec fn looked_up(table: Map<Seq<char>, Option<Seq<char>>>, hash: Seq<char>) -> Option<
    Seq<char>,
> {
    if table.contains_key(hash) {
        table[hash]
    } else {
        None
    }
}

/// Whether a lookup that found `stored` yields a calendar.
pub open spec fn cache_hit(stored: Option<Seq<char>>) -> bool {
    match stored {
        Some(t) => parses_as_calendar(t),
        None => false,
    }
}

/// The calendar text a refresh stores for what its fetch returned.
pub open spec fn refreshed_text(fetched: Option<Seq<char>>) -> Option<Seq<char>> {
    match fetched {
        Some(t) => Some(unfolded(t)),
        None => None,
    }
}

/// The next thing a read of a source's calendar does.
pub enum GetStep {
    /// Look the source's hash up in the store.
    LookUpStore,
    /// Fetch the source live.
    FetchLive,
    /// The read is over with this calendar.
    Found(icalendar::Calendar),
}

/// A source together with its cache setting.
pub struct CachedRemote {
    /// Present: the cache is used for remote sources. Absent: never.
    pub cache_delay: Option<u32>,
    pub remote: Remote,
}

impl CachedRemote {
    /// Caching applies to remote sources with a cache setting, and to no other.
    pub open spec fn caching_applies(&self) -> bool {
        self.cache_delay is Some && !self.remote.local()
    }

    pub fn new(cache_delay: Option<u32>, remote: Remote) -> (r: CachedRemote)
        ensures
            r.cache_delay == cache_delay,
            r.remote == remote,
    {
        CachedRemote { cache_delay, remote }
    }

    /// Whether `cache` refreshes the entry, and whether `get` looks in the
    /// store before fetching live.
    pub fn uses_cache(&self) -> (r: bool)
        ensures
            r == self.caching_applies(),
            self.cache_delay is None ==> !r,
            self.remote.local() ==> !r,
    {
        self.cache_delay.is_some() && !self.remote.is_local()
    }

    /// Where a read begins: in the store where caching applies, with a live
    /// fetch otherwise.
    pub fn get_start(&self) -> (r: GetStep)
        ensures
            r is LookUpStore <==> self.caching_applies(),
            r is FetchLive <==> !self.caching_applies(),
    {
        if self.uses_cache() {
            GetStep::LookUpStore
        } else {
            GetStep::FetchLive
        }
    }

    /// Where a read goes once the store lookup found `stored`: a calendar read
    /// from it ends the read; anything else falls back to a live fetch.
    pub fn get_after_lookup(stored: Option<String>) -> (r: GetStep)
        ensures
            r is Found <==> cache_hit(opt_view(stored)),
            r is FetchLive <==> !cache_hit(opt_view(stored)),
    {
        match calendar_from_store(stored) {
            Some(cal) => GetStep::Found(cal),
            None => GetStep::FetchLive,
        }
    }

    /// The entry a refresh writes, given the text of the freshly fetched
    /// calendar (none where the fetch failed) and the time of the refresh.
    pub fn refresh_entry(&self, fetched: Option<String>, update_time: String) -> (e: CacheEntry)
        ensures
            e.hash@ == self.remote.identity(),
            opt_view(e.update_time) == Some(update_time@),
            opt_view(e.calendar) == refreshed_text(opt_view(fetched)),
    {
        let calendar = match fetched {
            Some(text) => Some(unfold_text(text.as_str())),
            None => None,
        };
        CacheEntry { hash: self.remote.hash(), update_time: Some(update_time), calendar }
    }

    /// The entry a refresh writes now, for the outcome of its live fetch: the
    /// calendar is stored as unfolded text, or left out where the fetch failed.
    pub fn refresh_entry_now(&self, fetched: Option<icalendar::Calendar>) -> (e: CacheEntry)
        ensures
            e.hash@ == self.remote.identity(),
            e.update_time is Some,
            e.calendar is Some <==> fetched is Some,
            e.calendar matches Some(t) ==> exists|w: Seq<char>| t@ == unfolded(w),
    {
        let text = match &fetched {
            Some(cal) => Some(calendar_text(cal)),
            None => None,
        };
        self.refresh_entry(text, now_rfc3339())
    }
}

/// Reads back what a lookup in the store found: none where nothing was found
/// or the stored text does not parse.
pub fn calendar_from_store(stored: Option<String>) -> (r: Option<icalendar::Calendar>)
    ensures
        r is Some <==> cache_hit(opt_view(stored)),
{
    match stored {
        Some(text) => read_calendar(text.as_str()),
        None => None,
    }
}

/// A refresh whose fetch succeeded stores the unfolded fetched text under the
/// source's hash, and reading that row back finds exactly that text, whatever
/// the table held before; it yields a calendar exactly when that text parses.
pub proof fn lemma_refresh_reads_back(
    table: Map<Seq<char>, Option<Seq<char>>>,
    e: CacheEntry,
    fetched: Seq<char>,
)
    requires
        opt_view(e.calendar) == refreshed_text(Some(fetched)),
    ensures
        looked_up(upserted(table, e), e.hash@) == Some(unfolded(fetched)),
        cache_hit(looked_up(upserted(table, e), e.hash@)) <==> parses_as_calendar(
            unfolded(fetched),
        ),
{
}

/// A refresh whose fetch failed replaces the row for the source's hash, so
/// that reading it back yields no calendar, even where the table held a good
/// one before.
pub proof fn lemma_failed_refresh_reads_absent(
    table: Map<Seq<char>, Option<Seq<char>>>,
    e: CacheEntry,
)
    requires
        opt_view(e.calendar) == refreshed_text(None),
    ensures
        looked_up(upserted(table, e), e.hash@) is None,
        !cache_hit(looked_up(upserted(table, e), e.hash@)),
{
}

} // verus!
