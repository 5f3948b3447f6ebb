//! Resolution of a source identifier into a [`Remote`], its identity hash,
//! and the parsing of fetched text into a calendar.
use sha2::digest::FixedOutput;
use sha2::Digest;
use vstd::prelude::*;

verus! {

/// A parsed iCalendar document, carried through as an opaque value.
#[verifier::external_type_specification]
#[verifier::external_body]
pub struct ExCalendar(icalendar::Calendar);

/// A component of a calendar; declared because `icalendar::Calendar`
/// dereferences to a slice of them.
#[verifier::external_type_specification]
#[verifier::external_body]
pub struct ExCalendarComponent(icalendar::CalendarComponent);

/// The serialisation of `s` as an absolute URL, or none where `s` is not one.
pub uninterp spec fn url_serialization(s: Seq<char>) -> Option<Seq<char>>;

/// The lowercase hex SHA-256 digest of the UTF-8 bytes of `s`.
pub uninterp spec fn sha256_hex(s: Seq<char>) -> Seq<char>;

/// The text `s` with its folded lines joined back together.
pub uninterp spec fn unfolded(s: Seq<char>) -> Seq<char>;

/// Whether `s` is read as calendar content.
pub uninterp spec fn parses_as_calendar(s: Seq<char>) -> bool;

/// The view of an optional string.
pub open spec fn opt_view(o: Option<String>) -> Option<Seq<char>> {
    match o {
        Some(s) => Some(s@),
        None => None,
    }
}

/// Relies on `url::Url::parse`, whose success or failure and whose
/// serialisation (`Url::as_str`) depend on the input text alone.
#[verifier::external_body]
fn parse_url(s: &str) -> (r: Option<String>)
    ensures
        opt_view(r) == url_serialization(s@),
{
    match url::Url::parse(s) {
        Ok(u) => Some(String::from(u.as_str())),
        Err(_) => None,
    }
}

/// Relies on `sha2::Sha256` over the bytes of `s`, written out as lowercase hex.
#[verifier::external_body]
fn sha256_hex_digest(s: &str) -> (r: String)
    ensures
        r@ == sha256_hex(s@),
{
    let mut hasher = sha2::Sha256::new();
    hasher.update(s);
    format!("{:x}", hasher.finalize_fixed())
}

/// Relies on `icalendar::parser::unfold`, a function of its input alone.
#[verifier::external_body]
pub(crate) fn unfold_text(s: &str) -> (r: String)
    ensures
        r@ == unfolded(s@),
{
    icalendar::parser::unfold(s)
}

/// Relies on `icalendar::parser::read_calendar`: it accepts or rejects a text
/// by its content alone; the accepted document becomes an `icalendar::Calendar`.
#[verifier::external_body]
pub(crate) fn read_calendar(s: &str) -> (r: Option<icalendar::Calendar>)
    ensures
        r is Some <==> parses_as_calendar(s@),
{
    match icalendar::parser::read_calendar(s) {
        Ok(c) => Some(icalendar::Calendar::from(c)),
        Err(_) => None,
    }
}

/// Where a calendar source lives.
pub enum Location {
    /// An absolute URL, held in its serialised form.
    Online(String),
    /// A filesystem path.
    Local(String),
}

impl Location {
    /// The canonical text of the location: the URL's serialisation or the path.
    pub open spec fn text(&self) -> Seq<char> {
        match self {
            Location::Online(u) => u@,
            Location::Local(p) => p@,
        }
    }
}

/// An addressable calendar source.
pub struct Remote {
    pub location: Location,
}

impl Remote {
    pub open spec fn canonical(&self) -> Seq<char> {
        self.location.text()
    }

    pub open spec fn local(&self) -> bool {
        self.location is Local
    }

    /// The identity of the source: the key its cache entry is stored under.
    pub open spec fn identity(&self) -> Seq<char> {
        sha256_hex(self.canonical())
    }

    /// Classifies `location` as a URL where it parses as an absolute one,
    /// and as a local path otherwise.
    pub fn new(location: &str) -> (r: Remote)
        ensures
            r.local() <==> url_serialization(location@) is None,
            match url_serialization(location@) {
                Some(u) => r.canonical() == u,
                None => r.canonical() == location@,
            },
    {
        let location = match parse_url(location) {
            Some(url) => Location::Online(url),
            None => Location::Local(String::from_str(location)),
        };
        Remote { location }
    }

    pub fn is_local(&self) -> (r: bool)
        ensures
            r == self.local(),
    {
        match &self.location {
            Location::Online(_) => false,
            Location::Local(_) => true,
        }
    }

    /// The SHA-256 hex digest of the canonical location text.
    pub fn hash(&self) -> (r: String)
        ensures
            r@ == self.identity(),
    {
        let text: &str = match &self.location {
            Location::Online(url) => url.as_str(),
            Location::Local(path) => path.as_str(),
        };
        sha256_hex_digest(text)
    }
}

/// Reads the outcome of a fetch as a calendar: fetched text is unfolded, then
/// parsed; a failed fetch and text that does not parse both give none.
pub fn calendar_from_fetch(content: Option<String>) -> (r: Option<icalendar::Calendar>)
    ensures
        r is Some <==> (content matches Some(t) && parses_as_calendar(unfolded(t@))),
{
    match content {
        Some(text) => {
            let unfolded_text = unfold_text(text.as_str());
            read_calendar(unfolded_text.as_str())
        },
        None => None,
    }
}

/// Two sources whose canonical location texts agree have the same identity.
pub proof fn lemma_hash_depends_on_canonical_text(a: Remote, b: Remote)
    requires
        a.canonical() == b.canonical(),
    ensures
        a.identity() == b.identity(),
{
}

} // verus!
