use vstd::prelude::*;
use vstd::string::*;
use crate::text::{decimal, push_decimal, chars_of, lemma_seq_lt_order, seq_lt, str_lt, lowercase, seq_contains, to_lowercase, str_contains, str_eq, owned, clone_opt_string, clone_strings};
use crate::clock::{fresh_id, now_nanos};

verus! {

/// Optional text, taken by its characters.
pub open spec fn opt_view(o: Option<String>) -> Option<Seq<char>> {
    match o {
        Some(s) => Some(s@),
        None => None,
    }
}

/// Metadata extracted from a web page.
pub struct PageMetadata {
    /// Page description from meta tags.
    pub description: Option<String>,
    /// Keywords from meta tags.
    pub keywords: Vec<String>,
    /// Open Graph image URL.
    pub og_image: Option<String>,
    /// Page author.
    pub author: Option<String>,
    /// Canonical URL.
    pub canonical_url: Option<String>,
}

/// Mathematical value of [`PageMetadata`].
pub struct PageMetadataView {
    pub description: Option<Seq<char>>,
    pub keywords: Seq<Seq<char>>,
    pub og_image: Option<Seq<char>>,
    pub author: Option<Seq<char>>,
    pub canonical_url: Option<Seq<char>>,
}

impl View for PageMetadata {
    type V = PageMetadataView;

    open spec fn view(&self) -> PageMetadataView {
        PageMetadataView {
            description: opt_view(self.description),
            keywords: self.keywords@.map_values(|k: String| k@),
            og_image: opt_view(self.og_image),
            author: opt_view(self.author),
            canonical_url: opt_view(self.canonical_url),
        }
    }
}

impl PageMetadata {
    /// Metadata with no field set.
    pub fn empty() -> (m: Self)
        ensures
            m@.description is None,
            m@.keywords.len() == 0,
            m@.og_image is None,
            m@.author is None,
            m@.canonical_url is None,
    {
        PageMetadata {
            description: None,
            keywords: Vec::new(),
            og_image: None,
            author: None,
            canonical_url: None,
        }
    }

    /// A copy with the same contents.
    pub fn duplicate(&self) -> (r: Self)
        ensures
            r@ == self@,
    {
        let r = PageMetadata {
            description: clone_opt_string(&self.description),
            keywords: clone_strings(&self.keywords),
            og_image: clone_opt_string(&self.og_image),
            author: clone_opt_string(&self.author),
            canonical_url: clone_opt_string(&self.canonical_url),
        };
        assert(r@.keywords =~= self@.keywords);
        r
    }
}

impl Default for PageMetadata {
    fn default() -> (m: Self)
        ensures
            m@.description is None,
            m@.keywords.len() == 0,
            m@.og_image is None,
            m@.author is None,
            m@.canonical_url is None,
    {
        PageMetadata::empty()
    }
}

/// A single history entry: one URL with its latest visit.
pub struct HistoryEntry {
    /// Unique identifier for this entry.
    pub id: u128,
    /// URL that was visited.
    pub url: String,
    /// Page title.
    pub title: String,
    /// When the visit occurred, in nanoseconds since the Unix epoch.
    pub visit_time: i128,
    /// Number of times this URL has been visited.
    pub visit_count: u32,
    /// URL of the favicon.
    pub favicon_url: Option<String>,
    /// Extracted page metadata.
    pub metadata: PageMetadata,
    /// Referrer URL, if any.
    pub referrer: Option<String>,
}

/// Mathematical value of [`HistoryEntry`].
pub struct HistoryEntryView {
    pub id: u128,
    pub url: Seq<char>,
    pub title: Seq<char>,
    pub visit_time: i128,
    pub visit_count: u32,
    pub favicon_url: Option<Seq<char>>,
    pub metadata: PageMetadataView,
    pub referrer: Option<Seq<char>>,
}

impl View for HistoryEntry {
    type V = HistoryEntryView;

    open spec fn view(&self) -> HistoryEntryView {
        HistoryEntryView {
            id: self.id,
            url: self.url@,
            title: self.title@,
            visit_time: self.visit_time,
            visit_count: self.visit_count,
            favicon_url: opt_view(self.favicon_url),
            metadata: self.metadata@,
            referrer: opt_view(self.referrer),
        }
    }
}

/// The entry matches a search query: the lowercased query occurs in the
/// lowercased URL, title, description or one of the keywords.
pub open spec fn entry_matches(e: HistoryEntryView, query: Seq<char>) -> bool {
    let q = lowercase(query);
    ||| seq_contains(lowercase(e.url), q)
    ||| seq_contains(lowercase(e.title), q)
    ||| (match e.metadata.description {
        Some(d) => seq_contains(lowercase(d), q),
        None => false,
    })
    ||| exists|k: int|
        0 <= k < e.metadata.keywords.len() && seq_contains(
            lowercase(#[trigger] e.metadata.keywords[k]),
            q,
        )
}

impl HistoryEntry {
    /// An entry for a first visit of `url` at time `now`, with identifier `id`.
    pub fn new_at(id: u128, url: &str, title: &str, now: i128) -> (e: Self)
        ensures
            e@.id == id,
            e@.url == url@,
            e@.title == title@,
            e@.visit_time == now,
            e@.visit_count == 1,
            e@.favicon_url is None,
            e@.referrer is None,
            e@.metadata.description is None,
            e@.metadata.keywords.len() == 0,
            e@.metadata.og_image is None,
            e@.metadata.author is None,
            e@.metadata.canonical_url is None,
    {
        HistoryEntry {
            id,
            url: owned(url),
            title: owned(title),
            visit_time: now,
            visit_count: 1,
            favicon_url: None,
            metadata: PageMetadata::empty(),
            referrer: None,
        }
    }

    /// A new entry for a first visit of `url`, with a fresh random
    /// identifier and the current time.
    pub fn new(url: &str, title: &str) -> (e: Self)
        ensures
            e@.url == url@,
            e@.title == title@,
            e@.visit_count == 1,
            e@.favicon_url is None,
            e@.referrer is None,
            e@.metadata.description is None,
            e@.metadata.keywords.len() == 0,
            e@.metadata.og_image is None,
            e@.metadata.author is None,
            e@.metadata.canonical_url is None,
    {
        let id = fresh_id();
        let now = now_nanos();
        Self::new_at(id, url, title, now)
    }

    /// A new entry carrying the given metadata.
    pub fn with_metadata(url: &str, title: &str, metadata: PageMetadata) -> (e: Self)
        ensures
            e@.url == url@,
            e@.title == title@,
            e@.visit_count == 1,
            e@.favicon_url is None,
            e@.referrer is None,
            e@.metadata == metadata@,
    {
        let mut e = Self::new(url, title);
        e.metadata = metadata;
        e
    }

    /// The same entry with its favicon URL set.
    pub fn with_favicon(self, favicon_url: &str) -> (e: Self)
        ensures
            e@ == (HistoryEntryView { favicon_url: Some(favicon_url@), ..self@ }),
    {
        let mut e = self;
        e.favicon_url = Some(owned(favicon_url));
        e
    }

    /// The same entry with its referrer set.
    pub fn with_referrer(self, referrer: &str) -> (e: Self)
        ensures
            e@ == (HistoryEntryView { referrer: Some(referrer@), ..self@ }),
    {
        let mut e = self;
        e.referrer = Some(owned(referrer));
        e
    }

    /// A copy with the same contents.
    pub fn duplicate(&self) -> (r: Self)
        ensures
            r@ == self@,
    {
        HistoryEntry {
            id: self.id,
            url: self.url.clone(),
            title: self.title.clone(),
            visit_time: self.visit_time,
            visit_count: self.visit_count,
            favicon_url: clone_opt_string(&self.favicon_url),
            metadata: self.metadata.duplicate(),
            referrer: clone_opt_string(&self.referrer),
        }
    }

    /// Whether this entry matches a search query (case-insensitive substring
    /// of the URL, title, description or a keyword).
    pub fn matches_query(&self, query: &str) -> (r: bool)
        ensures
            r == entry_matches(self@, query@),
    {
        let q = to_lowercase(query);
        let u = to_lowercase(self.url.as_str());
        if str_contains(u.as_str(), q.as_str()) {
            return true;
        }
        let t = to_lowercase(self.title.as_str());
        if str_contains(t.as_str(), q.as_str()) {
            return true;
        }
        match &self.metadata.description {
            Some(d) => {
                let dl = to_lowercase(d.as_str());
                if str_contains(dl.as_str(), q.as_str()) {
                    return true;
                }
            },
            None => {},
        }
        let kws = &self.metadata.keywords;
        let ghost kv = self@.metadata.keywords;
        let mut i: usize = 0;
        while i < kws.len()
            invariant
                kv == kws@.map_values(|k: String| k@),
                kv == self@.metadata.keywords,
                i <= kws@.len(),
                q@ == lowercase(query@),
                forall|k: int| 0 <= k < i ==> !seq_contains(lowercase(#[trigger] kv[k]), q@),
            decreases kws.len() - i,
        {
            let kl = to_lowercase(kws[i].as_str());
            if str_contains(kl.as_str(), q.as_str()) {
                assert(kv[i as int] == kws@[i as int]@);
                assert(seq_contains(lowercase(self@.metadata.keywords[i as int]), lowercase(query@)));
                return true;
            }
            assert(kv[i as int] == kws@[i as int]@);
            i = i + 1;
        }
        false
    }
}

/// One row of the chronological visit index: a visit of `url`, for entry
/// `entry_id`, under the key `timestamp` (the visit's time in nanoseconds
/// since the Unix epoch, 0 for a visit before the epoch).
pub struct VisitRecord {
    pub url: String,
    pub timestamp: u128,
    pub entry_id: u128,
}

/// Mathematical value of [`VisitRecord`].
pub struct VisitView {
    pub url: Seq<char>,
    pub timestamp: u128,
    pub entry_id: u128,
}

impl View for VisitRecord {
    type V = VisitView;

    open spec fn view(&self) -> VisitView {
        VisitView { url: self.url@, timestamp: self.timestamp, entry_id: self.entry_id }
    }
}

impl VisitRecord {
    /// A copy with the same contents.
    pub fn duplicate(&self) -> (r: Self)
        ensures
            r@ == self@,
    {
        VisitRecord { url: self.url.clone(), timestamp: self.timestamp, entry_id: self.entry_id }
    }
}

/// A stored favicon: image bytes for a page URL.
pub struct Favicon {
    pub url: String,
    pub data: Vec<u8>,
}

/// Default maximum number of history entries.
pub const DEFAULT_MAX_HISTORY_ENTRIES: usize = 50000;

/// Configuration for the history manager.
pub struct HistoryConfig {
    /// Maximum number of history entries to keep.
    pub max_entries: usize,
    /// Path to the database file.
    pub db_path: String,
    /// Whether to enable privacy mode by default.
    pub privacy_mode: bool,
    /// Auto-save interval in seconds.
    pub auto_save_interval_secs: u64,
    /// Whether to enable full-text search indexing.
    pub enable_search_index: bool,
}

impl HistoryConfig {
    /// The default configuration, storing the database at `db_path`.
    pub fn with_db_path(db_path: String) -> (c: Self)
        ensures
            c.max_entries == DEFAULT_MAX_HISTORY_ENTRIES,
            c.db_path == db_path,
            !c.privacy_mode,
            c.auto_save_interval_secs == 30,
            c.enable_search_index,
    {
        HistoryConfig {
            max_entries: DEFAULT_MAX_HISTORY_ENTRIES,
            db_path,
            privacy_mode: false,
            auto_save_interval_secs: 30,
            enable_search_index: true,
        }
    }
}

/// Errors that history operations report.
#[derive(Debug)]
pub enum HistoryError {
    /// No entry for the given URL.
    EntryNotFound(String),
    /// The start of a time range lies after its end.
    InvalidTimeRange,
    /// Stored data breaks the store's invariants.
    DatabaseCorrupted(String),
    /// A schema migration failed.
    MigrationFailed(String),
    /// Privacy mode is on, so the visit is not recorded.
    PrivacyModeActive,
}

/// Statistics about the history store.
pub struct HistoryStats {
    pub total_entries: u64,
    pub total_visits: u64,
    pub total_favicons: u64,
    pub database_size_bytes: u64,
}

// ----- mathematical model of the store -----

/// Some entry has this URL.
pub open spec fn has_url(es: Seq<HistoryEntryView>, u: Seq<char>) -> bool {
    exists|i: int| 0 <= i < es.len() && (#[trigger] es[i]).url == u
}

/// The position of the entry with this URL.
pub open spec fn url_index(es: Seq<HistoryEntryView>, u: Seq<char>) -> int {
    choose|i: int| 0 <= i < es.len() && (#[trigger] es[i]).url == u
}

/// The entry stored for a URL, if any.
pub open spec fn lookup(es: Seq<HistoryEntryView>, u: Seq<char>) -> Option<HistoryEntryView> {
    if has_url(es, u) {
        Some(es[url_index(es, u)])
    } else {
        None
    }
}

/// No two entries share a URL.
pub open spec fn distinct_urls(es: Seq<HistoryEntryView>) -> bool {
    forall|i: int, j: int|
        0 <= i < es.len() && 0 <= j < es.len() && i != j ==> (#[trigger] es[i]).url != (
        #[trigger] es[j]).url
}

/// Entries are ordered by strictly increasing URL (the order of the URLs'
/// UTF-8 bytes), as the database keeps them.
pub open spec fn sorted_urls(es: Seq<HistoryEntryView>) -> bool {
    forall|i: int, j: int|
        0 <= i < j < es.len() ==> seq_lt((#[trigger] es[i]).url, (#[trigger] es[j]).url)
}

/// `p` splits the entries into those whose URL sorts before `u` and the rest.
pub open spec fn is_url_split(es: Seq<HistoryEntryView>, u: Seq<char>, p: int) -> bool {
    &&& 0 <= p <= es.len()
    &&& forall|i: int| 0 <= i < p ==> seq_lt((#[trigger] es[i]).url, u)
    &&& forall|i: int| p <= i < es.len() ==> !seq_lt((#[trigger] es[i]).url, u)
}

/// The position where an entry for URL `u` belongs.
pub open spec fn url_split(es: Seq<HistoryEntryView>, u: Seq<char>) -> int {
    choose|p: int| is_url_split(es, u, p)
}

/// Store an entry under its URL: replace the entry with the same URL, or
/// insert it at its place in URL order.
pub open spec fn upsert(es: Seq<HistoryEntryView>, e: HistoryEntryView) -> Seq<HistoryEntryView> {
    if has_url(es, e.url) {
        es.update(url_index(es, e.url), e)
    } else {
        es.insert(url_split(es, e.url), e)
    }
}

/// Remove the entry with this URL, if any.
pub open spec fn remove_url(es: Seq<HistoryEntryView>, u: Seq<char>) -> Seq<HistoryEntryView> {
    if has_url(es, u) {
        es.remove(url_index(es, u))
    } else {
        es
    }
}

/// Remove the entries with these URLs, one after the other.
pub open spec fn remove_urls(es: Seq<HistoryEntryView>, us: Seq<Seq<char>>) -> Seq<HistoryEntryView>
    decreases us.len(),
{
    if us.len() == 0 {
        es
    } else {
        remove_url(remove_urls(es, us.drop_last()), us.last())
    }
}

/// Visits are ordered by strictly increasing timestamp (one visit per key).
pub open spec fn sorted_visits(vs: Seq<VisitView>) -> bool {
    forall|i: int, j: int|
        0 <= i < j < vs.len() ==> (#[trigger] vs[i]).timestamp < (#[trigger] vs[j]).timestamp
}

/// `p` splits the visits into those before `t` and those at or after it.
pub open spec fn is_split(vs: Seq<VisitView>, t: u128, p: int) -> bool {
    &&& 0 <= p <= vs.len()
    &&& forall|i: int| 0 <= i < p ==> (#[trigger] vs[i]).timestamp < t
    &&& forall|i: int| p <= i < vs.len() ==> (#[trigger] vs[i]).timestamp >= t
}

/// The position where a visit at time `t` belongs.
pub open spec fn split_point(vs: Seq<VisitView>, t: u128) -> int {
    choose|p: int| is_split(vs, t, p)
}

/// Record a visit under its timestamp, replacing a visit with the same key.
pub open spec fn visits_insert(vs: Seq<VisitView>, r: VisitView) -> Seq<VisitView> {
    let p = split_point(vs, r.timestamp);
    if p < vs.len() && vs[p].timestamp == r.timestamp {
        vs.update(p, r)
    } else {
        vs.insert(p, r)
    }
}

/// The key of the visit index for a time: nanoseconds since the Unix
/// epoch, with times before the epoch all at 0.
pub open spec fn visit_key(t: i128) -> u128 {
    if t < 0 { 0 } else { t as u128 }
}

/// The visit index key for a time (see [`visit_key`]).
pub fn time_to_key(t: i128) -> (k: u128)
    ensures
        k == visit_key(t),
{
    if t < 0 { 0 } else { t as u128 }
}

/// The visit record that indexes an entry.
pub open spec fn visit_of(e: HistoryEntryView) -> VisitView {
    VisitView { url: e.url, timestamp: visit_key(e.visit_time), entry_id: e.id }
}

/// The entry that a repeated visit leaves: one more visit, at `now`, with the
/// new title and metadata and, when given, the new favicon.
pub open spec fn revisit(old: HistoryEntryView, new: HistoryEntryView, now: i128) -> HistoryEntryView {
    HistoryEntryView {
        visit_count: (old.visit_count + 1) as u32,
        visit_time: now,
        title: new.title,
        favicon_url: if new.favicon_url is Some { new.favicon_url } else { old.favicon_url },
        metadata: new.metadata,
        ..old
    }
}

/// The entry that recording a visit stores and returns.
pub open spec fn visited_entry(es: Seq<HistoryEntryView>, e: HistoryEntryView, now: i128) -> HistoryEntryView {
    match lookup(es, e.url) {
        Some(old) => revisit(old, e, now),
        None => e,
    }
}

/// The URLs of a run of visits.
pub open spec fn visit_urls(vs: Seq<VisitView>) -> Seq<Seq<char>> {
    vs.map_values(|v: VisitView| v.url)
}

/// Number of oldest visits that pruning drops: enough to bring the entry
/// counter back to `max`, or all of them.
pub open spec fn prune_len(count: u64, max: usize, n: nat) -> nat {
    if count > max {
        let k = (count - max) as nat;
        if k < n { k } else { n }
    } else {
        0
    }
}

/// `post` is `pre` after recording a visit of `e` at time `now` that returned `r`:
/// the visited entry is stored and returned, its visit is indexed, the
/// counter grows for a new URL, and pruning then drops the oldest visits.
pub open spec fn recorded_visit(
    pre: HistoryManager,
    post: HistoryManager,
    e: HistoryEntryView,
    now: i128,
    r: Result<HistoryEntry, HistoryError>,
) -> bool {
    let fin = visited_entry(pre.entries(), e, now);
    let es1 = upsert(pre.entries(), fin);
    let vs1 = visits_insert(pre.visits(), visit_of(fin));
    let c1 = if has_url(pre.entries(), e.url) {
        pre.count()
    } else {
        (pre.count() + 1) as u64
    };
    let m = prune_len(c1, pre.max_entries(), vs1.len());
    &&& r matches Ok(x) && x@ == fin
    &&& post.entries() == remove_urls(es1, visit_urls(vs1.take(m as int)))
    &&& post.visits() == vs1.skip(m as int)
    &&& post.count() == c1 - m
}

/// Entries for the visits taken newest first, skipping visits whose URL has
/// no entry (a URL visited several times appears once per visit).
pub open spec fn recent_hits(es: Seq<HistoryEntryView>, vs: Seq<VisitView>) -> Seq<HistoryEntryView>
    decreases vs.len(),
{
    if vs.len() == 0 {
        Seq::empty()
    } else {
        recent_hits(es, vs.drop_first()) + match lookup(es, vs[0].url) {
            Some(e) => seq![e],
            None => Seq::empty(),
        }
    }
}

/// Entries for the visits keyed from `start` to `end` (both inclusive),
/// oldest first, skipping visits whose URL has no entry.
pub open spec fn range_hits(es: Seq<HistoryEntryView>, vs: Seq<VisitView>, start: u128, end: u128) -> Seq<HistoryEntryView>
    decreases vs.len(),
{
    if vs.len() == 0 {
        Seq::empty()
    } else {
        range_hits(es, vs.drop_last(), start, end) + if start <= vs.last().timestamp <= end {
            match lookup(es, vs.last().url) {
                Some(e) => seq![e],
                None => Seq::empty(),
            }
        } else {
            Seq::empty()
        }
    }
}

/// The test that a search for `query` applies to each entry: the query is
/// lowercased before it is matched (and lowercased again by the match).
pub open spec fn search_filter(query: Seq<char>) -> spec_fn(HistoryEntryView) -> bool {
    |e: HistoryEntryView| entry_matches(e, lowercase(query))
}

/// A query matches an entry exactly when, ignoring case (both sides
/// lowercased), it occurs in the entry's URL, its title, its description or
/// one of its keywords.
pub proof fn law_entry_matches_fields(e: HistoryEntryView, query: Seq<char>)
    ensures
        seq_contains(lowercase(e.url), lowercase(query)) ==> entry_matches(e, query),
        seq_contains(lowercase(e.title), lowercase(query)) ==> entry_matches(e, query),
        (e.metadata.description matches Some(d) && seq_contains(lowercase(d), lowercase(query))) ==> entry_matches(
            e,
            query,
        ),
        forall|k: int|
            0 <= k < e.metadata.keywords.len() && seq_contains(lowercase(#[trigger] e.metadata.keywords[k]), lowercase(query))
                ==> entry_matches(e, query),
        entry_matches(e, query) ==> {
            ||| seq_contains(lowercase(e.url), lowercase(query))
            ||| seq_contains(lowercase(e.title), lowercase(query))
            ||| (e.metadata.description matches Some(d) && seq_contains(lowercase(d), lowercase(query)))
            ||| exists|k: int|
                0 <= k < e.metadata.keywords.len() && seq_contains(lowercase(#[trigger] e.metadata.keywords[k]), lowercase(query))
        },
{
}

/// Searching the stored entries finds every entry whose title or URL
/// contains the query, ignoring case (the search lowercases the query, and
/// the match lowercases it again).
pub proof fn law_search_finds_title_and_url(es: Seq<HistoryEntryView>, query: Seq<char>, k: int)
    requires
        0 <= k < es.len(),
    ensures
        seq_contains(lowercase(es[k].title), lowercase(lowercase(query))) ==> es.filter(search_filter(query)).contains(es[k]),
        seq_contains(lowercase(es[k].url), lowercase(lowercase(query))) ==> es.filter(search_filter(query)).contains(es[k]),
{
    if seq_contains(lowercase(es[k].title), lowercase(lowercase(query)))
        || seq_contains(lowercase(es[k].url), lowercase(lowercase(query))) {
        assert(search_filter(query)(es[k]));
        es.lemma_filter_contains(search_filter(query), k);
    }
}

/// Sort key: visit time.
pub open spec fn time_key() -> spec_fn(HistoryEntryView) -> int {
    |e: HistoryEntryView| e.visit_time as int
}

/// Sort key: visit count.
pub open spec fn count_key() -> spec_fn(HistoryEntryView) -> int {
    |e: HistoryEntryView| e.visit_count as int
}

/// Insert `e` into a sequence sorted by decreasing key, after every element
/// whose key is at least as large (so equal keys keep their order).
pub open spec fn insert_desc<A>(s: Seq<A>, e: A, key: spec_fn(A) -> int) -> Seq<A>
    decreases s.len(),
{
    if s.len() == 0 {
        seq![e]
    } else if key(s.last()) >= key(e) {
        s.push(e)
    } else {
        insert_desc(s.drop_last(), e, key).push(s.last())
    }
}

/// Stable sort by decreasing key.
pub open spec fn sort_desc<A>(s: Seq<A>, key: spec_fn(A) -> int) -> Seq<A>
    decreases s.len(),
{
    if s.len() == 0 {
        s
    } else {
        insert_desc(sort_desc(s.drop_last(), key), s.last(), key)
    }
}

/// The first `n` elements, or all of them when there are fewer.
pub open spec fn first_n<A>(s: Seq<A>, n: nat) -> Seq<A> {
    if n < s.len() { s.take(n as int) } else { s }
}

/// The test that an advanced search applies: within the optional time
/// bounds (inclusive) and, when a query is given, matching it.
pub open spec fn advanced_filter(query: Option<Seq<char>>, start: Option<i128>, end: Option<i128>) -> spec_fn(HistoryEntryView) -> bool {
    |e: HistoryEntryView|
        (match start { Some(t) => e.visit_time >= t, None => true })
        && (match end { Some(t) => e.visit_time <= t, None => true })
        && (match query { Some(q) => entry_matches(e, lowercase(q)), None => true })
}

/// The cutoff for entries older than `age_seconds` at time `now`, in
/// nanoseconds since the Unix epoch (the earliest time there is, should the
/// age reach back further).
pub open spec fn age_cutoff(age_seconds: u64, now: i128) -> i128 {
    if now - age_seconds * 1000000000 >= i128::MIN { (now - age_seconds * 1000000000) as i128 } else { i128::MIN }
}

/// `after` is `before` without the entries last visited before `cutoff`
/// and their visits, and `n` counts them (see [`HistoryManager::clear_before`]).
pub open spec fn cleared_before(before: HistoryManager, after: HistoryManager, n: u64, cutoff: i128) -> bool {
    &&& after.wf()
    &&& n == before.entries().filter(older_than(cutoff)).len()
    &&& after.entries() == before.entries().filter(not_older_than(cutoff))
    &&& after.visits() == before.visits().filter(visit_kept(before.entries().filter(older_than(cutoff))))
    &&& after.count() == if before.count() >= n { (before.count() - n) as u64 } else { 0 }
    &&& after.favicons() == before.favicons()
    &&& after.private() == before.private()
    &&& after.max_entries() == before.max_entries()
}

/// Entries last visited before `cutoff`.
pub open spec fn older_than(cutoff: i128) -> spec_fn(HistoryEntryView) -> bool {
    |e: HistoryEntryView| e.visit_time < cutoff
}

/// Entries last visited at or after `cutoff`.
pub open spec fn not_older_than(cutoff: i128) -> spec_fn(HistoryEntryView) -> bool {
    |e: HistoryEntryView| !(e.visit_time < cutoff)
}

/// Some entry of `es` has a visit time with index key `t`.
pub open spec fn has_time(es: Seq<HistoryEntryView>, t: u128) -> bool {
    exists|i: int| 0 <= i < es.len() && visit_key((#[trigger] es[i]).visit_time) == t
}

/// Visits whose key is not the visit time of a deleted entry.
pub open spec fn visit_kept(deleted: Seq<HistoryEntryView>) -> spec_fn(VisitView) -> bool {
    |v: VisitView| !has_time(deleted, v.timestamp)
}

/// Export then import restores the history: importing a store's entries,
/// in the order it keeps them, into a history that holds no entries gives
/// back exactly those entries, whatever visits the history holds.
pub proof fn law_import_restores_entries(es: Seq<HistoryEntryView>, vs: Seq<VisitView>)
    requires
        sorted_urls(es),
    ensures
        import_fold(Seq::empty(), vs, es).0 == es,
    decreases es.len(),
{
    if es.len() > 0 {
        let d = es.drop_last();
        let e = es.last();
        assert(sorted_urls(d)) by {
            assert forall|i: int, j: int| 0 <= i < j < d.len() implies seq_lt(
                (#[trigger] d[i]).url,
                (#[trigger] d[j]).url,
            ) by {
                assert(d[i] == es[i] && d[j] == es[j]);
            }
        }
        law_import_restores_entries(d, vs);
        assert(is_url_split(d, e.url, d.len() as int)) by {
            assert forall|i: int| 0 <= i < d.len() implies seq_lt((#[trigger] d[i]).url, e.url) by {
                assert(d[i] == es[i]);
                assert(e == es[es.len() - 1]);
            }
        }
        lemma_upsert_sorted(d, e, d.len() as int);
        lemma_url_split_unique(d, e.url, d.len() as int);
        assert(d.insert(d.len() as int, e) =~= es);
    }
}

/// Entries and visits after importing `list` in order: each entry is
/// stored under its URL and its visit indexed under its visit time.
pub open spec fn import_fold(es: Seq<HistoryEntryView>, vs: Seq<VisitView>, list: Seq<HistoryEntryView>) -> (Seq<HistoryEntryView>, Seq<VisitView>)
    decreases list.len(),
{
    if list.len() == 0 {
        (es, vs)
    } else {
        let prev = import_fold(es, vs, list.drop_last());
        (upsert(prev.0, list.last()), visits_insert(prev.1, visit_of(list.last())))
    }
}

/// Some pair has this key.
pub open spec fn has_key(fs: Seq<(Seq<char>, Seq<u8>)>, k: Seq<char>) -> bool {
    exists|i: int| 0 <= i < fs.len() && (#[trigger] fs[i]).0 == k
}

/// The position of the pair with this key.
pub open spec fn key_index(fs: Seq<(Seq<char>, Seq<u8>)>, k: Seq<char>) -> int {
    choose|i: int| 0 <= i < fs.len() && (#[trigger] fs[i]).0 == k
}

/// Store a pair, replacing the one with the same key in place.
pub open spec fn upsert_pair(fs: Seq<(Seq<char>, Seq<u8>)>, f: (Seq<char>, Seq<u8>)) -> Seq<(Seq<char>, Seq<u8>)> {
    if has_key(fs, f.0) {
        fs.update(key_index(fs, f.0), f)
    } else {
        fs.push(f)
    }
}

/// HTML text for one character: `&`, `<`, `>` and `"` become entities.
pub open spec fn escape_char(c: char) -> Seq<char> {
    if c == '&' {
        "&amp;"@
    } else if c == '<' {
        "&lt;"@
    } else if c == '>' {
        "&gt;"@
    } else if c == '"' {
        "&quot;"@
    } else {
        seq![c]
    }
}

/// Text with the HTML special characters escaped.
pub open spec fn html_escape_seq(s: Seq<char>) -> Seq<char>
    decreases s.len(),
{
    if s.len() == 0 {
        Seq::empty()
    } else {
        html_escape_seq(s.drop_last()) + escape_char(s.last())
    }
}

/// The bookmark-file line for one entry; the date is whole seconds (0 for
/// a visit before the Unix epoch).
pub open spec fn html_line(e: HistoryEntryView) -> Seq<char> {
    "        <DT><A HREF=\""@ + html_escape_seq(e.url) + "\" ADD_DATE=\""@ + decimal(
        (visit_key(e.visit_time) / 1000000000u128) as nat,
    ) + "\">"@ + html_escape_seq(e.title) + "</A>\n"@
}

proof fn lemma_escape_has_no_quote(s: Seq<char>)
    ensures
        forall|k: int| 0 <= k < html_escape_seq(s).len() ==> #[trigger] html_escape_seq(s)[k] != '"',
    decreases s.len(),
{
    reveal_strlit("&amp;");
    reveal_strlit("&lt;");
    reveal_strlit("&gt;");
    reveal_strlit("&quot;");
    if s.len() > 0 {
        lemma_escape_has_no_quote(s.drop_last());
        let a = html_escape_seq(s.drop_last());
        let b = escape_char(s.last());
        assert forall|k: int| 0 <= k < (a + b).len() implies #[trigger] (a + b)[k] != '"' by {
            if k >= a.len() {
                assert((a + b)[k] == b[k - a.len()]);
            } else {
                assert((a + b)[k] == a[k]);
            }
        }
    }
}

/// In the bookmark-file line of an entry, the `HREF` attribute holds the
/// entry's URL, HTML-escaped, and ends at the first `"` after it (escaping
/// leaves no `"` inside); the link text that closes the line, between `>`
/// and `</A>`, is the entry's title, HTML-escaped.
pub proof fn law_html_line_links_url_with_title(e: HistoryEntryView)
    ensures
        ({
            let l = html_line(e);
            let u = html_escape_seq(e.url);
            let t = html_escape_seq(e.title);
            let p = "        <DT><A HREF=\""@.len() as int;
            &&& l.subrange(0, p) == "        <DT><A HREF=\""@
            &&& l.subrange(p, p + u.len()) == u
            &&& l[p + u.len()] == '"'
            &&& forall|k: int| 0 <= k < u.len() ==> #[trigger] u[k] != '"'
            &&& l.subrange(l.len() - 5 - t.len(), l.len() - 5) == t
            &&& l[l.len() - 6 - t.len()] == '>'
            &&& l.subrange(l.len() - 5, l.len() as int) == "</A>\n"@
        }),
{
    reveal_strlit("        <DT><A HREF=\"");
    reveal_strlit("\" ADD_DATE=\"");
    reveal_strlit("\">");
    reveal_strlit("</A>\n");
    lemma_escape_has_no_quote(e.url);
    let a = "        <DT><A HREF=\""@;
    let u = html_escape_seq(e.url);
    let b = "\" ADD_DATE=\""@;
    let d = decimal((visit_key(e.visit_time) / 1000000000u128) as nat);
    let c = "\">"@;
    let t = html_escape_seq(e.title);
    let z = "</A>\n"@;
    let l = html_line(e);
    assert(l == a + u + b + d + c + t + z);
    assert(l.subrange(0, a.len() as int) =~= a);
    assert(l.subrange(a.len() as int, (a.len() + u.len()) as int) =~= u);
    assert(l[(a.len() + u.len()) as int] == b[0]);
    assert(l.subrange(l.len() - 5 - t.len(), l.len() - 5) =~= t);
    assert(l[l.len() - 6 - t.len()] == c[1]);
    assert(l.subrange(l.len() - 5, l.len() as int) =~= z);
}

/// The bookmark-file lines for a run of entries.
pub open spec fn html_lines(es: Seq<HistoryEntryView>) -> Seq<char>
    decreases es.len(),
{
    if es.len() == 0 {
        Seq::empty()
    } else {
        html_lines(es.drop_last()) + html_line(es.last())
    }
}

proof fn lemma_html_lines_append(a: Seq<HistoryEntryView>, b: Seq<HistoryEntryView>)
    ensures
        html_lines(a + b) == html_lines(a) + html_lines(b),
    decreases b.len(),
{
    if b.len() == 0 {
        assert(a + b =~= a);
        assert(html_lines(a) + html_lines(b) =~= html_lines(a));
    } else {
        lemma_html_lines_append(a, b.drop_last());
        assert((a + b).drop_last() =~= a + b.drop_last());
        assert((a + b).last() == b.last());
        assert(html_lines(a) + html_lines(b) =~= html_lines(a) + html_lines(b.drop_last()) + html_line(b.last()));
    }
}

/// The exported lines are the entries' lines in order: the line of entry
/// `k` stands between the lines of the entries before it and those after
/// it.
pub proof fn law_html_lines_in_order(es: Seq<HistoryEntryView>, k: int)
    requires
        0 <= k < es.len(),
    ensures
        html_lines(es) == html_lines(es.take(k)) + html_line(es[k]) + html_lines(es.skip(k + 1)),
{
    let a = es.take(k);
    let m = seq![es[k]];
    let b = es.skip(k + 1);
    assert(es =~= a + m + b);
    lemma_html_lines_append(a + m, b);
    lemma_html_lines_append(a, m);
    assert(m.drop_last() =~= Seq::<HistoryEntryView>::empty());
    assert(html_lines(Seq::<HistoryEntryView>::empty()) == Seq::<char>::empty());
    assert(m.last() == es[k]);
    assert(html_lines(m) =~= html_line(es[k]));
}

/// Header of the exported bookmark file.
pub open spec fn html_head() -> Seq<char> {
    "<!DOCTYPE NETSCAPE-Bookmark-file-1>\n"@ + "<!-- This is an automatically generated file.\n"@
        + "     It will be read and overwritten.\n"@ + "     DO NOT EDIT! -->\n"@
        + "<META HTTP-EQUIV=\"Content-Type\" CONTENT=\"text/html; charset=UTF-8\">\n"@
        + "<TITLE>Bookmarks</TITLE>\n"@ + "<H1>Bookmarks</H1>\n"@ + "<DL><p>\n"@
        + "    <DT><H3 ADD_DATE=\"0\" LAST_MODIFIED=\"0\">History</H3>\n"@ + "    <DL><p>\n"@
}

/// Footer of the exported bookmark file.
pub open spec fn html_tail() -> Seq<char> {
    "    </DL><p>\n"@ + "</DL><p>\n"@
}

// ----- lemmas -----

proof fn lemma_recent_hits_split(es: Seq<HistoryEntryView>, vs: Seq<VisitView>, i: int)
    requires
        0 <= i <= vs.len(),
    ensures
        recent_hits(es, vs) == recent_hits(es, vs.subrange(i, vs.len() as int)) + recent_hits(
            es,
            vs.subrange(0, i),
        ),
    decreases vs.len(),
{
    if i == 0 {
        assert(vs.subrange(0, vs.len() as int) =~= vs);
        assert(recent_hits(es, vs.subrange(0, 0)) =~= Seq::<HistoryEntryView>::empty());
        assert(recent_hits(es, vs) + Seq::<HistoryEntryView>::empty() =~= recent_hits(es, vs));
    } else {
        let df = vs.drop_first();
        lemma_recent_hits_split(es, df, i - 1);
        assert(df.subrange(i - 1, df.len() as int) =~= vs.subrange(i, vs.len() as int));
        assert(vs.subrange(0, i).drop_first() =~= df.subrange(0, i - 1));
        assert(vs.subrange(0, i)[0] == vs[0]);
        let h = match lookup(es, vs[0].url) {
            Some(e) => seq![e],
            None => Seq::<HistoryEntryView>::empty(),
        };
        assert(recent_hits(es, vs) == recent_hits(es, df) + h);
        assert(recent_hits(es, vs.subrange(0, i)) == recent_hits(es, df.subrange(0, i - 1)) + h);
        assert((recent_hits(es, vs.subrange(i, vs.len() as int)) + recent_hits(es, df.subrange(0, i - 1))) + h
            =~= recent_hits(es, vs.subrange(i, vs.len() as int)) + (recent_hits(es, df.subrange(0, i - 1)) + h));
    }
}

pub proof fn lemma_insert_desc<A>(s: Seq<A>, e: A, key: spec_fn(A) -> int, j: int)
    requires
        0 <= j <= s.len(),
        forall|k: int| j <= k < s.len() ==> key(#[trigger] s[k]) < key(e),
        j == 0 || key(s[j - 1]) >= key(e),
    ensures
        insert_desc(s, e, key) == s.insert(j, e),
    decreases s.len(),
{
    if s.len() == 0 {
        assert(s.insert(j, e) =~= seq![e]);
    } else if key(s.last()) >= key(e) {
        assert(j == s.len());
        assert(s.insert(j, e) =~= s.push(e));
    } else {
        let dl = s.drop_last();
        assert forall|k: int| j <= k < dl.len() implies key(#[trigger] dl[k]) < key(e) by {
            assert(dl[k] == s[k]);
        }
        if j > 0 {
            assert(dl[j - 1] == s[j - 1]);
        }
        lemma_insert_desc(dl, e, key, j);
        assert(dl.insert(j, e).push(s.last()) =~= s.insert(j, e));
    }
}

proof fn lemma_url_index(es: Seq<HistoryEntryView>, i: int)
    requires
        distinct_urls(es),
        0 <= i < es.len(),
    ensures
        has_url(es, es[i].url),
        url_index(es, es[i].url) == i,
        lookup(es, es[i].url) == Some(es[i]),
{
    assert(has_url(es, es[i].url));
}

proof fn lemma_sorted_distinct(es: Seq<HistoryEntryView>)
    requires
        sorted_urls(es),
    ensures
        distinct_urls(es),
{
    assert forall|i: int, j: int|
        0 <= i < es.len() && 0 <= j < es.len() && i != j implies (#[trigger] es[i]).url != (
        #[trigger] es[j]).url by {
        lemma_seq_lt_order(es[i].url, es[j].url, es[j].url);
    }
}

proof fn lemma_url_split_unique(es: Seq<HistoryEntryView>, u: Seq<char>, p: int)
    requires
        is_url_split(es, u, p),
    ensures
        url_split(es, u) == p,
{
    let q = url_split(es, u);
    assert(is_url_split(es, u, q));
    if q < p {
        assert(seq_lt(es[q].url, u));
    } else if p < q {
        assert(seq_lt(es[p].url, u));
    }
}

proof fn lemma_upsert_sorted(es: Seq<HistoryEntryView>, e: HistoryEntryView, p: int)
    requires
        sorted_urls(es),
        is_url_split(es, e.url, p),
    ensures
        sorted_urls(upsert(es, e)),
        has_url(es, e.url) <==> (p < es.len() && es[p].url == e.url),
        has_url(upsert(es, e), e.url),
        lookup(upsert(es, e), e.url) == Some(e),
        forall|w: Seq<char>| w != e.url ==> lookup(upsert(es, e), w) == lookup(es, w),
{
    lemma_sorted_distinct(es);
    lemma_url_split_unique(es, e.url, p);
    let u = e.url;
    if has_url(es, u) {
        let k = url_index(es, u);
        if k < p {
            lemma_seq_lt_order(u, u, u);
        } else if k > p {
            assert(seq_lt(es[p].url, es[k].url));
        }
    }
    let r = upsert(es, e);
    if p < es.len() && es[p].url == u {
        lemma_url_index(es, p);
        assert forall|i: int, j: int| 0 <= i < j < r.len() implies seq_lt(
            (#[trigger] r[i]).url,
            (#[trigger] r[j]).url,
        ) by {
            assert(r[i].url == es[i].url && r[j].url == es[j].url);
        }
        lemma_sorted_distinct(r);
        lemma_url_index(r, p);
        assert forall|w: Seq<char>| w != u implies lookup(r, w) == lookup(es, w) by {
            if has_url(es, w) {
                let m = url_index(es, w);
                assert(r[m] == es[m]);
                lemma_url_index(r, m);
            } else if has_url(r, w) {
                let m = url_index(r, w);
                assert(r[m] == es[m]);
            }
        }
    } else {
        assert(!has_url(es, u));
        assert forall|i: int, j: int| 0 <= i < j < r.len() implies seq_lt(
            (#[trigger] r[i]).url,
            (#[trigger] r[j]).url,
        ) by {
            if j < p {
                assert(r[i] == es[i] && r[j] == es[j]);
            } else if j == p {
                assert(r[i] == es[i]);
            } else if i < p {
                assert(r[i] == es[i] && r[j] == es[j - 1]);
                lemma_seq_lt_order(es[i].url, u, es[j - 1].url);
                lemma_seq_lt_order(u, es[j - 1].url, es[j - 1].url);
                assert(es[j - 1].url != u);
                if j - 1 >= p {
                    assert(!seq_lt(es[j - 1].url, u));
                }
                lemma_seq_lt_order(es[i].url, es[j - 1].url, es[j - 1].url);
            } else if i == p {
                assert(r[j] == es[j - 1]);
                assert(es[j - 1].url != u);
                assert(!seq_lt(es[j - 1].url, u));
                lemma_seq_lt_order(u, es[j - 1].url, es[j - 1].url);
            } else {
                assert(r[i] == es[i - 1] && r[j] == es[j - 1]);
            }
        }
        lemma_sorted_distinct(r);
        lemma_url_index(r, p);
        assert forall|w: Seq<char>| w != u implies lookup(r, w) == lookup(es, w) by {
            if has_url(es, w) {
                let m = url_index(es, w);
                let mm = if m < p { m } else { m + 1 };
                assert(r[mm] == es[m]);
                lemma_url_index(r, mm);
            } else if has_url(r, w) {
                let m = url_index(r, w);
                if m != p {
                    let mm = if m < p { m } else { m - 1 };
                    assert(r[m] == es[mm]);
                }
            }
        }
    }
}

proof fn lemma_remove_url_sorted(es: Seq<HistoryEntryView>, u: Seq<char>)
    requires
        sorted_urls(es),
    ensures
        sorted_urls(remove_url(es, u)),
        !has_url(remove_url(es, u), u),
        forall|w: Seq<char>| w != u ==> lookup(remove_url(es, u), w) == lookup(es, w),
{
    lemma_sorted_distinct(es);
    let r = remove_url(es, u);
    if has_url(es, u) {
        let k = url_index(es, u);
        assert forall|i: int, j: int| 0 <= i < j < r.len() implies seq_lt(
            (#[trigger] r[i]).url,
            (#[trigger] r[j]).url,
        ) by {
            let ii = if i < k { i } else { i + 1 };
            let jj = if j < k { j } else { j + 1 };
            assert(r[i] == es[ii] && r[j] == es[jj]);
        }
        assert forall|i: int| 0 <= i < r.len() implies (#[trigger] r[i]).url != u by {
            let ii = if i < k { i } else { i + 1 };
            assert(r[i] == es[ii]);
        }
        lemma_sorted_distinct(r);
        assert forall|w: Seq<char>| w != u implies lookup(r, w) == lookup(es, w) by {
            if has_url(es, w) {
                let m = url_index(es, w);
                let mm = if m < k { m } else { m - 1 };
                assert(r[mm] == es[m]);
                lemma_url_index(r, mm);
            } else {
                if has_url(r, w) {
                    let m = url_index(r, w);
                    let mm = if m < k { m } else { m + 1 };
                    assert(r[m] == es[mm]);
                }
            }
        }
    }
}

proof fn lemma_split_unique(vs: Seq<VisitView>, t: u128, p: int)
    requires
        is_split(vs, t, p),
    ensures
        split_point(vs, t) == p,
{
    let q = split_point(vs, t);
    assert(is_split(vs, t, q));
    if q < p {
        assert(vs[q].timestamp < t);
    } else if p < q {
        assert(vs[p].timestamp < t);
    }
}

proof fn lemma_url_split_exists(es: Seq<HistoryEntryView>, u: Seq<char>)
    requires
        sorted_urls(es),
    ensures
        is_url_split(es, u, url_split(es, u)),
    decreases es.len(),
{
    if es.len() == 0 {
        assert(is_url_split(es, u, 0));
    } else if seq_lt(es.last().url, u) {
        assert(is_url_split(es, u, es.len() as int)) by {
            assert forall|k: int| 0 <= k < es.len() implies seq_lt((#[trigger] es[k]).url, u) by {
                if k < es.len() - 1 {
                    assert(seq_lt(es[k].url, es[es.len() - 1].url));
                    lemma_seq_lt_order(es[k].url, es[es.len() - 1].url, u);
                }
            }
        }
    } else {
        let d = es.drop_last();
        assert(sorted_urls(d)) by {
            assert forall|a: int, b: int| 0 <= a < b < d.len() implies seq_lt((#[trigger] d[a]).url, (#[trigger] d[b]).url) by {
                assert(d[a] == es[a] && d[b] == es[b]);
            }
        }
        lemma_url_split_exists(d, u);
        let p = url_split(d, u);
        assert(is_url_split(es, u, p)) by {
            assert forall|k: int| p <= k < es.len() implies !seq_lt((#[trigger] es[k]).url, u) by {
                if k < es.len() - 1 {
                    assert(d[k] == es[k]);
                }
            }
            assert forall|k: int| 0 <= k < p implies seq_lt((#[trigger] es[k]).url, u) by {
                assert(d[k] == es[k]);
            }
        }
    }
}

/// A repeated visit of a stored URL counts one more visit and keeps the
/// entry's identifier and URL; storing it replaces the entry, which is
/// then found under the URL.
pub proof fn law_revisit_counts(es: Seq<HistoryEntryView>, e: HistoryEntryView, now: i128)
    requires
        sorted_urls(es),
        lookup(es, e.url) matches Some(x) && x.visit_count < u32::MAX,
    ensures
        visited_entry(es, e, now).visit_count == lookup(es, e.url).unwrap().visit_count + 1,
        visited_entry(es, e, now).id == lookup(es, e.url).unwrap().id,
        visited_entry(es, e, now).url == e.url,
        visited_entry(es, e, now).visit_time == now,
        lookup(upsert(es, visited_entry(es, e, now)), e.url) == Some(visited_entry(es, e, now)),
        upsert(es, visited_entry(es, e, now)).len() == es.len(),
{
    let fin = visited_entry(es, e, now);
    let i = url_index(es, e.url);
    assert(es[i].url == e.url);
    assert(fin.url == e.url);
    lemma_url_split_exists(es, e.url);
    lemma_upsert_sorted(es, fin, url_split(es, e.url));
}

/// Deleting a URL removes its entry and leaves the entries of every other
/// URL as they were.
pub proof fn law_delete_removes(es: Seq<HistoryEntryView>, u: Seq<char>, w: Seq<char>)
    requires
        sorted_urls(es),
    ensures
        sorted_urls(remove_url(es, u)),
        lookup(remove_url(es, u), u) is None,
        w != u ==> lookup(remove_url(es, u), w) == lookup(es, w),
{
    lemma_remove_url_sorted(es, u);
}

/// The values of a sequence of entries.
pub open spec fn entry_views(v: Seq<HistoryEntry>) -> Seq<HistoryEntryView> {
    v.map_values(|e: HistoryEntry| e@)
}

/// The values of a sequence of visit records.
pub open spec fn visit_views(v: Seq<VisitRecord>) -> Seq<VisitView> {
    v.map_values(|r: VisitRecord| r@)
}

/// The values of a sequence of favicons, as (URL, bytes) pairs.
pub open spec fn favicon_views(v: Seq<Favicon>) -> Seq<(Seq<char>, Seq<u8>)> {
    v.map_values(|f: Favicon| (f.url@, f.data@))
}

/// No two pairs share a key.
pub open spec fn distinct_keys(fs: Seq<(Seq<char>, Seq<u8>)>) -> bool {
    forall|i: int, j: int|
        0 <= i < fs.len() && 0 <= j < fs.len() && i != j ==> (#[trigger] fs[i]).0 != (#[trigger] fs[j]).0
}

// ----- the store -----

/// Browser history: one entry per URL, a chronological index of visits and
/// stored favicons, with a configurable size limit and privacy mode.
pub struct HistoryManager {
    entries: Vec<HistoryEntry>,
    visits: Vec<VisitRecord>,
    favicons: Vec<Favicon>,
    config: HistoryConfig,
    privacy_mode: bool,
    entry_count: u64,
}

impl HistoryManager {
    /// The entries, in storage order.
    pub closed spec fn entries(&self) -> Seq<HistoryEntryView> {
        entry_views(self.entries@)
    }

    /// The visit index, oldest first.
    pub closed spec fn visits(&self) -> Seq<VisitView> {
        visit_views(self.visits@)
    }

    /// The stored favicons, as (URL, bytes) pairs.
    pub closed spec fn favicons(&self) -> Seq<(Seq<char>, Seq<u8>)> {
        favicon_views(self.favicons@)
    }

    /// The maintained entry counter.
    pub closed spec fn count(&self) -> u64 {
        self.entry_count
    }

    /// Whether visits are currently refused.
    pub closed spec fn private(&self) -> bool {
        self.privacy_mode
    }

    /// The configured entry limit.
    pub closed spec fn max_entries(&self) -> usize {
        self.config.max_entries
    }

    /// The store's invariant: one entry per URL, one visit per timestamp in
    /// increasing order, one favicon per URL.
    pub closed spec fn wf(&self) -> bool {
        &&& sorted_urls(self.entries())
        &&& sorted_visits(self.visits())
        &&& distinct_keys(self.favicons())
    }

    /// The rows a store hands out (entries, visits and favicons) are in
    /// the order that [`HistoryManager::from_parts`] accepts, so rebuilding
    /// from them gives back the same store contents.
    pub proof fn law_rows_rebuild(&self)
        requires
            self.wf(),
        ensures
            sorted_urls(self.entries()),
            sorted_visits(self.visits()),
            distinct_keys(self.favicons()),
    {
    }

    /// An empty store with the given configuration.
    pub fn new(config: HistoryConfig) -> (m: Self)
        ensures
            m.wf(),
            m.entries().len() == 0,
            m.visits().len() == 0,
            m.favicons().len() == 0,
            m.count() == 0,
            !m.private(),
            m.max_entries() == config.max_entries,
    {
        let m = HistoryManager {
            entries: Vec::new(),
            visits: Vec::new(),
            favicons: Vec::new(),
            config,
            privacy_mode: false,
            entry_count: 0,
        };
        assert(m.entries() =~= Seq::<HistoryEntryView>::empty());
        assert(m.visits() =~= Seq::<VisitView>::empty());
        m
    }

    /// Current value of the entry counter.
    pub fn entry_count(&self) -> (r: u64)
        ensures
            r == self.count(),
    {
        self.entry_count
    }

    /// Turn privacy mode on or off (while on, visits are not recorded).
    pub fn set_privacy_mode(&mut self, enabled: bool)
        ensures
            final(self).private() == enabled,
            final(self).entries() == old(self).entries(),
            final(self).visits() == old(self).visits(),
            final(self).favicons() == old(self).favicons(),
            final(self).count() == old(self).count(),
            final(self).max_entries() == old(self).max_entries(),
            final(self).wf() == old(self).wf(),
    {
        self.privacy_mode = enabled;
    }

    /// Whether privacy mode is on.
    pub fn is_privacy_mode(&self) -> (r: bool)
        ensures
            r == self.private(),
    {
        self.privacy_mode
    }

    fn find_url(&self, url: &str) -> (r: Option<usize>)
        requires
            self.wf(),
        ensures
            match r {
                Some(i) => i < self.entries().len() && self.entries()[i as int].url == url@
                    && url_index(self.entries(), url@) == i && lookup(self.entries(), url@)
                    == Some(self.entries()[i as int]),
                None => !has_url(self.entries(), url@) && lookup(self.entries(), url@) is None,
            },
    {
        let mut i: usize = 0;
        while i < self.entries.len()
            invariant
                self.wf(),
                i <= self.entries@.len(),
                forall|k: int| 0 <= k < i ==> (#[trigger] self.entries@[k])@.url != url@,
            decreases self.entries.len() - i,
        {
            if str_eq(self.entries[i].url.as_str(), url) {
                proof {
                    lemma_sorted_distinct(self.entries());
                    lemma_url_index(self.entries(), i as int);
                }
                return Some(i);
            }
            i = i + 1;
        }
        assert(!has_url(self.entries(), url@)) by {
            if has_url(self.entries(), url@) {
                let k = choose|k: int|
                    0 <= k < self.entries().len() && (#[trigger] self.entries()[k]).url == url@;
                assert(self.entries@[k]@.url == url@);
            }
        }
        None
    }

    fn store_entry(&mut self, e: HistoryEntry)
        requires
            old(self).wf(),
        ensures
            final(self).wf(),
            final(self).entries() == upsert(old(self).entries(), e@),
            final(self).visits() == old(self).visits(),
            final(self).favicons() == old(self).favicons(),
            final(self).count() == old(self).count(),
            final(self).private() == old(self).private(),
            final(self).max_entries() == old(self).max_entries(),
    {
        let ghost es = self.entries();
        let ghost ev = e@;
        let mut p: usize = 0;
        while p < self.entries.len() && str_lt(self.entries[p].url.as_str(), e.url.as_str())
            invariant
                es == self.entries(),
                ev == e@,
                sorted_urls(es),
                p <= es.len(),
                forall|i: int| 0 <= i < p ==> seq_lt((#[trigger] es[i]).url, ev.url),
            decreases self.entries.len() - p,
        {
            p = p + 1;
        }
        assert(is_url_split(es, ev.url, p as int)) by {
            assert forall|i: int| p <= i < es.len() implies !seq_lt((#[trigger] es[i]).url, ev.url) by {
                if i > p && seq_lt(es[i].url, ev.url) {
                    assert(seq_lt(es[p as int].url, es[i].url));
                    lemma_seq_lt_order(es[p as int].url, es[i].url, ev.url);
                }
            }
        }
        proof {
            lemma_upsert_sorted(es, ev, p as int);
        }
        if p < self.entries.len() && str_eq(self.entries[p].url.as_str(), e.url.as_str()) {
            proof {
                lemma_sorted_distinct(es);
                lemma_url_index(es, p as int);
            }
            self.entries.set(p, e);
            assert(self.entries() =~= es.update(p as int, ev));
            assert(has_url(es, ev.url));
            assert(url_index(es, ev.url) == p as int);
            assert(self.entries() == upsert(es, ev));
        } else {
            self.entries.insert(p, e);
            assert(self.entries() =~= es.insert(p as int, ev));
            assert(!has_url(es, ev.url));
            proof {
                lemma_url_split_unique(es, ev.url, p as int);
            }
            assert(self.entries() == upsert(es, ev));
        }
        assert(sorted_urls(self.entries()));
    }

    fn drop_entry(&mut self, url: &str) -> (existed: bool)
        requires
            old(self).wf(),
        ensures
            final(self).wf(),
            existed == has_url(old(self).entries(), url@),
            final(self).entries() == remove_url(old(self).entries(), url@),
            final(self).visits() == old(self).visits(),
            final(self).favicons() == old(self).favicons(),
            final(self).count() == old(self).count(),
            final(self).private() == old(self).private(),
            final(self).max_entries() == old(self).max_entries(),
    {
        proof {
            lemma_remove_url_sorted(self.entries(), url@);
        }
        let ghost es = self.entries();
        match self.find_url(url) {
            Some(i) => {
                self.entries.remove(i);
                assert(self.entries() =~= es.remove(i as int));
                true
            },
            None => false,
        }
    }

    fn store_visit(&mut self, r: VisitRecord)
        requires
            old(self).wf(),
        ensures
            final(self).wf(),
            final(self).visits() == visits_insert(old(self).visits(), r@),
            final(self).entries() == old(self).entries(),
            final(self).favicons() == old(self).favicons(),
            final(self).count() == old(self).count(),
            final(self).private() == old(self).private(),
            final(self).max_entries() == old(self).max_entries(),
    {
        let ghost vs = self.visits();
        let ghost rv = r@;
        let t = r.timestamp;
        let mut p: usize = 0;
        while p < self.visits.len() && self.visits[p].timestamp < t
            invariant
                vs == self.visits(),
                sorted_visits(vs),
                p <= vs.len(),
                forall|i: int| 0 <= i < p ==> (#[trigger] vs[i]).timestamp < t,
            decreases self.visits.len() - p,
        {
            p = p + 1;
        }
        assert(is_split(vs, t, p as int)) by {
            assert forall|i: int| p <= i < vs.len() implies (#[trigger] vs[i]).timestamp >= t by {
                if i > p {
                    assert(vs[p as int].timestamp < vs[i].timestamp);
                }
            }
        }
        proof {
            lemma_split_unique(vs, t, p as int);
        }
        if p < self.visits.len() && self.visits[p].timestamp == t {
            self.visits.set(p, r);
            assert(self.visits() =~= vs.update(p as int, rv));
            let ghost nv = self.visits();
            assert forall|i: int, j: int| 0 <= i < j < nv.len() implies (#[trigger] nv[i]).timestamp
                < (#[trigger] nv[j]).timestamp by {
                assert(vs[i].timestamp < vs[j].timestamp);
            }
        } else {
            self.visits.insert(p, r);
            assert(self.visits() =~= vs.insert(p as int, rv));
            let ghost nv = self.visits();
            assert forall|i: int, j: int| 0 <= i < j < nv.len() implies (#[trigger] nv[i]).timestamp
                < (#[trigger] nv[j]).timestamp by {
                if j < p {
                    assert(nv[j] == vs[j] && nv[i] == vs[i]);
                } else if j == p {
                    assert(nv[i] == vs[i]);
                } else if i < p {
                    assert(nv[i] == vs[i]);
                    assert(nv[j] == vs[j - 1]);
                } else if i == p {
                    assert(nv[j] == vs[j - 1]);
                } else {
                    assert(nv[j] == vs[j - 1] && nv[i] == vs[i - 1]);
                }
            }
        }
    }

    /// Drop the oldest visits, and the entries they name, while the entry
    /// counter exceeds the configured limit.
    fn maybe_prune_old_entries(&mut self)
        requires
            old(self).wf(),
        ensures
            final(self).wf(),
            ({
                let m = prune_len(old(self).count(), old(self).max_entries(), old(self).visits().len());
                &&& final(self).visits() == old(self).visits().skip(m as int)
                &&& final(self).entries() == remove_urls(
                    old(self).entries(),
                    visit_urls(old(self).visits().take(m as int)),
                )
                &&& final(self).count() == old(self).count() - m
            }),
            final(self).favicons() == old(self).favicons(),
            final(self).private() == old(self).private(),
            final(self).max_entries() == old(self).max_entries(),
    {
        let ghost vs = self.visits();
        let ghost es = self.entries();
        let ghost m = prune_len(self.entry_count, self.config.max_entries, vs.len());
        let max = self.config.max_entries as u64;
        if self.entry_count > max {
            let to_remove = self.entry_count - max;
            let mut removed: u64 = 0;
            let mut n: usize = 0;
            while n < self.visits.len() && removed < to_remove
                invariant
                    vs == self.visits(),
                    es == self.entries(),
                    n <= vs.len(),
                    removed == n,
                    removed <= to_remove,
                decreases self.visits.len() - n,
            {
                removed = removed + 1;
                n = n + 1;
            }
            assert(n == m);
            let mut i: usize = 0;
            while i < n
                invariant
                    self.wf(),
                    i <= n,
                    n <= vs.len(),
                    vs == self.visits(),
                    self.entries() == remove_urls(es, visit_urls(vs.take(i as int))),
                    self.favicons() == old(self).favicons(),
                    self.count() == old(self).count(),
                    self.private() == old(self).private(),
                    self.max_entries() == old(self).max_entries(),
                decreases n - i,
            {
                let u = self.visits[i].url.clone();
                self.drop_entry(u.as_str());
                assert(visit_urls(vs.take(i + 1)).drop_last() =~= visit_urls(vs.take(i as int)));
                assert(visit_urls(vs.take(i + 1)).last() == vs[i as int].url);
                i = i + 1;
            }
            let ghost before = self.visits@;
            let rest = self.visits.split_off(n);
            self.visits = rest;
            assert(self.visits() =~= vs.skip(n as int));
            self.entry_count = self.entry_count - removed;
        } else {
            assert(vs.take(0) =~= Seq::<VisitView>::empty());
            assert(visit_urls(vs.take(0)) =~= Seq::<Seq<char>>::empty());
            assert(vs.skip(0) =~= vs);
        }
    }

    /// Record a visit. A URL seen before gets one more visit, the time `now`,
    /// the new title and metadata and, if given, the new favicon; a new URL is
    /// stored as given. The visit is indexed under the entry's visit time, and
    /// the oldest visits are pruned while the counter exceeds the limit.
    /// In privacy mode nothing is recorded.
    pub fn add_visit_at(&mut self, entry: HistoryEntry, now: i128) -> (r: Result<HistoryEntry, HistoryError>)
        requires
            old(self).wf(),
            !old(self).private() ==> (lookup(old(self).entries(), entry@.url) matches Some(x) ==> x.visit_count < u32::MAX),
            !old(self).private() ==> (lookup(old(self).entries(), entry@.url) is None ==> old(self).count() < u64::MAX),
        ensures
            final(self).wf(),
            old(self).private() ==> (r matches Err(HistoryError::PrivacyModeActive)
                && final(self).entries() == old(self).entries()
                && final(self).visits() == old(self).visits()
                && final(self).count() == old(self).count()),
            !old(self).private() ==> recorded_visit(*old(self), *final(self), entry@, now, r),
            final(self).favicons() == old(self).favicons(),
            final(self).private() == old(self).private(),
            final(self).max_entries() == old(self).max_entries(),
    {
        if self.privacy_mode {
            return Err(HistoryError::PrivacyModeActive);
        }
        let existing = self.find_url(entry.url.as_str());
        let fin = match existing {
            Some(i) => {
                let mut x = self.entries[i].duplicate();
                x.visit_count = x.visit_count + 1;
                x.visit_time = now;
                x.title = entry.title;
                if entry.favicon_url.is_some() {
                    x.favicon_url = entry.favicon_url;
                }
                x.metadata = entry.metadata;
                x
            },
            None => entry,
        };
        let rec = VisitRecord { url: fin.url.clone(), timestamp: time_to_key(fin.visit_time), entry_id: fin.id };
        let result = fin.duplicate();
        self.store_entry(fin);
        self.store_visit(rec);
        if existing.is_none() {
            self.entry_count = self.entry_count + 1;
        }
        self.maybe_prune_old_entries();
        Ok(result)
    }

    /// Record a visit at the current time (see [`HistoryManager::add_visit_at`]).
    pub fn add_visit(&mut self, entry: HistoryEntry) -> (r: Result<HistoryEntry, HistoryError>)
        requires
            old(self).wf(),
            !old(self).private() ==> (lookup(old(self).entries(), entry@.url) matches Some(x) ==> x.visit_count < u32::MAX),
            !old(self).private() ==> (lookup(old(self).entries(), entry@.url) is None ==> old(self).count() < u64::MAX),
        ensures
            final(self).wf(),
            old(self).private() ==> (r matches Err(HistoryError::PrivacyModeActive)
                && final(self).entries() == old(self).entries()
                && final(self).visits() == old(self).visits()
                && final(self).count() == old(self).count()),
            !old(self).private() ==> exists|now: i128| #[trigger] recorded_visit(*old(self), *final(self), entry@, now, r),
            final(self).favicons() == old(self).favicons(),
            final(self).private() == old(self).private(),
            final(self).max_entries() == old(self).max_entries(),
    {
        let now = now_nanos();
        self.add_visit_at(entry, now)
    }

    /// All entries, in storage order.
    pub fn get_all_entries(&self) -> (r: Vec<HistoryEntry>)
        ensures
            entry_views(r@) == self.entries(),
    {
        let mut r: Vec<HistoryEntry> = Vec::new();
        let mut i: usize = 0;
        while i < self.entries.len()
            invariant
                i <= self.entries@.len(),
                r@.len() == i,
                entry_views(r@) == self.entries().take(i as int),
            decreases self.entries.len() - i,
        {
            let ghost prev = r@;
            let x = self.entries[i].duplicate();
            r.push(x);
            assert(r@ == prev.push(x));
            assert(x@ == self.entries()[i as int]);
            assert forall|k: int| 0 <= k < r@.len() implies entry_views(r@)[k] == self.entries().take(i + 1)[k] by {
                if k < i {
                    assert(r@[k] == prev[k]);
                    assert(entry_views(prev)[k] == self.entries().take(i as int)[k]);
                }
            }
            i = i + 1;
            assert(entry_views(r@) =~= self.entries().take(i as int));
        }
        assert(self.entries().take(i as int) =~= self.entries());
        r
    }

    /// The first entry, in storage order, with the given identifier.
    pub fn get_entry_by_id(&self, id: u128) -> (r: Option<HistoryEntry>)
        ensures
            match r {
                Some(e) => exists|i: int|
                    0 <= i < self.entries().len() && self.entries()[i] == e@ && e@.id == id && (
                    forall|k: int| 0 <= k < i ==> (#[trigger] self.entries()[k]).id != id),
                None => forall|k: int| 0 <= k < self.entries().len() ==> (#[trigger] self.entries()[k]).id != id,
            },
    {
        let mut i: usize = 0;
        while i < self.entries.len()
            invariant
                i <= self.entries@.len(),
                forall|k: int| 0 <= k < i ==> (#[trigger] self.entries()[k]).id != id,
            decreases self.entries.len() - i,
        {
            if self.entries[i].id == id {
                let e = self.entries[i].duplicate();
                assert(self.entries()[i as int] == e@);
                return Some(e);
            }
            i = i + 1;
        }
        None
    }

    /// Remove the entry for a URL; true when there was one. The counter
    /// drops by one (not below zero) when an entry was removed; the visit
    /// index is left as it is.
    pub fn delete_by_url(&mut self, url: &str) -> (deleted: bool)
        requires
            old(self).wf(),
        ensures
            final(self).wf(),
            deleted == has_url(old(self).entries(), url@),
            final(self).entries() == remove_url(old(self).entries(), url@),
            !has_url(final(self).entries(), url@),
            final(self).visits() == old(self).visits(),
            final(self).favicons() == old(self).favicons(),
            final(self).count() == if deleted {
                if old(self).count() > 0 { (old(self).count() - 1) as u64 } else { 0 }
            } else {
                old(self).count()
            },
            final(self).private() == old(self).private(),
            final(self).max_entries() == old(self).max_entries(),
    {
        proof {
            lemma_remove_url_sorted(self.entries(), url@);
        }
        let deleted = self.drop_entry(url);
        if deleted {
            self.entry_count = self.entry_count.saturating_sub(1);
        }
        deleted
    }

    /// Remove every entry and every visit (favicons stay); the counter
    /// becomes zero.
    pub fn clear_all(&mut self)
        requires
            old(self).wf(),
        ensures
            final(self).wf(),
            final(self).entries().len() == 0,
            final(self).visits().len() == 0,
            final(self).count() == 0,
            final(self).favicons() == old(self).favicons(),
            final(self).private() == old(self).private(),
            final(self).max_entries() == old(self).max_entries(),
    {
        self.entries = Vec::new();
        self.visits = Vec::new();
        self.entry_count = 0;
        assert(self.entries() =~= Seq::<HistoryEntryView>::empty());
        assert(self.visits() =~= Seq::<VisitView>::empty());
    }

    /// Up to `limit` entries for the most recent visits, newest first.
    pub fn get_recent(&self, limit: usize) -> (r: Vec<HistoryEntry>)
        requires
            self.wf(),
        ensures
            entry_views(r@) == recent_hits(self.entries(), self.visits()).take(
                if limit < recent_hits(self.entries(), self.visits()).len() { limit as int }
                else { recent_hits(self.entries(), self.visits()).len() as int },
            ),
    {
        let ghost es = self.entries();
        let ghost vs = self.visits();
        let mut r: Vec<HistoryEntry> = Vec::new();
        let mut i: usize = self.visits.len();
        while i > 0 && r.len() < limit
            invariant
                self.wf(),
                es == self.entries(),
                vs == self.visits(),
                i <= vs.len(),
                r@.len() <= limit,
                entry_views(r@) == recent_hits(es, vs.subrange(i as int, vs.len() as int)),
            decreases i,
        {
            i = i - 1;
            let ghost prev = entry_views(r@);
            match self.find_url(self.visits[i].url.as_str()) {
                Some(k) => {
                    r.push(self.entries[k].duplicate());
                },
                None => {},
            }
            assert(vs.subrange(i as int, vs.len() as int).drop_first() =~= vs.subrange(i + 1, vs.len() as int));
            assert(vs.subrange(i as int, vs.len() as int)[0] == vs[i as int]);
            assert(entry_views(r@) =~= recent_hits(es, vs.subrange(i as int, vs.len() as int)));
        }
        proof {
            lemma_recent_hits_split(es, vs, i as int);
            let all = recent_hits(es, vs);
            let got = entry_views(r@);
            if i == 0 {
                assert(vs.subrange(0, vs.len() as int) =~= vs);
                assert(recent_hits(es, vs.subrange(0, 0)) =~= Seq::<HistoryEntryView>::empty());
                assert(all =~= got);
            }
            assert(all.take(got.len() as int) =~= got);
        }
        r
    }

    /// Entries for the visits indexed from time `start` to time `end` (both
    /// inclusive, by their index keys), oldest first; an error when
    /// `start > end`.
    pub fn get_by_time_range(&self, start: i128, end: i128) -> (r: Result<Vec<HistoryEntry>, HistoryError>)
        requires
            self.wf(),
        ensures
            start > end ==> r matches Err(HistoryError::InvalidTimeRange),
            start <= end ==> (r matches Ok(v) && entry_views(v@) == range_hits(
                self.entries(),
                self.visits(),
                visit_key(start),
                visit_key(end),
            )),
    {
        if start > end {
            return Err(HistoryError::InvalidTimeRange);
        }
        let start = time_to_key(start);
        let end = time_to_key(end);
        let ghost es = self.entries();
        let ghost vs = self.visits();
        let mut r: Vec<HistoryEntry> = Vec::new();
        let mut i: usize = 0;
        while i < self.visits.len()
            invariant
                self.wf(),
                es == self.entries(),
                vs == self.visits(),
                i <= vs.len(),
                entry_views(r@) == range_hits(es, vs.take(i as int), start, end),
            decreases self.visits.len() - i,
        {
            let ts = self.visits[i].timestamp;
            if start <= ts && ts <= end {
                match self.find_url(self.visits[i].url.as_str()) {
                    Some(k) => {
                        r.push(self.entries[k].duplicate());
                    },
                    None => {},
                }
            }
            assert(vs.take(i + 1).drop_last() =~= vs.take(i as int));
            assert(vs.take(i + 1).last() == vs[i as int]);
            i = i + 1;
            assert(entry_views(r@) =~= range_hits(es, vs.take(i as int), start, end));
        }
        assert(vs.take(vs.len() as int) =~= vs);
        Ok(r)
    }

    /// The entries matching a query (case-insensitive), in storage order.
    pub fn search(&self, query: &str) -> (r: Vec<HistoryEntry>)
        ensures
            entry_views(r@) == self.entries().filter(search_filter(query@)),
    {
        let q = to_lowercase(query);
        let ghost es = self.entries();
        let ghost pred = search_filter(query@);
        let mut r: Vec<HistoryEntry> = Vec::new();
        let mut i: usize = 0;
        while i < self.entries.len()
            invariant
                es == self.entries(),
                pred == search_filter(query@),
                q@ == lowercase(query@),
                i <= es.len(),
                entry_views(r@) == es.take(i as int).filter(pred),
            decreases self.entries.len() - i,
        {
            let ghost prev = r@;
            if self.entries[i].matches_query(q.as_str()) {
                let x = self.entries[i].duplicate();
                r.push(x);
                assert(entry_views(r@) =~= entry_views(prev).push(x@));
            }
            assert(es.take(i + 1).drop_last() =~= es.take(i as int));
            assert(es.take(i + 1).last() == es[i as int]);
            reveal(Seq::filter);
            i = i + 1;
            assert(entry_views(r@) =~= es.take(i as int).filter(pred));
        }
        assert(es.take(es.len() as int) =~= es);
        r
    }

    fn key_less(a: &HistoryEntry, b: &HistoryEntry, by_count: bool) -> (r: bool)
        ensures
            r == ((if by_count { count_key() } else { time_key() })(a@) < (if by_count {
                count_key()
            } else {
                time_key()
            })(b@)),
    {
        if by_count {
            a.visit_count < b.visit_count
        } else {
            a.visit_time < b.visit_time
        }
    }

    fn sort_entries_desc(v: &Vec<HistoryEntry>, by_count: bool) -> (r: Vec<HistoryEntry>)
        ensures
            entry_views(r@) == sort_desc(entry_views(v@), if by_count { count_key() } else { time_key() }),
    {
        let ghost key = if by_count { count_key() } else { time_key() };
        let ghost vv = entry_views(v@);
        let mut out: Vec<HistoryEntry> = Vec::new();
        let mut i: usize = 0;
        let n = v.len();
        assert(entry_views(out@) =~= sort_desc(vv.take(0), key));
        while i < n
            invariant
                key == (if by_count { count_key() } else { time_key() }),
                vv == entry_views(v@),
                vv.len() == n,
                i <= n,
                entry_views(out@) == sort_desc(vv.take(i as int), key),
            decreases n - i,
        {
            let x = v[i].duplicate();
            assert(x@ == vv[i as int]);
            let ghost so = entry_views(out@);
            let mut j: usize = out.len();
            while j > 0 && Self::key_less(&out[j - 1], &x, by_count)
                invariant
                    key == (if by_count { count_key() } else { time_key() }),
                    so == entry_views(out@),
                    j <= out@.len(),
                    forall|k: int| j <= k < so.len() ==> key(#[trigger] so[k]) < key(x@),
                decreases j,
            {
                j = j - 1;
            }
            assert(j == 0 || key(so[j - 1]) >= key(x@));
            proof {
                lemma_insert_desc(so, x@, key, j as int);
            }
            out.insert(j, x);
            assert(entry_views(out@) =~= so.insert(j as int, x@));
            assert(vv.take(i + 1).drop_last() =~= vv.take(i as int));
            assert(vv.take(i + 1).last() == vv[i as int]);
            i = i + 1;
        }
        assert(vv.take(n as int) =~= vv);
        out
    }

    /// Entries within the optional time bounds (inclusive) that match the
    /// optional query, most recently visited first (equal times keep storage
    /// order), cut to `limit` when one is given.
    pub fn search_advanced(
        &self,
        query: Option<&str>,
        start_time: Option<i128>,
        end_time: Option<i128>,
        limit: Option<usize>,
    ) -> (r: Vec<HistoryEntry>)
        ensures
            ({
                let q = match query { Some(s) => Some(s@), None => None };
                let sorted = sort_desc(self.entries().filter(advanced_filter(q, start_time, end_time)), time_key());
                entry_views(r@) == match limit { Some(l) => first_n(sorted, l as nat), None => sorted }
            }),
    {
        let ghost qv = match query { Some(s) => Some(s@), None => None::<Seq<char>> };
        let ghost pred = advanced_filter(qv, start_time, end_time);
        let ghost es = self.entries();
        let lq: Option<String> = match query {
            Some(q) => Some(to_lowercase(q)),
            None => None,
        };
        let mut filtered: Vec<HistoryEntry> = Vec::new();
        let mut i: usize = 0;
        while i < self.entries.len()
            invariant
                es == self.entries(),
                pred == advanced_filter(qv, start_time, end_time),
                qv == (match query { Some(s) => Some(s@), None => None::<Seq<char>> }),
                lq matches Some(l) ==> qv matches Some(q) && l@ == lowercase(q),
                lq is None ==> qv is None,
                i <= es.len(),
                entry_views(filtered@) == es.take(i as int).filter(pred),
            decreases self.entries.len() - i,
        {
            let e = &self.entries[i];
            let mut keep = true;
            match start_time {
                Some(t) => {
                    if e.visit_time < t {
                        keep = false;
                    }
                },
                None => {},
            }
            match end_time {
                Some(t) => {
                    if e.visit_time > t {
                        keep = false;
                    }
                },
                None => {},
            }
            if keep {
                match &lq {
                    Some(l) => {
                        keep = e.matches_query(l.as_str());
                    },
                    None => {},
                }
            }
            assert(keep == pred(es[i as int]));
            let ghost prev = filtered@;
            if keep {
                let x = e.duplicate();
                filtered.push(x);
                assert(entry_views(filtered@) =~= entry_views(prev).push(x@));
            }
            assert(es.take(i + 1).drop_last() =~= es.take(i as int));
            assert(es.take(i + 1).last() == es[i as int]);
            reveal(Seq::filter);
            i = i + 1;
        }
        assert(es.take(es.len() as int) =~= es);
        let mut sorted = Self::sort_entries_desc(&filtered, false);
        match limit {
            Some(l) => {
                let ghost before = entry_views(sorted@);
                sorted.truncate(l);
                assert(entry_views(sorted@) =~= first_n(before, l as nat));
            },
            None => {},
        }
        sorted
    }

    /// Up to `limit` entries with the most visits, most visited first
    /// (equal counts keep storage order).
    pub fn get_most_visited(&self, limit: usize) -> (r: Vec<HistoryEntry>)
        ensures
            entry_views(r@) == first_n(sort_desc(self.entries(), count_key()), limit as nat),
    {
        let all = self.get_all_entries();
        let mut sorted = Self::sort_entries_desc(&all, true);
        let ghost before = entry_views(sorted@);
        sorted.truncate(limit);
        assert(entry_views(sorted@) =~= first_n(before, limit as nat));
        sorted
    }

    /// Remove the entries last visited before `cutoff` and the visits
    /// indexed under their visit times; returns how many entries went. The
    /// counter drops by that number (not below zero).
    pub fn clear_before(&mut self, cutoff: i128) -> (n: u64)
        requires
            old(self).wf(),
        ensures
            final(self).wf(),
            n == old(self).entries().filter(older_than(cutoff)).len(),
            final(self).entries() == old(self).entries().filter(not_older_than(cutoff)),
            final(self).visits() == old(self).visits().filter(
                visit_kept(old(self).entries().filter(older_than(cutoff))),
            ),
            final(self).count() == if old(self).count() >= n { (old(self).count() - n) as u64 } else { 0 },
            final(self).favicons() == old(self).favicons(),
            final(self).private() == old(self).private(),
            final(self).max_entries() == old(self).max_entries(),
    {
        let ghost es = self.entries();
        let ghost vs = self.visits();
        let ghost old_p = older_than(cutoff);
        let ghost new_p = not_older_than(cutoff);
        let mut kept: Vec<HistoryEntry> = Vec::new();
        let mut times: Vec<u128> = Vec::new();
        let ghost mut deleted: Seq<HistoryEntryView> = Seq::empty();
        let mut i: usize = 0;
        while i < self.entries.len()
            invariant
                es == self.entries(),
                sorted_urls(es),
                old_p == older_than(cutoff),
                new_p == not_older_than(cutoff),
                i <= es.len(),
                entry_views(kept@) == es.take(i as int).filter(new_p),
                deleted == es.take(i as int).filter(old_p),
                times@.len() == deleted.len(),
                forall|k: int| 0 <= k < times@.len() ==> times@[k] == visit_key((#[trigger] deleted[k]).visit_time),
                sorted_urls(entry_views(kept@)),
                forall|k: int| 0 <= k < kept@.len() ==> exists|j: int| 0 <= j < i && (#[trigger] kept@[k])@ == es[j],
            decreases self.entries.len() - i,
        {
            let ghost prevk = kept@;
            let ghost prevd = deleted;
            if self.entries[i].visit_time < cutoff {
                times.push(time_to_key(self.entries[i].visit_time));
                proof {
                    deleted = deleted.push(es[i as int]);
                }
            } else {
                let x = self.entries[i].duplicate();
                kept.push(x);
                assert(entry_views(kept@) =~= entry_views(prevk).push(x@));
                let ghost kv = entry_views(kept@);
                assert forall|a: int, b: int| 0 <= a < b < kv.len() implies seq_lt(
                    (#[trigger] kv[a]).url,
                    (#[trigger] kv[b]).url,
                ) by {
                    if b == kv.len() - 1 {
                        let j = choose|j: int| 0 <= j < i && (#[trigger] prevk[a])@ == es[j];
                        assert(kv[a] == prevk[a]@);
                        assert(seq_lt(es[j].url, es[i as int].url));
                    } else {
                        assert(kv[a] == entry_views(prevk)[a] && kv[b] == entry_views(prevk)[b]);
                    }
                }
                assert forall|k: int| 0 <= k < kept@.len() implies exists|j: int| 0 <= j < i + 1 && (#[trigger] kept@[k])@ == es[j] by {
                    if k < prevk.len() {
                        assert(kept@[k] == prevk[k]);
                        let j = choose|j: int| 0 <= j < i && (#[trigger] prevk[k])@ == es[j];
                    } else {
                        assert(kept@[k]@ == es[i as int]);
                    }
                }
            }
            assert(es.take(i + 1).drop_last() =~= es.take(i as int));
            assert(es.take(i + 1).last() == es[i as int]);
            reveal(Seq::filter);
            i = i + 1;
            assert(entry_views(kept@) =~= es.take(i as int).filter(new_p));
        }
        assert(es.take(es.len() as int) =~= es);
        let ghost dl = deleted;
        let mut out: Vec<VisitRecord> = Vec::new();
        let mut j: usize = 0;
        while j < self.visits.len()
            invariant
                vs == self.visits(),
                sorted_visits(vs),
                dl == es.filter(old_p),
                times@.len() == dl.len(),
                forall|k: int| 0 <= k < times@.len() ==> times@[k] == visit_key((#[trigger] dl[k]).visit_time),
                j <= vs.len(),
                visit_views(out@) == vs.take(j as int).filter(visit_kept(dl)),
                sorted_visits(visit_views(out@)),
                forall|k: int| 0 <= k < out@.len() ==> exists|m: int| 0 <= m < j && (#[trigger] out@[k])@ == vs[m],
            decreases self.visits.len() - j,
        {
            let t = self.visits[j].timestamp;
            let mut found = false;
            let mut k: usize = 0;
            while k < times.len()
                invariant
                    times@.len() == dl.len(),
                    forall|q: int| 0 <= q < times@.len() ==> times@[q] == visit_key((#[trigger] dl[q]).visit_time),
                    k <= times@.len(),
                    found == (exists|q: int| 0 <= q < k && visit_key((#[trigger] dl[q]).visit_time) == t),
                decreases times.len() - k,
            {
                if times[k] == t {
                    assert(visit_key(dl[k as int].visit_time) == t);
                    found = true;
                }
                k = k + 1;
            }
            assert(found == has_time(dl, t));
            let ghost prevo = out@;
            if !found {
                let x = self.visits[j].duplicate();
                out.push(x);
                assert(visit_views(out@) =~= visit_views(prevo).push(x@));
                let ghost ov = visit_views(out@);
                assert forall|a: int, b: int| 0 <= a < b < ov.len() implies (#[trigger] ov[a]).timestamp
                    < (#[trigger] ov[b]).timestamp by {
                    if b == ov.len() - 1 {
                        let m = choose|m: int| 0 <= m < j && (#[trigger] prevo[a])@ == vs[m];
                        assert(ov[a] == prevo[a]@);
                        assert(vs[m].timestamp < vs[j as int].timestamp);
                    } else {
                        assert(ov[a] == visit_views(prevo)[a] && ov[b] == visit_views(prevo)[b]);
                    }
                }
                assert forall|q: int| 0 <= q < out@.len() implies exists|m: int| 0 <= m < j + 1 && (#[trigger] out@[q])@ == vs[m] by {
                    if q < prevo.len() {
                        assert(out@[q] == prevo[q]);
                        let m = choose|m: int| 0 <= m < j && (#[trigger] prevo[q])@ == vs[m];
                    } else {
                        assert(out@[q]@ == vs[j as int]);
                    }
                }
            }
            assert(vs.take(j + 1).drop_last() =~= vs.take(j as int));
            assert(vs.take(j + 1).last() == vs[j as int]);
            reveal(Seq::filter);
            j = j + 1;
            assert(visit_views(out@) =~= vs.take(j as int).filter(visit_kept(dl)));
        }
        assert(vs.take(vs.len() as int) =~= vs);
        let n = times.len() as u64;
        self.entries = kept;
        self.visits = out;
        self.entry_count = self.entry_count.saturating_sub(n);
        n
    }

    /// Remove the entries older than `age_seconds` at time `now` (see
    /// [`HistoryManager::clear_before`] and [`age_cutoff`]).
    pub fn clear_older_than_at(&mut self, age_seconds: u64, now: i128) -> (n: u64)
        requires
            old(self).wf(),
        ensures
            cleared_before(*old(self), *final(self), n, age_cutoff(age_seconds, now)),
    {
        let span: i128 = (age_seconds as i128) * 1000000000i128;
        let cutoff: i128 = if now >= i128::MIN + span { now - span } else { i128::MIN };
        self.clear_before(cutoff)
    }

    /// Remove the entries older than `age_seconds`, measured from the
    /// system clock: as [`HistoryManager::clear_older_than_at`] at the time read.
    pub fn clear_older_than(&mut self, age_seconds: u64) -> (n: u64)
        requires
            old(self).wf(),
        ensures
            exists|now: i128| #[trigger] cleared_before(*old(self), *final(self), n, age_cutoff(age_seconds, now)),
    {
        let now = now_nanos();
        self.clear_older_than_at(age_seconds, now)
    }

    /// Import entries in order: each is stored under its URL and its visit
    /// indexed under its visit time; the counter grows by the number of
    /// entries given. Returns that number.
    pub fn import_entries(&mut self, list: Vec<HistoryEntry>) -> (n: u64)
        requires
            old(self).wf(),
            old(self).count() + list@.len() <= u64::MAX,
        ensures
            final(self).wf(),
            n == list@.len(),
            ({
                let r = import_fold(old(self).entries(), old(self).visits(), entry_views(list@));
                &&& final(self).entries() == r.0
                &&& final(self).visits() == r.1
            }),
            final(self).count() == old(self).count() + list@.len(),
            final(self).favicons() == old(self).favicons(),
            final(self).private() == old(self).private(),
            final(self).max_entries() == old(self).max_entries(),
    {
        let ghost es = self.entries();
        let ghost vs = self.visits();
        let ghost lv = entry_views(list@);
        let mut i: usize = 0;
        while i < list.len()
            invariant
                self.wf(),
                lv == entry_views(list@),
                i <= list@.len(),
                (self.entries(), self.visits()) == import_fold(es, vs, lv.take(i as int)),
                self.count() == old(self).count(),
                self.favicons() == old(self).favicons(),
                self.private() == old(self).private(),
                self.max_entries() == old(self).max_entries(),
            decreases list.len() - i,
        {
            let e = list[i].duplicate();
            let rec = VisitRecord { url: e.url.clone(), timestamp: time_to_key(e.visit_time), entry_id: e.id };
            assert(rec@ == visit_of(lv[i as int]));
            self.store_entry(e);
            self.store_visit(rec);
            assert(lv.take(i + 1).drop_last() =~= lv.take(i as int));
            assert(lv.take(i + 1).last() == lv[i as int]);
            i = i + 1;
        }
        assert(lv.take(lv.len() as int) =~= lv);
        let n = list.len() as u64;
        self.entry_count = self.entry_count + n;
        n
    }

    /// Store favicon bytes for a URL, replacing earlier ones.
    pub fn store_favicon(&mut self, url: &str, data: Vec<u8>)
        requires
            old(self).wf(),
        ensures
            final(self).wf(),
            final(self).favicons() == upsert_pair(old(self).favicons(), (url@, data@)),
            final(self).entries() == old(self).entries(),
            final(self).visits() == old(self).visits(),
            final(self).count() == old(self).count(),
            final(self).private() == old(self).private(),
            final(self).max_entries() == old(self).max_entries(),
    {
        let ghost fs = self.favicons();
        let ghost f = (url@, data@);
        let found = self.find_favicon(url);
        match found {
            Some(i) => {
                self.favicons.set(i, Favicon { url: owned(url), data });
                assert(self.favicons() =~= fs.update(i as int, f));
                let ghost nf = self.favicons();
                assert forall|a: int, b: int| 0 <= a < nf.len() && 0 <= b < nf.len() && a != b implies (#[trigger] nf[a]).0 != (#[trigger] nf[b]).0 by {
                    if a != i && b != i {
                        assert(nf[a] == fs[a] && nf[b] == fs[b]);
                    } else if a == i {
                        assert(nf[b] == fs[b]);
                    } else {
                        assert(nf[a] == fs[a]);
                    }
                }
            },
            None => {
                self.favicons.push(Favicon { url: owned(url), data });
                assert(self.favicons() =~= fs.push(f));
                let ghost nf = self.favicons();
                assert forall|a: int, b: int| 0 <= a < nf.len() && 0 <= b < nf.len() && a != b implies (#[trigger] nf[a]).0 != (#[trigger] nf[b]).0 by {
                    if a < fs.len() && b < fs.len() {
                        assert(nf[a] == fs[a] && nf[b] == fs[b]);
                    } else if a < fs.len() {
                        assert(nf[a] == fs[a]);
                    } else {
                        assert(nf[b] == fs[b]);
                    }
                }
            },
        }
    }

    fn find_favicon(&self, url: &str) -> (r: Option<usize>)
        requires
            self.wf(),
        ensures
            match r {
                Some(i) => i < self.favicons().len() && has_key(self.favicons(), url@) && key_index(self.favicons(), url@) == i,
                None => !has_key(self.favicons(), url@),
            },
    {
        let ghost fs = self.favicons();
        let mut i: usize = 0;
        while i < self.favicons.len()
            invariant
                fs == self.favicons(),
                distinct_keys(fs),
                i <= fs.len(),
                forall|k: int| 0 <= k < i ==> (#[trigger] fs[k]).0 != url@,
            decreases self.favicons.len() - i,
        {
            if str_eq(self.favicons[i].url.as_str(), url) {
                assert(fs[i as int].0 == url@);
                assert(has_key(fs, url@));
                assert(key_index(fs, url@) == i as int);
                return Some(i);
            }
            assert(fs[i as int].0 != url@);
            i = i + 1;
        }
        None
    }

    /// The favicon bytes stored for a URL.
    pub fn get_favicon(&self, url: &str) -> (r: Option<Vec<u8>>)
        requires
            self.wf(),
        ensures
            match r {
                Some(d) => has_key(self.favicons(), url@) && self.favicons()[key_index(self.favicons(), url@)].1 == d@,
                None => !has_key(self.favicons(), url@),
            },
    {
        match self.find_favicon(url) {
            Some(i) => Some(self.favicons[i].data.clone()),
            None => None,
        }
    }

    /// All stored favicons, in the order they were first stored.
    pub fn get_all_favicons(&self) -> (r: Vec<Favicon>)
        ensures
            favicon_views(r@) == self.favicons(),
    {
        let mut r: Vec<Favicon> = Vec::new();
        let mut i: usize = 0;
        while i < self.favicons.len()
            invariant
                i <= self.favicons@.len(),
                favicon_views(r@) == self.favicons().take(i as int),
            decreases self.favicons.len() - i,
        {
            let ghost prev = r@;
            let x = Favicon { url: owned(self.favicons[i].url.as_str()), data: self.favicons[i].data.clone() };
            r.push(x);
            assert(favicon_views(r@) =~= favicon_views(prev).push((x.url@, x.data@)));
            i = i + 1;
            assert(favicon_views(r@) =~= self.favicons().take(i as int));
        }
        assert(self.favicons().take(i as int) =~= self.favicons());
        r
    }

    /// Counts of entries, visits and favicons.
    pub fn get_stats(&self) -> (r: HistoryStats)
        ensures
            r.total_entries == self.entries().len(),
            r.total_visits == self.visits().len(),
            r.total_favicons == self.favicons().len(),
            r.database_size_bytes == 0,
    {
        HistoryStats {
            total_entries: self.entries.len() as u64,
            total_visits: self.visits.len() as u64,
            total_favicons: self.favicons.len() as u64,
            database_size_bytes: 0,
        }
    }

    /// The entries as a Netscape bookmark file (the format browsers import),
    /// one link per entry in storage order.
    pub fn export_to_html(&self) -> (r: String)
        ensures
            r@ == html_head() + html_lines(self.entries()) + html_tail(),
    {
        let mut html = String::new();
        html.append("<!DOCTYPE NETSCAPE-Bookmark-file-1>\n");
        html.append("<!-- This is an automatically generated file.\n");
        html.append("     It will be read and overwritten.\n");
        html.append("     DO NOT EDIT! -->\n");
        html.append("<META HTTP-EQUIV=\"Content-Type\" CONTENT=\"text/html; charset=UTF-8\">\n");
        html.append("<TITLE>Bookmarks</TITLE>\n");
        html.append("<H1>Bookmarks</H1>\n");
        html.append("<DL><p>\n");
        html.append("    <DT><H3 ADD_DATE=\"0\" LAST_MODIFIED=\"0\">History</H3>\n");
        html.append("    <DL><p>\n");
        let ghost head = html@;
        assert(head =~= html_head());
        let ghost es = self.entries();
        let mut i: usize = 0;
        while i < self.entries.len()
            invariant
                es == self.entries(),
                i <= es.len(),
                html@ == html_head() + html_lines(es.take(i as int)),
            decreases self.entries.len() - i,
        {
            let e = &self.entries[i];
            assert(e@ == es[i as int]);
            let secs: u128 = time_to_key(e.visit_time) / 1000000000u128;
            let ghost before = html@;
            html.append("        <DT><A HREF=\"");
            let u = html_escape(e.url.as_str());
            html.append(u.as_str());
            html.append("\" ADD_DATE=\"");
            push_decimal(&mut html, secs);
            html.append("\">");
            let t = html_escape(e.title.as_str());
            html.append(t.as_str());
            html.append("</A>\n");
            assert(html@ =~= before + html_line(es[i as int]));
            assert(es.take(i + 1).drop_last() =~= es.take(i as int));
            assert(es.take(i + 1).last() == es[i as int]);
            i = i + 1;
            assert(html@ =~= html_head() + html_lines(es.take(i as int)));
        }
        assert(es.take(es.len() as int) =~= es);
        html.append("    </DL><p>\n");
        html.append("</DL><p>\n");
        assert(html@ =~= html_head() + html_lines(es) + html_tail());
        html
    }

    /// All visit records, oldest first.
    pub fn get_all_visits(&self) -> (r: Vec<VisitRecord>)
        ensures
            visit_views(r@) == self.visits(),
    {
        let mut r: Vec<VisitRecord> = Vec::new();
        let mut i: usize = 0;
        while i < self.visits.len()
            invariant
                i <= self.visits@.len(),
                visit_views(r@) == self.visits().take(i as int),
            decreases self.visits.len() - i,
        {
            let ghost prev = r@;
            let x = self.visits[i].duplicate();
            r.push(x);
            assert(visit_views(r@) =~= visit_views(prev).push(x@));
            i = i + 1;
            assert(visit_views(r@) =~= self.visits().take(i as int));
        }
        assert(self.visits().take(i as int) =~= self.visits());
        r
    }

    /// Rebuild a store from stored rows: entries in URL order, visits in
    /// time order, favicons with distinct URLs. The counter starts at the
    /// number of entries. Rows that break this order are reported as a
    /// corrupted database.
    pub fn from_parts(
        config: HistoryConfig,
        entries: Vec<HistoryEntry>,
        visits: Vec<VisitRecord>,
        favicons: Vec<Favicon>,
    ) -> (r: Result<Self, HistoryError>)
        ensures
            match r {
                Ok(m) => {
                    &&& m.wf()
                    &&& m.entries() == entry_views(entries@)
                    &&& m.visits() == visit_views(visits@)
                    &&& m.favicons() == favicon_views(favicons@)
                    &&& m.count() == entries@.len()
                    &&& !m.private()
                    &&& m.max_entries() == config.max_entries
                },
                Err(e) => e is DatabaseCorrupted && !(sorted_urls(entry_views(entries@)) && sorted_visits(
                    visit_views(visits@),
                ) && distinct_keys(favicon_views(favicons@))),
            },
    {
        let ghost ev = entry_views(entries@);
        let mut i: usize = 1;
        while i < entries.len()
            invariant
                ev == entry_views(entries@),
                1 <= i,
                i <= entries@.len() || entries@.len() == 0,
                entries@.len() > 0 ==> sorted_urls(ev.take(i as int)),
            decreases entries.len() - i,
        {
            if !str_lt(entries[i - 1].url.as_str(), entries[i].url.as_str()) {
                assert(!sorted_urls(ev)) by {
                    assert(ev[i - 1] == entries@[i - 1]@ && ev[i as int] == entries@[i as int]@);
                }
                return Err(HistoryError::DatabaseCorrupted(owned("history entries out of order")));
            }
            proof {
                let t = ev.take(i + 1);
                assert forall|a: int, b: int| 0 <= a < b < t.len() implies seq_lt((#[trigger] t[a]).url, (#[trigger] t[b]).url) by {
                    if b == i {
                        if a < i - 1 {
                            assert(ev.take(i as int)[a] == ev[a]);
                            assert(ev.take(i as int)[i - 1] == ev[i - 1]);
                            assert(seq_lt(ev[a].url, ev[i - 1].url));
                            lemma_seq_lt_order(ev[a].url, ev[i - 1].url, ev[i as int].url);
                        }
                    } else {
                        assert(ev.take(i as int)[a] == ev[a] && ev.take(i as int)[b] == ev[b]);
                    }
                }
            }
            i = i + 1;
        }
        if entries.len() > 0 {
            assert(ev.take(entries@.len() as int) =~= ev);
        } else {
            assert(sorted_urls(ev));
        }
        let ghost vv = visit_views(visits@);
        let mut j: usize = 1;
        while j < visits.len()
            invariant
                vv == visit_views(visits@),
                1 <= j,
                j <= visits@.len() || visits@.len() == 0,
                visits@.len() > 0 ==> sorted_visits(vv.take(j as int)),
            decreases visits.len() - j,
        {
            if visits[j - 1].timestamp >= visits[j].timestamp {
                assert(!sorted_visits(vv)) by {
                    assert(vv[j - 1] == visits@[j - 1]@ && vv[j as int] == visits@[j as int]@);
                }
                return Err(HistoryError::DatabaseCorrupted(owned("visit index out of order")));
            }
            proof {
                let t = vv.take(j + 1);
                assert forall|a: int, b: int| 0 <= a < b < t.len() implies (#[trigger] t[a]).timestamp < (#[trigger] t[b]).timestamp by {
                    if b == j {
                        if a < j - 1 {
                            assert(vv.take(j as int)[a] == vv[a]);
                            assert(vv.take(j as int)[j - 1] == vv[j - 1]);
                        }
                    } else {
                        assert(vv.take(j as int)[a] == vv[a] && vv.take(j as int)[b] == vv[b]);
                    }
                }
            }
            j = j + 1;
        }
        if visits.len() > 0 {
            assert(vv.take(visits@.len() as int) =~= vv);
        } else {
            assert(sorted_visits(vv));
        }
        let ghost fv = favicon_views(favicons@);
        let mut a: usize = 0;
        while a < favicons.len()
            invariant
                fv == favicon_views(favicons@),
                a <= fv.len(),
                forall|x: int, y: int| 0 <= x < a && 0 <= y < fv.len() && x != y ==> (#[trigger] fv[x]).0 != (#[trigger] fv[y]).0,
            decreases favicons.len() - a,
        {
            let mut b: usize = 0;
            while b < favicons.len()
                invariant
                    fv == favicon_views(favicons@),
                    a < fv.len(),
                    b <= fv.len(),
                    forall|x: int, y: int| 0 <= x < a && 0 <= y < fv.len() && x != y ==> (#[trigger] fv[x]).0 != (#[trigger] fv[y]).0,
                    forall|y: int| 0 <= y < b && y != a ==> fv[a as int].0 != (#[trigger] fv[y]).0,
                decreases favicons.len() - b,
            {
                if b != a && str_eq(favicons[a].url.as_str(), favicons[b].url.as_str()) {
                    assert(!distinct_keys(fv)) by {
                        assert(fv[a as int].0 == fv[b as int].0);
                    }
                    return Err(HistoryError::DatabaseCorrupted(owned("duplicate favicon")));
                }
                b = b + 1;
            }
            a = a + 1;
        }
        let n = entries.len() as u64;
        let m = HistoryManager {
            entries,
            visits,
            favicons,
            config,
            privacy_mode: false,
            entry_count: n,
        };
        Ok(m)
    }

    /// The entry stored for a URL.
    pub fn get_entry_by_url(&self, url: &str) -> (r: Option<HistoryEntry>)
        requires
            self.wf(),
        ensures
            match r {
                Some(e) => lookup(self.entries(), url@) == Some(e@),
                None => lookup(self.entries(), url@) is None,
            },
    {
        match self.find_url(url) {
            Some(i) => Some(self.entries[i].duplicate()),
            None => None,
        }
    }
}

/// Escape the HTML special characters `&`, `<`, `>` and `"`.
pub fn html_escape(text: &str) -> (r: String)
    ensures
        r@ == html_escape_seq(text@),
{
    let cs = chars_of(text);
    let mut out = String::new();
    let mut i: usize = 0;
    while i < cs.len()
        invariant
            cs@ == text@,
            i <= cs@.len(),
            out@ == html_escape_seq(text@.take(i as int)),
        decreases cs.len() - i,
    {
        let c = cs[i];
        let ghost before = out@;
        if c == '&' {
            out.append("&amp;");
        } else if c == '<' {
            out.append("&lt;");
        } else if c == '>' {
            out.append("&gt;");
        } else if c == '"' {
            out.append("&quot;");
        } else {
            let one = text.substring_char(i, i + 1);
            assert(one@ =~= seq![c]);
            out.append(one);
        }
        assert(out@ == before + escape_char(c));
        assert(text@.take(i + 1).drop_last() =~= text@.take(i as int));
        assert(text@.take(i + 1).last() == c);
        i = i + 1;
    }
    assert(text@.take(text@.len() as int) =~= text@);
    out
}

} // verus!
