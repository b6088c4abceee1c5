use vstd::prelude::*;
use std::collections::VecDeque;
use crate::clock::fresh_id;
use crate::tab::{visit_views, PageVisit, PageVisitView};
use crate::text::{lowercase, seq_contains, str_contains, to_lowercase};

verus! {

/// Number of entries the navigation history keeps.
pub const MAX_HISTORY_ENTRIES: usize = 1000;

/// The history after adding `e`: the oldest entry goes when the history is
/// full.
pub open spec fn bounded_push(s: Seq<PageVisitView>, e: PageVisitView) -> Seq<PageVisitView> {
    (if s.len() >= MAX_HISTORY_ENTRIES { s.drop_first() } else { s }).push(e)
}

/// The entries, newest first, at most `limit` of them.
pub open spec fn newest(s: Seq<PageVisitView>, limit: nat) -> Seq<PageVisitView> {
    let r = s.reverse();
    if limit < r.len() { r.take(limit as int) } else { r }
}

/// Whether an entry matches a query: its URL or title contains it, in
/// lower case.
pub open spec fn visit_matches(e: PageVisitView, q: Seq<char>) -> bool {
    seq_contains(lowercase(e.url), lowercase(q)) || match e.title {
        Some(t) => seq_contains(lowercase(t), lowercase(q)),
        None => false,
    }
}

/// The navigation history of recent visits, holding at most
/// [`MAX_HISTORY_ENTRIES`] entries, oldest first.
pub struct HistoryManager {
    entries: VecDeque<PageVisit>,
}

impl HistoryManager {
    /// The entries, oldest first.
    pub closed spec fn entries(&self) -> Seq<PageVisitView> {
        visit_views(self.entries@)
    }

    /// The size bound holds.
    pub closed spec fn wf(&self) -> bool {
        self.entries@.len() <= MAX_HISTORY_ENTRIES
    }

    /// An empty history.
    pub fn new() -> (h: Self)
        ensures
            h.wf(),
            h.entries().len() == 0,
    {
        let h = HistoryManager { entries: VecDeque::new() };
        assert(h.entries() =~= Seq::<PageVisitView>::empty());
        h
    }

    /// Add an entry, dropping the oldest when the history is full.
    pub fn add_entry(&mut self, entry: PageVisit)
        requires
            old(self).wf(),
        ensures
            final(self).wf(),
            final(self).entries() == bounded_push(old(self).entries(), entry@),
    {
        let ghost s0 = self.entries@;
        let ghost ev = entry@;
        if self.entries.len() >= MAX_HISTORY_ENTRIES {
            self.entries.pop_front();
        }
        let ghost s1 = self.entries@;
        self.entries.push_back(entry);
        assert(self.entries() =~= bounded_push(visit_views(s0), ev)) by {
            assert(visit_views(s1) =~= (if s0.len() >= MAX_HISTORY_ENTRIES { visit_views(s0).drop_first() } else { visit_views(s0) }));
        }
    }

    /// Copies of the newest entries, newest first, at most `limit`.
    pub fn get_recent(&self, limit: usize) -> (r: Vec<PageVisit>)
        ensures
            visit_views(r@) == newest(self.entries(), limit as nat),
    {
        let ghost s = self.entries();
        let n = self.entries.len();
        let mut r: Vec<PageVisit> = Vec::new();
        let mut k: usize = 0;
        while k < n && k < limit
            invariant
                n == s.len(),
                s == self.entries(),
                k <= n,
                k <= limit,
                visit_views(r@) == s.reverse().take(k as int),
            decreases n - k,
        {
            let ghost prev = r@;
            let x = self.entries[n - 1 - k].duplicate();
            r.push(x);
            assert(visit_views(r@) =~= visit_views(prev).push(x@));
            k = k + 1;
            assert(visit_views(r@) =~= s.reverse().take(k as int));
        }
        assert(s.reverse().len() == n);
        if k == n {
            assert(s.reverse().take(k as int) =~= s.reverse());
        } else {
            assert(k == limit);
        }
        r
    }

    /// Copies of the entries that match `query`, oldest first.
    pub fn search(&self, query: &str) -> (r: Vec<PageVisit>)
        ensures
            visit_views(r@) == self.entries().filter(|e: PageVisitView| visit_matches(e, query@)),
    {
        let q = to_lowercase(query);
        let ghost s = self.entries();
        let ghost pred = |e: PageVisitView| visit_matches(e, query@);
        let mut r: Vec<PageVisit> = Vec::new();
        let mut i: usize = 0;
        while i < self.entries.len()
            invariant
                s == self.entries(),
                pred == (|e: PageVisitView| visit_matches(e, query@)),
                q@ == lowercase(query@),
                i <= s.len(),
                visit_views(r@) == s.take(i as int).filter(pred),
            decreases self.entries.len() - i,
        {
            let ghost prev = r@;
            let e = &self.entries[i];
            let u = to_lowercase(e.url.as_str());
            let mut hit = str_contains(u.as_str(), q.as_str());
            if !hit {
                match &e.title {
                    Some(t) => {
                        let tl = to_lowercase(t.as_str());
                        hit = str_contains(tl.as_str(), q.as_str());
                    },
                    None => {},
                }
            }
            assert(hit == visit_matches(s[i as int], query@));
            if hit {
                let x = e.duplicate();
                r.push(x);
                assert(visit_views(r@) =~= visit_views(prev).push(x@));
            }
            assert(s.take(i + 1).drop_last() =~= s.take(i as int));
            assert(s.take(i + 1).last() == s[i as int]);
            reveal(Seq::filter);
            i = i + 1;
            assert(visit_views(r@) =~= s.take(i as int).filter(pred));
        }
        assert(s.take(i as int) =~= s);
        r
    }

    /// Forget every entry.
    pub fn clear(&mut self)
        ensures
            final(self).wf(),
            final(self).entries().len() == 0,
    {
        self.entries.clear();
        assert(self.entries() =~= Seq::<PageVisitView>::empty());
    }

    /// Number of entries.
    pub fn get_count(&self) -> (n: usize)
        ensures
            n == self.entries().len(),
    {
        self.entries.len()
    }
}

/// Progress of a download.
#[derive(Debug, Clone, Copy, PartialEq, Eq, Structural)]
pub enum DownloadStatus {
    Pending,
    InProgress,
    Completed,
    Failed,
    Cancelled,
}

/// IEEE-754 bit pattern of 100.0, the progress of a finished download.
pub const PROGRESS_DONE_BITS: u64 = 0x4059000000000000;

/// A download. The progress percentage is kept as the bit pattern of a
/// 64-bit float.
pub struct Download {
    pub id: u128,
    pub url: String,
    pub filename: String,
    pub path: String,
    pub status: DownloadStatus,
    pub progress_bits: u64,
    pub total_size: Option<u64>,
    pub downloaded_size: u64,
}

/// Mathematical value of [`Download`].
pub struct DownloadView {
    pub id: u128,
    pub url: Seq<char>,
    pub filename: Seq<char>,
    pub path: Seq<char>,
    pub status: DownloadStatus,
    pub progress_bits: u64,
    pub total_size: Option<u64>,
    pub downloaded_size: u64,
}

impl View for Download {
    type V = DownloadView;

    open spec fn view(&self) -> DownloadView {
        DownloadView {
            id: self.id,
            url: self.url@,
            filename: self.filename@,
            path: self.path@,
            status: self.status,
            progress_bits: self.progress_bits,
            total_size: self.total_size,
            downloaded_size: self.downloaded_size,
        }
    }
}

impl Download {
    /// A copy with the same contents.
    pub fn duplicate(&self) -> (r: Self)
        ensures
            r@ == self@,
    {
        Download {
            id: self.id,
            url: self.url.clone(),
            filename: self.filename.clone(),
            path: self.path.clone(),
            status: self.status,
            progress_bits: self.progress_bits,
            total_size: self.total_size,
            downloaded_size: self.downloaded_size,
        }
    }
}

/// The values of a sequence of downloads.
pub open spec fn download_views(v: Seq<Download>) -> Seq<DownloadView> {
    v.map_values(|d: Download| d@)
}

/// Whether a download with this identifier is listed.
pub open spec fn has_download(s: Seq<DownloadView>, id: u128) -> bool {
    exists|i: int| 0 <= i < s.len() && (#[trigger] s[i]).id == id
}

/// `i` is the first position of a download with this identifier.
pub open spec fn is_first_download(s: Seq<DownloadView>, id: u128, i: int) -> bool {
    &&& 0 <= i < s.len()
    &&& s[i].id == id
    &&& forall|k: int| 0 <= k < i ==> (#[trigger] s[k]).id != id
}

/// The first position of a download with this identifier.
pub open spec fn first_download(s: Seq<DownloadView>, id: u128) -> int {
    choose|i: int| is_first_download(s, id, i)
}

/// The list with the first download `id` changed by `f`, or unchanged when
/// there is none.
pub open spec fn edit_download(s: Seq<DownloadView>, id: u128, f: spec_fn(DownloadView) -> DownloadView) -> Seq<DownloadView> {
    if has_download(s, id) {
        s.update(first_download(s, id), f(s[first_download(s, id)]))
    } else {
        s
    }
}

/// The downloads of the browser.
pub struct DownloadManager {
    downloads: Vec<Download>,
}

impl DownloadManager {
    /// The downloads, in start order.
    pub closed spec fn list(&self) -> Seq<DownloadView> {
        download_views(self.downloads@)
    }

    /// No downloads.
    pub fn new() -> (m: Self)
        ensures
            m.list().len() == 0,
    {
        let m = DownloadManager { downloads: Vec::new() };
        assert(m.list() =~= Seq::<DownloadView>::empty());
        m
    }

    /// Start a pending download with a fresh identifier; returns it.
    pub fn start_download(&mut self, url: String, filename: String, path: String) -> (id: u128)
        ensures
            final(self).list() == old(self).list().push(
                DownloadView {
                    id,
                    url: url@,
                    filename: filename@,
                    path: path@,
                    status: DownloadStatus::Pending,
                    progress_bits: 0,
                    total_size: None,
                    downloaded_size: 0,
                },
            ),
    {
        let id = fresh_id();
        let d = Download {
            id,
            url,
            filename,
            path,
            status: DownloadStatus::Pending,
            progress_bits: 0,
            total_size: None,
            downloaded_size: 0,
        };
        let ghost s0 = self.list();
        let ghost dv = d@;
        self.downloads.push(d);
        assert(self.list() =~= s0.push(dv));
        id
    }

    fn find(&self, id: u128) -> (r: Option<usize>)
        ensures
            match r {
                Some(i) => is_first_download(self.list(), id, i as int) && has_download(self.list(), id)
                    && first_download(self.list(), id) == i,
                None => !has_download(self.list(), id),
            },
    {
        let ghost s = self.list();
        let mut i: usize = 0;
        while i < self.downloads.len()
            invariant
                s == self.list(),
                i <= s.len(),
                forall|k: int| 0 <= k < i ==> (#[trigger] s[k]).id != id,
            decreases self.downloads.len() - i,
        {
            if self.downloads[i].id == id {
                assert(is_first_download(s, id, i as int));
                assert(has_download(s, id));
                let ghost j = first_download(s, id);
                assert(is_first_download(s, id, j));
                assert(j == i as int) by {
                    if j < i {
                        assert(s[j].id != id);
                    } else if j > i {
                        assert(s[i as int].id != id);
                    }
                }
                return Some(i);
            }
            i = i + 1;
        }
        None
    }

    /// A copy of the download `id`.
    pub fn get_download(&self, id: u128) -> (r: Option<Download>)
        ensures
            match r {
                Some(d) => has_download(self.list(), id) && d@ == self.list()[first_download(self.list(), id)],
                None => !has_download(self.list(), id),
            },
    {
        match self.find(id) {
            Some(i) => Some(self.downloads[i].duplicate()),
            None => None,
        }
    }

    /// Copies of all downloads.
    pub fn get_all_downloads(&self) -> (r: Vec<Download>)
        ensures
            download_views(r@) == self.list(),
    {
        let mut r: Vec<Download> = Vec::new();
        let mut i: usize = 0;
        while i < self.downloads.len()
            invariant
                i <= self.downloads@.len(),
                download_views(r@) == self.list().take(i as int),
            decreases self.downloads.len() - i,
        {
            let ghost prev = r@;
            let x = self.downloads[i].duplicate();
            r.push(x);
            assert(download_views(r@) =~= download_views(prev).push(x@));
            i = i + 1;
            assert(download_views(r@) =~= self.list().take(i as int));
        }
        assert(self.list().take(i as int) =~= self.list());
        r
    }

    /// Replace the download at `i` by `d`.
    fn put(&mut self, i: usize, d: Download)
        requires
            i < old(self).list().len(),
        ensures
            final(self).list() == old(self).list().update(i as int, d@),
    {
        let ghost s0 = self.list();
        let ghost dv = d@;
        self.downloads.set(i, d);
        assert(self.list() =~= s0.update(i as int, dv));
    }

    /// Record progress of the download `id`: the byte counts are taken, the
    /// percentage `progress_bits` (computed from them) only when the total
    /// is known, and the download is in progress.
    pub fn update_progress(&mut self, id: u128, downloaded: u64, total: Option<u64>, progress_bits: u64)
        ensures
            final(self).list() == edit_download(
                old(self).list(),
                id,
                |d: DownloadView| DownloadView {
                    downloaded_size: downloaded,
                    total_size: total,
                    progress_bits: if total is Some { progress_bits } else { d.progress_bits },
                    status: DownloadStatus::InProgress,
                    ..d
                },
            ),
    {
        if let Some(i) = self.find(id) {
            let mut d = self.downloads[i].duplicate();
            d.downloaded_size = downloaded;
            d.total_size = total;
            if total.is_some() {
                d.progress_bits = progress_bits;
            }
            d.status = DownloadStatus::InProgress;
            self.put(i, d);
        }
    }

    /// The download `id` finished: completed at 100 %.
    pub fn complete_download(&mut self, id: u128)
        ensures
            final(self).list() == edit_download(
                old(self).list(),
                id,
                |d: DownloadView| DownloadView { status: DownloadStatus::Completed, progress_bits: PROGRESS_DONE_BITS, ..d },
            ),
    {
        if let Some(i) = self.find(id) {
            let mut d = self.downloads[i].duplicate();
            d.status = DownloadStatus::Completed;
            d.progress_bits = PROGRESS_DONE_BITS;
            self.put(i, d);
        }
    }

    /// The download `id` failed.
    pub fn fail_download(&mut self, id: u128)
        ensures
            final(self).list() == edit_download(
                old(self).list(),
                id,
                |d: DownloadView| DownloadView { status: DownloadStatus::Failed, ..d },
            ),
    {
        if let Some(i) = self.find(id) {
            let mut d = self.downloads[i].duplicate();
            d.status = DownloadStatus::Failed;
            self.put(i, d);
        }
    }

    /// The download `id` was cancelled.
    pub fn cancel_download(&mut self, id: u128)
        ensures
            final(self).list() == edit_download(
                old(self).list(),
                id,
                |d: DownloadView| DownloadView { status: DownloadStatus::Cancelled, ..d },
            ),
    {
        if let Some(i) = self.find(id) {
            let mut d = self.downloads[i].duplicate();
            d.status = DownloadStatus::Cancelled;
            self.put(i, d);
        }
    }
}

} // verus!
