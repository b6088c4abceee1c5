use vstd::prelude::*;
use crate::clock::now_nanos;
use crate::history::{insert_desc, lemma_insert_desc, sort_desc, HistoryEntry, HistoryEntryView, HistoryManager};
use crate::session::{
    active_after_remove, is_fresh_session, tab_can_go_back, tab_can_go_forward, tab_navigated, Session,
    SessionView, TabState, TabView, WindowState, WindowView,
};
use crate::text::{decimal, push_decimal};

verus! {

/// Auto-save interval, in seconds.
pub const DEFAULT_AUTO_SAVE_INTERVAL_SECS: u64 = 30;

/// Number of saved sessions kept by pruning.
pub const MAX_SESSION_HISTORY: usize = 10;

/// Errors of session operations.
#[derive(Debug)]
pub enum SessionError {
    /// No saved session has this identifier.
    SessionNotFound(u128),
    /// No window at the given index (identifier of the window, or 0).
    WindowNotFound(u128),
    /// No tab at the given index (identifier of the tab).
    TabNotFound(u128),
    /// The request does not fit the session's state.
    InvalidState(String),
    /// Stored data could not be brought to the current schema.
    MigrationFailed(String),
    /// Auto-save was started twice.
    AutoSaveAlreadyRunning,
}

/// Configuration of the session store.
pub struct SessionConfig {
    /// Path of the database file.
    pub db_path: String,
    /// Auto-save interval in seconds.
    pub auto_save_interval_secs: u64,
    /// Number of saved sessions kept by pruning.
    pub max_session_history: usize,
    /// Whether an unclean shutdown restores the last saved session.
    pub enable_crash_recovery: bool,
    /// Whether sessions are restored on startup.
    pub restore_on_startup: bool,
}

impl SessionConfig {
    /// The default settings with the database at `db_path`.
    pub fn with_db_path(db_path: String) -> (c: Self)
        ensures
            c.db_path@ == db_path@,
            c.auto_save_interval_secs == DEFAULT_AUTO_SAVE_INTERVAL_SECS,
            c.max_session_history == MAX_SESSION_HISTORY,
            c.enable_crash_recovery,
            c.restore_on_startup,
    {
        SessionConfig {
            db_path,
            auto_save_interval_secs: DEFAULT_AUTO_SAVE_INTERVAL_SECS,
            max_session_history: MAX_SESSION_HISTORY,
            enable_crash_recovery: true,
            restore_on_startup: true,
        }
    }
}

/// The record of the last saved session, used to detect a crash.
#[derive(Debug, Clone, Copy, PartialEq, Eq, Structural)]
pub struct CrashRecoveryInfo {
    /// The session that was saved last.
    pub session_id: u128,
    /// When it was saved (nanoseconds since the Unix epoch).
    pub timestamp: i128,
    /// Whether the browser shut down cleanly afterwards.
    pub was_clean_shutdown: bool,
    /// Number of crashes counted.
    pub crash_count: u32,
}

/// Statistics of the session store.
pub struct SessionStats {
    pub total_saved_sessions: u64,
    pub current_session_windows: usize,
    pub current_session_tabs: usize,
}

// ----- the saved sessions, ordered by identifier -----

/// Identifiers strictly increase along the sequence.
pub open spec fn ids_sorted(ss: Seq<SessionView>) -> bool {
    forall|i: int, j: int| 0 <= i < j < ss.len() ==> ss[i].id < ss[j].id
}

/// `p` splits the sequence into the sessions with smaller identifiers and
/// the rest.
pub open spec fn is_id_split(ss: Seq<SessionView>, id: u128, p: int) -> bool {
    &&& 0 <= p <= ss.len()
    &&& forall|k: int| 0 <= k < p ==> (#[trigger] ss[k]).id < id
    &&& forall|k: int| p <= k < ss.len() ==> (#[trigger] ss[k]).id >= id
}

/// Where a session with identifier `id` belongs.
pub open spec fn id_split(ss: Seq<SessionView>, id: u128) -> int {
    choose|p: int| is_id_split(ss, id, p)
}

/// The store after saving `s`: it replaces the session with its identifier,
/// or is inserted in identifier order.
pub open spec fn store_session(ss: Seq<SessionView>, s: SessionView) -> Seq<SessionView> {
    let p = id_split(ss, s.id);
    if p < ss.len() && ss[p].id == s.id {
        ss.update(p, s)
    } else {
        ss.insert(p, s)
    }
}

/// Whether a session with identifier `id` is stored.
pub open spec fn has_session(ss: Seq<SessionView>, id: u128) -> bool {
    exists|i: int| 0 <= i < ss.len() && (#[trigger] ss[i]).id == id
}

/// The stored session with identifier `id`.
pub open spec fn find_session(ss: Seq<SessionView>, id: u128) -> Option<SessionView> {
    if has_session(ss, id) {
        Some(ss[session_index(ss, id)])
    } else {
        None
    }
}

/// The position of the stored session with identifier `id`.
pub open spec fn session_index(ss: Seq<SessionView>, id: u128) -> int {
    choose|i: int| 0 <= i < ss.len() && (#[trigger] ss[i]).id == id
}

/// The store without the session with identifier `id`.
pub open spec fn drop_session(ss: Seq<SessionView>, id: u128) -> Seq<SessionView> {
    if has_session(ss, id) {
        ss.remove(session_index(ss, id))
    } else {
        ss
    }
}

/// The store without the sessions with the given identifiers, removed in
/// turn.
pub open spec fn drop_sessions(ss: Seq<SessionView>, ids: Seq<u128>) -> Seq<SessionView>
    decreases ids.len(),
{
    if ids.len() == 0 {
        ss
    } else {
        drop_session(drop_sessions(ss, ids.drop_last()), ids.last())
    }
}

/// Sort key: last access time.
pub open spec fn accessed_key() -> spec_fn(SessionView) -> int {
    |s: SessionView| s.last_accessed as int
}

/// Saved sessions, most recently accessed first; equal times keep
/// identifier order.
pub open spec fn by_recency(ss: Seq<SessionView>) -> Seq<SessionView> {
    sort_desc(ss, accessed_key())
}

/// The identifiers that pruning removes: those past the first `max` in
/// recency order, except the current session's.
pub open spec fn prune_ids(ss: Seq<SessionView>, max: usize, current: u128) -> Seq<u128> {
    let sorted = by_recency(ss);
    let tail = if sorted.len() > max { sorted.skip(max as int) } else { Seq::empty() };
    tail.filter(|s: SessionView| s.id != current).map_values(|s: SessionView| s.id)
}

/// The session that startup restores: with crash recovery and restoring
/// enabled, after an unclean shutdown, the last saved session if it is
/// still stored.
pub open spec fn recovered(
    enable: bool,
    restore: bool,
    ss: Seq<SessionView>,
    crash: Option<CrashRecoveryInfo>,
) -> Option<SessionView> {
    match crash {
        Some(info) => if enable && restore && !info.was_clean_shutdown {
            find_session(ss, info.session_id)
        } else {
            None
        },
        None => None,
    }
}

proof fn lemma_id_split_unique(ss: Seq<SessionView>, id: u128, p: int)
    requires
        is_id_split(ss, id, p),
    ensures
        id_split(ss, id) == p,
{
    let q = id_split(ss, id);
    assert(is_id_split(ss, id, q));
    if q < p {
        assert(ss[q].id < id);
    } else if p < q {
        assert(ss[p].id < id);
    }
}

proof fn lemma_store_sorted(ss: Seq<SessionView>, s: SessionView, p: int)
    requires
        ids_sorted(ss),
        is_id_split(ss, s.id, p),
    ensures
        ids_sorted(store_session(ss, s)),
        store_session(ss, s).len() == if p < ss.len() && ss[p].id == s.id { ss.len() } else { ss.len() + 1 },
{
    lemma_id_split_unique(ss, s.id, p);
    let r = store_session(ss, s);
    if p < ss.len() && ss[p].id == s.id {
        assert forall|i: int, j: int| 0 <= i < j < r.len() implies r[i].id < r[j].id by {
            if i != p && j != p {
                assert(r[i] == ss[i] && r[j] == ss[j]);
            } else if i == p {
                assert(r[j] == ss[j]);
            } else {
                assert(r[i] == ss[i]);
            }
        }
    } else {
        assert forall|i: int, j: int| 0 <= i < j < r.len() implies r[i].id < r[j].id by {
            if j < p {
                assert(r[i] == ss[i] && r[j] == ss[j]);
            } else if j == p {
                assert(r[i] == ss[i]);
            } else if i < p {
                assert(r[i] == ss[i] && r[j] == ss[j - 1]);
                assert(ss[j - 1].id >= s.id);
                if j - 1 == p {
                    assert(ss[p].id != s.id);
                } else {
                    assert(ss[p].id < ss[j - 1].id);
                }
            } else if i == p {
                assert(r[j] == ss[j - 1]);
                if j - 1 > p {
                    assert(ss[p].id < ss[j - 1].id);
                }
                assert(ss[p].id != s.id);
            } else {
                assert(r[i] == ss[i - 1] && r[j] == ss[j - 1]);
            }
        }
    }
}

proof fn lemma_index_at(ss: Seq<SessionView>, i: int)
    requires
        ids_sorted(ss),
        0 <= i < ss.len(),
    ensures
        has_session(ss, ss[i].id),
        session_index(ss, ss[i].id) == i,
        find_session(ss, ss[i].id) == Some(ss[i]),
{
    let id = ss[i].id;
    assert(has_session(ss, id));
    let j = session_index(ss, id);
    if j < i {
        assert(ss[j].id < ss[i].id);
    } else if i < j {
        assert(ss[i].id < ss[j].id);
    }
}

proof fn lemma_drop_sorted(ss: Seq<SessionView>, id: u128)
    requires
        ids_sorted(ss),
    ensures
        ids_sorted(drop_session(ss, id)),
        !has_session(drop_session(ss, id), id),
{
    let r = drop_session(ss, id);
    if has_session(ss, id) {
        let k = session_index(ss, id);
        assert forall|i: int, j: int| 0 <= i < j < r.len() implies r[i].id < r[j].id by {
            let ii = if i < k { i } else { i + 1 };
            let jj = if j < k { j } else { j + 1 };
            assert(r[i] == ss[ii] && r[j] == ss[jj]);
        }
        assert forall|i: int| 0 <= i < r.len() implies (#[trigger] r[i]).id != id by {
            let ii = if i < k { i } else { i + 1 };
            assert(r[i] == ss[ii]);
            if ii < k {
                assert(ss[ii].id < ss[k].id);
            } else {
                assert(ss[k].id < ss[ii].id);
            }
        }
    }
}

proof fn lemma_split_exists(ss: Seq<SessionView>, id: u128)
    requires
        ids_sorted(ss),
    ensures
        is_id_split(ss, id, id_split(ss, id)),
    decreases ss.len(),
{
    if ss.len() == 0 {
        assert(is_id_split(ss, id, 0));
    } else if ss.last().id < id {
        assert(is_id_split(ss, id, ss.len() as int)) by {
            assert forall|k: int| 0 <= k < ss.len() implies (#[trigger] ss[k]).id < id by {
                if k < ss.len() - 1 {
                    assert(ss[k].id < ss[ss.len() - 1].id);
                }
            }
        }
    } else {
        let d = ss.drop_last();
        assert(ids_sorted(d));
        lemma_split_exists(d, id);
        let p = id_split(d, id);
        assert(is_id_split(ss, id, p)) by {
            assert forall|k: int| p <= k < ss.len() implies (#[trigger] ss[k]).id >= id by {
                if k < ss.len() - 1 {
                    assert(d[k] == ss[k]);
                }
            }
            assert forall|k: int| 0 <= k < p implies (#[trigger] ss[k]).id < id by {
                assert(d[k] == ss[k]);
            }
        }
    }
}

/// Saving a session and loading its identifier gives the session back,
/// and the store stays ordered.
pub proof fn law_save_then_load(ss: Seq<SessionView>, s: SessionView)
    requires
        ids_sorted(ss),
    ensures
        ids_sorted(store_session(ss, s)),
        find_session(store_session(ss, s), s.id) == Some(s),
{
    lemma_split_exists(ss, s.id);
    let p = id_split(ss, s.id);
    lemma_store_sorted(ss, s, p);
    let r = store_session(ss, s);
    assert(r[p] == s);
    lemma_index_at(r, p);
}

/// Saving a session leaves what is stored under every other identifier
/// as it was.
pub proof fn law_save_keeps_others(ss: Seq<SessionView>, s: SessionView, id: u128)
    requires
        ids_sorted(ss),
        id != s.id,
    ensures
        find_session(store_session(ss, s), id) == find_session(ss, id),
{
    lemma_split_exists(ss, s.id);
    let p = id_split(ss, s.id);
    lemma_store_sorted(ss, s, p);
    let r = store_session(ss, s);
    let replaced = p < ss.len() && ss[p].id == s.id;
    if has_session(ss, id) {
        let i = session_index(ss, id);
        lemma_index_at(ss, i);
        let j = if replaced || i < p { i } else { i + 1 };
        assert(r[j] == ss[i]);
        lemma_index_at(r, j);
    } else {
        if has_session(r, id) {
            let j = session_index(r, id);
            if replaced {
                assert(r[j] == ss[j]);
            } else if j < p {
                assert(r[j] == ss[j]);
            } else if j > p {
                assert(r[j] == ss[j - 1]);
            }
            assert(false);
        }
    }
}

/// Deleting a session removes it: its identifier is no longer found, and
/// the store stays ordered.
pub proof fn law_delete_then_load(ss: Seq<SessionView>, id: u128)
    requires
        ids_sorted(ss),
    ensures
        ids_sorted(drop_session(ss, id)),
        find_session(drop_session(ss, id), id) is None,
{
    lemma_drop_sorted(ss, id);
}

/// After a save that was not followed by a clean shutdown, startup with
/// crash recovery and restoring enabled brings the saved session back.
pub proof fn law_crash_recovers_last_save(ss: Seq<SessionView>, s: SessionView, c: Option<CrashRecoveryInfo>)
    requires
        ids_sorted(ss),
        crash_mark(c, s.id, false),
    ensures
        recovered(true, true, store_session(ss, s), c) == Some(s),
{
    law_save_then_load(ss, s);
}

/// After a clean shutdown nothing is recovered; a fresh session starts.
pub proof fn law_clean_shutdown_starts_fresh(ss: Seq<SessionView>, id: u128, c: Option<CrashRecoveryInfo>, enable: bool, restore: bool)
    requires
        crash_mark(c, id, true),
    ensures
        recovered(enable, restore, ss, c) is None,
{
}

/// The store of sessions: the current session, the saved ones (ordered by
/// identifier, as the database keeps them), the crash-recovery record and
/// whether auto-save runs.
pub struct SessionManager {
    config: SessionConfig,
    current: Session,
    saved: Vec<Session>,
    crash: Option<CrashRecoveryInfo>,
    auto_save: bool,
    history: Option<HistoryManager>,
}

/// The values of a sequence of sessions.
pub open spec fn session_views(v: Seq<Session>) -> Seq<SessionView> {
    v.map_values(|s: Session| s@)
}

impl SessionManager {
    /// The current session.
    pub closed spec fn current(&self) -> SessionView {
        self.current@
    }

    /// The saved sessions, in identifier order.
    pub closed spec fn saved(&self) -> Seq<SessionView> {
        session_views(self.saved@)
    }

    /// The crash-recovery record.
    pub closed spec fn crash(&self) -> Option<CrashRecoveryInfo> {
        self.crash
    }

    /// Whether auto-save is running.
    pub closed spec fn auto_saving(&self) -> bool {
        self.auto_save
    }

    /// The browsing history attached to the sessions, if any.
    pub closed spec fn history_manager(&self) -> Option<HistoryManager> {
        self.history
    }

    /// The auto-save interval, in seconds.
    pub closed spec fn interval(&self) -> u64 {
        self.config.auto_save_interval_secs
    }

    /// The number of sessions that pruning keeps.
    pub closed spec fn max_history(&self) -> usize {
        self.config.max_session_history
    }

    /// The store's invariant: saved identifiers strictly increase.
    pub closed spec fn wf(&self) -> bool {
        ids_sorted(self.saved())
    }

    /// The saved sessions a store hands out are in the identifier order
    /// that [`SessionManager::from_parts`] accepts.
    pub proof fn law_saved_rows_rebuild(&self)
        requires
            self.wf(),
        ensures
            ids_sorted(self.saved()),
    {
    }
}

/// The crash record that a save writes: the saved session, no clean
/// shutdown yet (or one, after a clean shutdown), no crash counted.
pub open spec fn crash_mark(c: Option<CrashRecoveryInfo>, id: u128, clean: bool) -> bool {
    c matches Some(info) && info.session_id == id && info.was_clean_shutdown == clean && info.crash_count == 0
}

/// Whether identifiers strictly increase along `v`.
fn check_sorted(v: &Vec<Session>) -> (r: bool)
    ensures
        r == ids_sorted(session_views(v@)),
{
    let ghost sv = session_views(v@);
    if v.len() == 0 {
        return true;
    }
    let mut k: usize = 1;
    while k < v.len()
        invariant
            sv == session_views(v@),
            1 <= k <= v@.len(),
            ids_sorted(sv.take(k as int)),
        decreases v.len() - k,
    {
        if v[k - 1].id >= v[k].id {
            assert(!ids_sorted(sv)) by {
                assert(sv[k - 1].id >= sv[k as int].id);
            }
            return false;
        }
        assert(ids_sorted(sv.take(k + 1))) by {
            let t = sv.take(k + 1);
            let t0 = sv.take(k as int);
            assert forall|i: int, j: int| 0 <= i < j < k + 1 implies (#[trigger] t[i]).id < (#[trigger] t[j]).id by {
                if j == k && i < k - 1 {
                    assert(t0[i].id < t0[k - 1].id);
                } else if j < k {
                    assert(t0[i].id < t0[j].id);
                }
            }
        }
        k = k + 1;
    }
    assert(sv.take(k as int) =~= sv);
    true
}

/// Position of the session with identifier `id` in `v`, whose identifiers
/// strictly increase.
fn find_in(v: &Vec<Session>, id: u128) -> (r: Option<usize>)
    requires
        ids_sorted(session_views(v@)),
    ensures
        match r {
            Some(i) => i < v@.len() && session_index(session_views(v@), id) == i && has_session(session_views(v@), id)
                && find_session(session_views(v@), id) == Some(session_views(v@)[i as int]),
            None => !has_session(session_views(v@), id) && find_session(session_views(v@), id) is None,
        },
{
    let ghost sv = session_views(v@);
    let mut i: usize = 0;
    while i < v.len()
        invariant
            sv == session_views(v@),
            ids_sorted(sv),
            i <= sv.len(),
            forall|k: int| 0 <= k < i ==> (#[trigger] sv[k]).id != id,
        decreases v.len() - i,
    {
        if v[i].id == id {
            proof {
                lemma_index_at(sv, i as int);
            }
            return Some(i);
        }
        i = i + 1;
    }
    None
}

impl SessionManager {
    /// A store with no saved sessions and a fresh current session.
    pub fn new(config: SessionConfig) -> (m: Self)
        ensures
            m.wf(),
            m.saved().len() == 0,
            m.crash() is None,
            !m.auto_saving(),
            is_fresh_session(m.current()),
            m.max_history() == config.max_session_history,
            m.interval() == config.auto_save_interval_secs,
            m.history_manager() is None,
    {
        let m = SessionManager { config, current: Session::new(), saved: Vec::new(), crash: None, auto_save: false, history: None };
        assert(m.saved() =~= Seq::<SessionView>::empty());
        m
    }

    /// Rebuild the store from stored rows: saved sessions in identifier
    /// order and the crash record. The current session is the recovered
    /// one (see [`recovered`]) or a fresh one. Rows out of order are
    /// reported as an invalid state.
    pub fn from_parts(config: SessionConfig, saved: Vec<Session>, crash: Option<CrashRecoveryInfo>) -> (r: Result<
        Self,
        SessionError,
    >)
        ensures
            r is Ok <==> ids_sorted(session_views(saved@)),
            r matches Ok(m) ==> {
                &&& m.wf()
                &&& m.saved() == session_views(saved@)
                &&& m.crash() == crash
                &&& !m.auto_saving()
                &&& m.max_history() == config.max_session_history
                &&& m.history_manager() is None
                &&& m.interval() == config.auto_save_interval_secs
                &&& match recovered(config.enable_crash_recovery, config.restore_on_startup, session_views(saved@), crash) {
                    Some(s) => m.current() == s,
                    None => is_fresh_session(m.current()),
                }
            },
            r matches Err(e) ==> e is InvalidState,
    {
        if !check_sorted(&saved) {
            return Err(SessionError::InvalidState("saved sessions are not in identifier order".to_string()));
        }
        let ghost sv = session_views(saved@);
        let mut current: Option<Session> = None;
        if config.enable_crash_recovery && config.restore_on_startup {
            if let Some(info) = crash {
                if !info.was_clean_shutdown {
                    if let Some(i) = find_in(&saved, info.session_id) {
                        current = Some(saved[i].duplicate());
                    }
                }
            }
        }
        let current = match current {
            Some(s) => s,
            None => Session::new(),
        };
        Ok(SessionManager { config, current, saved, crash, auto_save: false, history: None })
    }

    /// Attach the browsing history; nothing else changes.
    pub fn set_history_manager(&mut self, history_manager: HistoryManager)
        ensures
            final(self).history_manager() == Some(history_manager),
            final(self).current() == old(self).current(),
            final(self).saved() == old(self).saved(),
            final(self).crash() == old(self).crash(),
            final(self).auto_saving() == old(self).auto_saving(),
            final(self).max_history() == old(self).max_history(),
            final(self).wf() == old(self).wf(),
    {
        self.history = Some(history_manager);
    }

    /// A copy of the current session.
    pub fn current_session(&self) -> (s: Session)
        ensures
            s@ == self.current(),
    {
        self.current.duplicate()
    }

    /// The identifier of the current session.
    pub fn current_session_id(&self) -> (id: u128)
        ensures
            id == self.current().id,
    {
        self.current.id
    }

    /// Position of the first saved session whose identifier is not below `id`.
    fn split_saved(&self, id: u128) -> (p: usize)
        requires
            self.wf(),
        ensures
            is_id_split(self.saved(), id, p as int),
    {
        let ghost sv = self.saved();
        let mut i: usize = 0;
        while i < self.saved.len() && self.saved[i].id < id
            invariant
                sv == self.saved(),
                ids_sorted(sv),
                i <= sv.len(),
                forall|k: int| 0 <= k < i ==> (#[trigger] sv[k]).id < id,
            decreases self.saved.len() - i,
        {
            i = i + 1;
        }
        assert forall|k: int| i <= k < sv.len() implies (#[trigger] sv[k]).id >= id by {
            if k > i {
                assert(sv[i as int].id < sv[k].id);
            }
        }
        i
    }

    /// Store `s` among the saved sessions.
    fn store(&mut self, s: Session)
        requires
            old(self).wf(),
        ensures
            final(self).wf(),
            final(self).saved() == store_session(old(self).saved(), s@),
            final(self).current() == old(self).current(),
            final(self).crash() == old(self).crash(),
            final(self).auto_saving() == old(self).auto_saving(),
            final(self).max_history() == old(self).max_history(),
            final(self).history_manager() == old(self).history_manager(),
    {
        let ghost sv = self.saved();
        let ghost sview = s@;
        let p = self.split_saved(s.id);
        proof {
            lemma_store_sorted(sv, sview, p as int);
        }
        if p < self.saved.len() && self.saved[p].id == s.id {
            self.saved.set(p, s);
            assert(self.saved() =~= sv.update(p as int, sview));
        } else {
            self.saved.insert(p, s);
            assert(self.saved() =~= sv.insert(p as int, sview));
        }
    }

    /// Save a copy of `session` and record it as the last saved one.
    pub fn save_session(&mut self, session: &Session)
        requires
            old(self).wf(),
        ensures
            final(self).wf(),
            final(self).saved() == store_session(old(self).saved(), session@),
            crash_mark(final(self).crash(), session@.id, false),
            final(self).current() == old(self).current(),
            final(self).auto_saving() == old(self).auto_saving(),
            final(self).max_history() == old(self).max_history(),
            final(self).history_manager() == old(self).history_manager(),
    {
        self.store(session.duplicate());
        let now = now_nanos();
        self.crash = Some(CrashRecoveryInfo { session_id: session.id, timestamp: now, was_clean_shutdown: false, crash_count: 0 });
    }

    /// Save the current session.
    pub fn save_current_session(&mut self)
        requires
            old(self).wf(),
        ensures
            final(self).wf(),
            final(self).saved() == store_session(old(self).saved(), old(self).current()),
            crash_mark(final(self).crash(), old(self).current().id, false),
            final(self).current() == old(self).current(),
            final(self).auto_saving() == old(self).auto_saving(),
            final(self).max_history() == old(self).max_history(),
            final(self).history_manager() == old(self).history_manager(),
    {
        let s = self.current.duplicate();
        self.save_session(&s);
    }

    /// Position of the saved session with identifier `id`.
    fn find_saved(&self, id: u128) -> (r: Option<usize>)
        requires
            self.wf(),
        ensures
            match r {
                Some(i) => i < self.saved().len() && session_index(self.saved(), id) == i && has_session(self.saved(), id)
                    && find_session(self.saved(), id) == Some(self.saved()[i as int]),
                None => !has_session(self.saved(), id) && find_session(self.saved(), id) is None,
            },
    {
        find_in(&self.saved, id)
    }

    /// The saved session with identifier `id`.
    pub fn load_session(&self, id: u128) -> (r: Result<Session, SessionError>)
        requires
            self.wf(),
        ensures
            match r {
                Ok(s) => find_session(self.saved(), id) == Some(s@),
                Err(e) => e == SessionError::SessionNotFound(id) && find_session(self.saved(), id) is None,
            },
    {
        match self.find_saved(id) {
            Some(i) => Ok(self.saved[i].duplicate()),
            None => Err(SessionError::SessionNotFound(id)),
        }
    }

    /// Save the current session, then make `session` current.
    pub fn set_current_session(&mut self, session: Session)
        requires
            old(self).wf(),
        ensures
            final(self).wf(),
            final(self).saved() == store_session(old(self).saved(), old(self).current()),
            crash_mark(final(self).crash(), old(self).current().id, false),
            final(self).current() == session@,
            final(self).auto_saving() == old(self).auto_saving(),
            final(self).max_history() == old(self).max_history(),
            final(self).history_manager() == old(self).history_manager(),
    {
        self.save_current_session();
        self.current = session;
    }

    /// Save the current session, start a fresh one (named `name`, if given),
    /// make it current and save it too; returns a copy of it.
    pub fn new_session(&mut self, name: Option<String>) -> (s: Session)
        requires
            old(self).wf(),
        ensures
            final(self).wf(),
            is_fresh_session(SessionView { metadata: crate::session::MetadataView { name: None, ..s@.metadata }, ..s@ }),
            s@.metadata.name == match name { Some(n) => Some(n@), None => None },
            final(self).current() == s@,
            final(self).saved() == store_session(store_session(old(self).saved(), old(self).current()), s@),
            crash_mark(final(self).crash(), s@.id, false),
            final(self).auto_saving() == old(self).auto_saving(),
            final(self).max_history() == old(self).max_history(),
            final(self).history_manager() == old(self).history_manager(),
    {
        self.save_current_session();
        let mut session = Session::new();
        session.metadata.name = name;
        self.current = session.duplicate();
        self.save_session(&session);
        session
    }

    fn recency_less(a: &Session, b: &Session) -> (r: bool)
        ensures
            r == (accessed_key()(a@) < accessed_key()(b@)),
    {
        a.last_accessed < b.last_accessed
    }

    /// All saved sessions, most recently accessed first (equal times keep
    /// identifier order).
    pub fn get_all_sessions(&self) -> (r: Vec<Session>)
        ensures
            session_views(r@) == by_recency(self.saved()),
    {
        let ghost key = accessed_key();
        let ghost vv = self.saved();
        let mut out: Vec<Session> = Vec::new();
        let mut i: usize = 0;
        let n = self.saved.len();
        assert(session_views(out@) =~= sort_desc(vv.take(0), key));
        while i < n
            invariant
                key == accessed_key(),
                vv == self.saved(),
                vv.len() == n,
                i <= n,
                session_views(out@) == sort_desc(vv.take(i as int), key),
            decreases n - i,
        {
            let x = self.saved[i].duplicate();
            assert(x@ == vv[i as int]);
            let ghost so = session_views(out@);
            let mut j: usize = out.len();
            while j > 0 && Self::recency_less(&out[j - 1], &x)
                invariant
                    key == accessed_key(),
                    so == session_views(out@),
                    j <= out@.len(),
                    forall|k: int| j <= k < so.len() ==> key(#[trigger] so[k]) < key(x@),
                decreases j,
            {
                j = j - 1;
            }
            assert(j == 0 || key(so[j - 1]) >= key(x@));
            proof {
                lemma_insert_desc(so, x@, key, j as int);
            }
            out.insert(j, x);
            assert(session_views(out@) =~= so.insert(j as int, x@));
            assert(vv.take(i + 1).drop_last() =~= vv.take(i as int));
            assert(vv.take(i + 1).last() == vv[i as int]);
            i = i + 1;
        }
        assert(vv.take(n as int) =~= vv);
        out
    }

    /// Delete a saved session, the current one's stored copy included (the
    /// session in use stays as it is). Returns whether the session was
    /// stored.
    pub fn delete_session(&mut self, id: u128) -> (r: Result<bool, SessionError>)
        requires
            old(self).wf(),
        ensures
            final(self).wf(),
            r == Ok::<bool, SessionError>(has_session(old(self).saved(), id)),
            final(self).saved() == drop_session(old(self).saved(), id),
            final(self).current() == old(self).current(),
            final(self).crash() == old(self).crash(),
            final(self).auto_saving() == old(self).auto_saving(),
            final(self).max_history() == old(self).max_history(),
            final(self).history_manager() == old(self).history_manager(),
    {
        Ok(self.remove_saved(id))
    }

    /// Remove the saved session with identifier `id`; returns whether it was
    /// stored.
    fn remove_saved(&mut self, id: u128) -> (existed: bool)
        requires
            old(self).wf(),
        ensures
            final(self).wf(),
            existed == has_session(old(self).saved(), id),
            final(self).saved() == drop_session(old(self).saved(), id),
            final(self).current() == old(self).current(),
            final(self).crash() == old(self).crash(),
            final(self).auto_saving() == old(self).auto_saving(),
            final(self).max_history() == old(self).max_history(),
            final(self).history_manager() == old(self).history_manager(),
    {
        let ghost sv = self.saved();
        proof {
            lemma_drop_sorted(sv, id);
        }
        match self.find_saved(id) {
            Some(i) => {
                self.saved.remove(i);
                assert(self.saved() =~= sv.remove(i as int));
                true
            },
            None => false,
        }
    }
}

/// The current session after an edit at `now`: the given windows and
/// active window, marked accessed.
pub open spec fn session_edited(s: SessionView, windows: Seq<WindowView>, active: usize, now: i128) -> SessionView {
    SessionView { windows, active_window: active, last_accessed: now, ..s }
}

/// A window with a new tab list, marked accessed at `now`.
pub open spec fn window_retabbed(w: WindowView, tabs: Seq<TabView>, active: usize, now: i128) -> WindowView {
    WindowView { tabs, active_tab: active, last_accessed: now, ..w }
}

/// A window after removing tab `index` at `now` (nothing is removed when
/// there is no such tab; the window is marked accessed either way).
pub open spec fn window_tab_removed(w: WindowView, index: usize, now: i128) -> WindowView {
    if index < w.tabs.len() {
        let ts = w.tabs.remove(index as int);
        window_retabbed(w, ts, active_after_remove(w.active_tab, ts.len()), now)
    } else {
        WindowView { last_accessed: now, ..w }
    }
}

/// The session with the active tab of the active window replaced by `t`,
/// marked accessed at `now`.
pub open spec fn active_tab_replaced(s: SessionView, t: TabView, now: i128) -> SessionView {
    let w = s.windows[s.active_window as int];
    session_edited(
        s,
        s.windows.update(s.active_window as int, WindowView { tabs: w.tabs.update(w.active_tab as int, t), ..w }),
        s.active_window,
        now,
    )
}

/// Whether the session has an active window holding an active tab.
pub open spec fn has_active_tab(s: SessionView) -> bool {
    s.active_window < s.windows.len() && s.windows[s.active_window as int].active_tab < s.windows[s.active_window as int].tabs.len()
}

/// The active tab of the active window.
pub open spec fn active_tab_of(s: SessionView) -> TabView {
    s.windows[s.active_window as int].tabs[s.windows[s.active_window as int].active_tab as int]
}

/// The error of a request that needs the active tab, if there is none.
pub open spec fn no_active_tab_error(s: SessionView, e: SessionError) -> bool {
    if s.active_window >= s.windows.len() {
        e matches SessionError::InvalidState(m) && m@ == "No active window"@
    } else {
        e matches SessionError::InvalidState(m) && m@ == "No active tab"@
    }
}

/// An entry for a first visit of `url` with title `title`.
pub open spec fn first_visit(e: HistoryEntryView, url: Seq<char>, title: Seq<char>) -> bool {
    &&& e.url == url
    &&& e.title == title
    &&& e.visit_count == 1
    &&& e.favicon_url is None
    &&& e.referrer is None
    &&& e.metadata.description is None
    &&& e.metadata.keywords.len() == 0
    &&& e.metadata.og_image is None
    &&& e.metadata.author is None
    &&& e.metadata.canonical_url is None
}

/// A tab after stepping back: the position moves down by one and, when
/// the new position holds an entry, the tab shows it.
pub open spec fn tab_back(t: TabView) -> TabView {
    if tab_can_go_back(t) {
        let p = (t.position - 1) as usize;
        if p < t.history.len() {
            TabView { position: p, url: t.history[p as int].url, title: t.history[p as int].title, ..t }
        } else {
            TabView { position: p, ..t }
        }
    } else {
        t
    }
}

/// The entry that stepping back reaches, if any.
pub open spec fn back_entry(t: TabView) -> Option<HistoryEntryView> {
    if tab_can_go_back(t) && t.position - 1 < t.history.len() {
        Some(t.history[t.position - 1])
    } else {
        None
    }
}

/// A tab after stepping forward: it moves to and shows the next entry.
pub open spec fn tab_forward(t: TabView) -> TabView {
    if tab_can_go_forward(t) {
        let p = (t.position + 1) as usize;
        TabView { position: p, url: t.history[p as int].url, title: t.history[p as int].title, ..t }
    } else {
        t
    }
}

/// The entry that stepping forward reaches, if any.
pub open spec fn forward_entry(t: TabView) -> Option<HistoryEntryView> {
    if tab_can_go_forward(t) {
        Some(t.history[t.position + 1])
    } else {
        None
    }
}

/// The parts of the store that session edits leave alone.
pub open spec fn same_store(a: SessionManager, b: SessionManager) -> bool {
    &&& a.saved() == b.saved()
    &&& a.crash() == b.crash()
    &&& a.auto_saving() == b.auto_saving()
    &&& a.max_history() == b.max_history()
    &&& a.history_manager() == b.history_manager()
    &&& a.wf() == b.wf()
}

impl SessionManager {
    /// Append a window to the current session; returns its index.
    pub fn add_window(&mut self, window: WindowState) -> (i: usize)
        requires
            old(self).current().windows.len() < usize::MAX,
        ensures
            i == old(self).current().windows.len(),
            exists|now: i128| final(self).current() == #[trigger] session_edited(
                old(self).current(),
                old(self).current().windows.push(window@),
                old(self).current().active_window,
                now,
            ),
            same_store(*final(self), *old(self)),
    {
        let now = now_nanos();
        let i = self.current.add_window(window);
        self.current.touch_at(now);
        assert(self.current() == session_edited(old(self).current(), old(self).current().windows.push(window@), old(self).current().active_window, now));
        i
    }

    /// Remove the window at `index` from the current session, if there is
    /// one; the session is marked accessed either way.
    pub fn remove_window(&mut self, index: usize) -> (r: Option<WindowState>)
        ensures
            index < old(self).current().windows.len() ==> {
                let ws = old(self).current().windows.remove(index as int);
                &&& r matches Some(w) && w@ == old(self).current().windows[index as int]
                &&& exists|now: i128| final(self).current() == #[trigger] session_edited(
                    old(self).current(),
                    ws,
                    active_after_remove(old(self).current().active_window, ws.len()),
                    now,
                )
            },
            index >= old(self).current().windows.len() ==> r is None && exists|now: i128| final(self).current()
                == #[trigger] session_edited(old(self).current(), old(self).current().windows, old(self).current().active_window, now),
            same_store(*final(self), *old(self)),
    {
        let now = now_nanos();
        let n = self.current.windows.len();
        let r = self.current.remove_window(index);
        self.current.touch_at(now);
        if index < n {
            let ghost ws = old(self).current().windows.remove(index as int);
            assert(self.current() == session_edited(old(self).current(), ws, active_after_remove(old(self).current().active_window, ws.len()), now));
        } else {
            assert(self.current() == session_edited(old(self).current(), old(self).current().windows, old(self).current().active_window, now));
        }
        r
    }

    /// A copy of the window at `index` of the current session.
    pub fn get_window(&self, index: usize) -> (r: Option<WindowState>)
        ensures
            match r {
                Some(w) => index < self.current().windows.len() && w@ == self.current().windows[index as int],
                None => index >= self.current().windows.len(),
            },
    {
        if index < self.current.windows.len() {
            Some(self.current.windows[index].duplicate())
        } else {
            None
        }
    }

    /// Replace the window at `index` of the current session.
    pub fn update_window(&mut self, index: usize, window: WindowState) -> (r: Result<(), SessionError>)
        ensures
            index >= old(self).current().windows.len() ==> r == Err::<(), SessionError>(SessionError::WindowNotFound(window@.id))
                && final(self).current() == old(self).current(),
            index < old(self).current().windows.len() ==> r is Ok && exists|now: i128| final(self).current()
                == #[trigger] session_edited(
                old(self).current(),
                old(self).current().windows.update(index as int, window@),
                old(self).current().active_window,
                now,
            ),
            same_store(*final(self), *old(self)),
    {
        if index >= self.current.windows.len() {
            return Err(SessionError::WindowNotFound(window.id));
        }
        let now = now_nanos();
        let ghost ws = self.current().windows;
        let ghost wv = window@;
        self.current.windows.set(index, window);
        assert(self.current().windows =~= ws.update(index as int, wv));
        self.current.touch_at(now);
        assert(self.current() == session_edited(old(self).current(), ws.update(index as int, wv), old(self).current().active_window, now));
        Ok(())
    }

    /// Make window `index` of the current session active.
    pub fn set_active_window(&mut self, index: usize) -> (r: Result<(), SessionError>)
        ensures
            index >= old(self).current().windows.len() ==> (r matches Err(SessionError::InvalidState(m)) && m@
                == "Invalid window index: "@ + decimal(index as nat)) && final(self).current() == old(self).current(),
            index < old(self).current().windows.len() ==> r is Ok && exists|now: i128| final(self).current()
                == #[trigger] crate::session::session_window_activated(old(self).current(), index, now),
            same_store(*final(self), *old(self)),
    {
        if !self.current.set_active_window(index) {
            let mut m = "Invalid window index: ".to_string();
            push_decimal(&mut m, index as u128);
            return Err(SessionError::InvalidState(m));
        }
        Ok(())
    }

    /// Append a tab to window `window_index` of the current session; returns
    /// its index.
    pub fn add_tab(&mut self, window_index: usize, tab: TabState) -> (r: Result<usize, SessionError>)
        requires
            window_index < old(self).current().windows.len() ==> old(self).current().windows[window_index as int].tabs.len()
                < usize::MAX,
        ensures
            window_index >= old(self).current().windows.len() ==> r == Err::<usize, SessionError>(
                SessionError::WindowNotFound(0),
            ) && final(self).current() == old(self).current(),
            window_index < old(self).current().windows.len() ==> {
                let w = old(self).current().windows[window_index as int];
                &&& r == Ok::<usize, SessionError>(w.tabs.len() as usize)
                &&& exists|now: i128| final(self).current() == #[trigger] session_edited(
                    old(self).current(),
                    old(self).current().windows.update(window_index as int, window_retabbed(w, w.tabs.push(tab@), w.active_tab, now)),
                    old(self).current().active_window,
                    now,
                )
            },
            same_store(*final(self), *old(self)),
    {
        if window_index >= self.current.windows.len() {
            return Err(SessionError::WindowNotFound(0));
        }
        let now = now_nanos();
        let ghost ws = self.current().windows;
        let ghost tv = tab@;
        let mut w = self.current.windows.remove(window_index);
        let ghost w0 = w@;
        let i = w.add_tab(tab);
        w.touch_at(now);
        let ghost w1 = w@;
        assert(w1 == window_retabbed(w0, w0.tabs.push(tv), w0.active_tab, now));
        self.current.windows.insert(window_index, w);
        assert(self.current().windows =~= ws.update(window_index as int, w1));
        self.current.touch_at(now);
        assert(self.current() == session_edited(old(self).current(), ws.update(window_index as int, w1), old(self).current().active_window, now));
        Ok(i)
    }

    /// Remove tab `tab_index` from window `window_index` of the current
    /// session.
    pub fn remove_tab(&mut self, window_index: usize, tab_index: usize) -> (r: Result<Option<TabState>, SessionError>)
        ensures
            window_index >= old(self).current().windows.len() ==> r == Err::<Option<TabState>, SessionError>(
                SessionError::WindowNotFound(0),
            ) && final(self).current() == old(self).current(),
            window_index < old(self).current().windows.len() ==> {
                let w = old(self).current().windows[window_index as int];
                &&& r matches Ok(t) && (tab_index < w.tabs.len() ==> (t matches Some(x) && x@ == w.tabs[tab_index as int]))
                    && (tab_index >= w.tabs.len() ==> t is None)
                &&& exists|now: i128| final(self).current() == #[trigger] session_edited(
                    old(self).current(),
                    old(self).current().windows.update(window_index as int, window_tab_removed(w, tab_index, now)),
                    old(self).current().active_window,
                    now,
                )
            },
            same_store(*final(self), *old(self)),
    {
        if window_index >= self.current.windows.len() {
            return Err(SessionError::WindowNotFound(0));
        }
        let now = now_nanos();
        let ghost ws = self.current().windows;
        let mut w = self.current.windows.remove(window_index);
        let ghost w0 = w@;
        let t = w.remove_tab(tab_index);
        w.touch_at(now);
        let ghost w1 = w@;
        assert(w1 == window_tab_removed(w0, tab_index, now));
        self.current.windows.insert(window_index, w);
        assert(self.current().windows =~= ws.update(window_index as int, w1));
        self.current.touch_at(now);
        assert(self.current() == session_edited(old(self).current(), ws.update(window_index as int, w1), old(self).current().active_window, now));
        Ok(t)
    }

    /// Replace tab `tab_index` of window `window_index` of the current
    /// session.
    pub fn update_tab(&mut self, window_index: usize, tab_index: usize, tab: TabState) -> (r: Result<(), SessionError>)
        ensures
            window_index >= old(self).current().windows.len() ==> r == Err::<(), SessionError>(SessionError::WindowNotFound(0))
                && final(self).current() == old(self).current(),
            window_index < old(self).current().windows.len() && tab_index >= old(self).current().windows[window_index as int].tabs.len()
                ==> r == Err::<(), SessionError>(SessionError::TabNotFound(tab@.id)) && final(self).current() == old(self).current(),
            window_index < old(self).current().windows.len() && tab_index < old(self).current().windows[window_index as int].tabs.len()
                ==> {
                let w = old(self).current().windows[window_index as int];
                &&& r is Ok
                &&& exists|now: i128| final(self).current() == #[trigger] session_edited(
                    old(self).current(),
                    old(self).current().windows.update(window_index as int, window_retabbed(w, w.tabs.update(tab_index as int, tab@), w.active_tab, now)),
                    old(self).current().active_window,
                    now,
                )
            },
            same_store(*final(self), *old(self)),
    {
        if window_index >= self.current.windows.len() {
            return Err(SessionError::WindowNotFound(0));
        }
        if tab_index >= self.current.windows[window_index].tabs.len() {
            return Err(SessionError::TabNotFound(tab.id));
        }
        let now = now_nanos();
        let ghost ws = self.current().windows;
        let ghost tv = tab@;
        let mut w = self.current.windows.remove(window_index);
        let ghost w0 = w@;
        let ghost ts = w0.tabs;
        w.tabs.set(tab_index, tab);
        assert(w@.tabs =~= ts.update(tab_index as int, tv));
        w.touch_at(now);
        let ghost w1 = w@;
        assert(w1 == window_retabbed(w0, ts.update(tab_index as int, tv), w0.active_tab, now));
        self.current.windows.insert(window_index, w);
        assert(self.current().windows =~= ws.update(window_index as int, w1));
        self.current.touch_at(now);
        assert(self.current() == session_edited(old(self).current(), ws.update(window_index as int, w1), old(self).current().active_window, now));
        Ok(())
    }
}

/// The value of an optional entry.
pub open spec fn opt_entry(x: Option<HistoryEntry>) -> Option<HistoryEntryView> {
    match x {
        Some(e) => Some(e@),
        None => None,
    }
}

impl SessionManager {
    /// Indices of the active window and its active tab.
    fn active_indices(&self) -> (r: Result<(usize, usize), SessionError>)
        ensures
            match r {
                Ok((aw, at)) => has_active_tab(self.current()) && aw == self.current().active_window
                    && at == self.current().windows[aw as int].active_tab,
                Err(e) => !has_active_tab(self.current()) && no_active_tab_error(self.current(), e),
            },
    {
        let aw = self.current.active_window;
        if aw >= self.current.windows.len() {
            return Err(SessionError::InvalidState("No active window".to_string()));
        }
        let at = self.current.windows[aw].active_tab;
        if at >= self.current.windows[aw].tabs.len() {
            return Err(SessionError::InvalidState("No active tab".to_string()));
        }
        Ok((aw, at))
    }

    /// Put `t` in place of the active tab and mark the session accessed.
    fn replace_active_tab(&mut self, aw: usize, at: usize, t: TabState, now: i128)
        requires
            has_active_tab(old(self).current()),
            aw == old(self).current().active_window,
            at == old(self).current().windows[aw as int].active_tab,
        ensures
            final(self).current() == active_tab_replaced(old(self).current(), t@, now),
            same_store(*final(self), *old(self)),
    {
        let ghost ws = self.current().windows;
        let ghost tv = t@;
        let mut w = self.current.windows.remove(aw);
        let ghost w0 = w@;
        w.tabs.set(at, t);
        assert(w@.tabs =~= w0.tabs.update(at as int, tv));
        let ghost w1 = w@;
        self.current.windows.insert(aw, w);
        assert(self.current().windows =~= ws.update(aw as int, w1));
        self.current.touch_at(now);
    }

    /// Navigate the active tab of the active window to `url`, recording a
    /// new history entry.
    pub fn navigate(&mut self, url: &str, title: &str) -> (r: Result<(), SessionError>)
        requires
            has_active_tab(old(self).current()) ==> active_tab_of(old(self).current()).position < usize::MAX
                && active_tab_of(old(self).current()).history.len() < usize::MAX,
        ensures
            !has_active_tab(old(self).current()) ==> (r matches Err(e) && no_active_tab_error(old(self).current(), e))
                && final(self).current() == old(self).current(),
            has_active_tab(old(self).current()) ==> r is Ok && exists|e: HistoryEntryView, now: i128|
                first_visit(e, url@, title@) && final(self).current() == #[trigger] active_tab_replaced(
                    old(self).current(),
                    tab_navigated(active_tab_of(old(self).current()), e, now),
                    now,
                ),
            same_store(*final(self), *old(self)),
    {
        let (aw, at) = match self.active_indices() {
            Ok(p) => p,
            Err(e) => return Err(e),
        };
        let now = now_nanos();
        let entry = HistoryEntry::new_at(crate::clock::fresh_id(), url, title, now);
        let ghost ev = entry@;
        let mut t = self.current.windows[aw].tabs[at].duplicate();
        t.navigate_at(entry, now);
        self.replace_active_tab(aw, at, t, now);
        assert(first_visit(ev, url@, title@));
        assert(self.current() == active_tab_replaced(old(self).current(), tab_navigated(active_tab_of(old(self).current()), ev, now), now));
        Ok(())
    }

    /// Step the active tab back; returns the entry it now shows.
    pub fn go_back(&mut self) -> (r: Result<Option<HistoryEntry>, SessionError>)
        ensures
            !has_active_tab(old(self).current()) ==> (r matches Err(e) && no_active_tab_error(old(self).current(), e))
                && final(self).current() == old(self).current(),
            has_active_tab(old(self).current()) ==> (r matches Ok(x) && opt_entry(x) == back_entry(
                active_tab_of(old(self).current()),
            )) && exists|now: i128| final(self).current() == #[trigger] active_tab_replaced(
                old(self).current(),
                tab_back(active_tab_of(old(self).current())),
                now,
            ),
            same_store(*final(self), *old(self)),
    {
        let (aw, at) = match self.active_indices() {
            Ok(p) => p,
            Err(e) => return Err(e),
        };
        let now = now_nanos();
        let mut t = self.current.windows[aw].tabs[at].duplicate();
        let ghost t0 = t@;
        let r = match t.go_back() {
            Some(e) => Some(e.duplicate()),
            None => None,
        };
        if r.is_some() {
            t.url = match t.current_entry() {
                Some(c) => c.url.clone(),
                None => String::new(),
            };
            t.title = match t.current_entry() {
                Some(c) => c.title.clone(),
                None => String::new(),
            };
        }
        assert(t@ == tab_back(t0));
        self.replace_active_tab(aw, at, t, now);
        assert(self.current() == active_tab_replaced(old(self).current(), tab_back(t0), now));
        Ok(r)
    }

    /// Step the active tab forward; returns the entry it now shows.
    pub fn go_forward(&mut self) -> (r: Result<Option<HistoryEntry>, SessionError>)
        ensures
            !has_active_tab(old(self).current()) ==> (r matches Err(e) && no_active_tab_error(old(self).current(), e))
                && final(self).current() == old(self).current(),
            has_active_tab(old(self).current()) ==> (r matches Ok(x) && opt_entry(x) == forward_entry(
                active_tab_of(old(self).current()),
            )) && exists|now: i128| final(self).current() == #[trigger] active_tab_replaced(
                old(self).current(),
                tab_forward(active_tab_of(old(self).current())),
                now,
            ),
            same_store(*final(self), *old(self)),
    {
        let (aw, at) = match self.active_indices() {
            Ok(p) => p,
            Err(e) => return Err(e),
        };
        let now = now_nanos();
        let mut t = self.current.windows[aw].tabs[at].duplicate();
        let ghost t0 = t@;
        let hl = t.history_stack.len();
        assert(t0.history.len() == hl);
        let r = match t.go_forward() {
            Some(e) => Some(e.duplicate()),
            None => None,
        };
        if r.is_some() {
            t.url = match t.current_entry() {
                Some(c) => c.url.clone(),
                None => String::new(),
            };
            t.title = match t.current_entry() {
                Some(c) => c.title.clone(),
                None => String::new(),
            };
        }
        assert(t@ == tab_forward(t0));
        self.replace_active_tab(aw, at, t, now);
        assert(self.current() == active_tab_replaced(old(self).current(), tab_forward(t0), now));
        Ok(r)
    }

    /// Whether the active tab can go back.
    pub fn can_go_back(&self) -> (r: bool)
        ensures
            r == (has_active_tab(self.current()) && tab_can_go_back(active_tab_of(self.current()))),
    {
        match self.current.get_active_window() {
            Some(w) => match w.get_active_tab() {
                Some(t) => t.can_go_back(),
                None => false,
            },
            None => false,
        }
    }

    /// Whether the active tab can go forward.
    pub fn can_go_forward(&self) -> (r: bool)
        ensures
            r == (has_active_tab(self.current()) && tab_can_go_forward(active_tab_of(self.current()))),
    {
        match self.current.get_active_window() {
            Some(w) => match w.get_active_tab() {
                Some(t) => t.can_go_forward(),
                None => false,
            },
            None => false,
        }
    }

    /// Mark auto-save as running; it can run only once at a time.
    pub fn start_auto_save(&mut self) -> (r: Result<(), SessionError>)
        ensures
            old(self).auto_saving() ==> r == Err::<(), SessionError>(SessionError::AutoSaveAlreadyRunning),
            !old(self).auto_saving() ==> r is Ok,
            final(self).auto_saving(),
            final(self).current() == old(self).current(),
            final(self).saved() == old(self).saved(),
            final(self).crash() == old(self).crash(),
            final(self).max_history() == old(self).max_history(),
            final(self).history_manager() == old(self).history_manager(),
    {
        if self.auto_save {
            return Err(SessionError::AutoSaveAlreadyRunning);
        }
        self.auto_save = true;
        Ok(())
    }

    /// Mark auto-save as stopped.
    pub fn stop_auto_save(&mut self)
        ensures
            !final(self).auto_saving(),
            final(self).current() == old(self).current(),
            final(self).saved() == old(self).saved(),
            final(self).crash() == old(self).crash(),
            final(self).max_history() == old(self).max_history(),
            final(self).history_manager() == old(self).history_manager(),
    {
        self.auto_save = false;
    }

    /// The auto-save interval, in seconds.
    pub fn auto_save_interval_secs(&self) -> (r: u64)
        ensures
            r == self.interval(),
    {
        self.config.auto_save_interval_secs
    }

    /// The crash-recovery record, if any.
    pub fn crash_info(&self) -> (r: Option<CrashRecoveryInfo>)
        ensures
            r == self.crash(),
    {
        self.crash
    }

    /// Copies of the saved sessions in identifier order, as they are stored.
    pub fn saved_sessions(&self) -> (r: Vec<Session>)
        ensures
            session_views(r@) == self.saved(),
    {
        let mut r: Vec<Session> = Vec::new();
        let mut i: usize = 0;
        while i < self.saved.len()
            invariant
                i <= self.saved@.len(),
                session_views(r@) == self.saved().take(i as int),
            decreases self.saved.len() - i,
        {
            let ghost prev = r@;
            let x = self.saved[i].duplicate();
            r.push(x);
            assert(session_views(r@) =~= session_views(prev).push(x@));
            i = i + 1;
            assert(session_views(r@) =~= self.saved().take(i as int));
        }
        assert(self.saved().take(i as int) =~= self.saved());
        r
    }

    /// Save the current session and record a clean shutdown.
    pub fn mark_clean_shutdown(&mut self)
        requires
            old(self).wf(),
        ensures
            final(self).wf(),
            final(self).saved() == store_session(old(self).saved(), old(self).current()),
            crash_mark(final(self).crash(), old(self).current().id, true),
            final(self).current() == old(self).current(),
            final(self).auto_saving() == old(self).auto_saving(),
            final(self).max_history() == old(self).max_history(),
            final(self).history_manager() == old(self).history_manager(),
    {
        self.save_current_session();
        let now = now_nanos();
        self.crash = Some(CrashRecoveryInfo { session_id: self.current.id, timestamp: now, was_clean_shutdown: true, crash_count: 0 });
    }

    /// Stop auto-save and record a clean shutdown.
    pub fn close(&mut self)
        requires
            old(self).wf(),
        ensures
            final(self).wf(),
            !final(self).auto_saving(),
            final(self).saved() == store_session(old(self).saved(), old(self).current()),
            crash_mark(final(self).crash(), old(self).current().id, true),
            final(self).current() == old(self).current(),
    {
        self.stop_auto_save();
        self.mark_clean_shutdown();
    }

    /// Counts of saved sessions and of the current session's windows and
    /// tabs.
    pub fn get_stats(&self) -> (r: SessionStats)
        requires
            crate::session::total_tabs(self.current().windows) <= usize::MAX,
        ensures
            r.total_saved_sessions == self.saved().len(),
            r.current_session_windows == self.current().windows.len(),
            r.current_session_tabs == crate::session::total_tabs(self.current().windows),
    {
        SessionStats {
            total_saved_sessions: self.saved.len() as u64,
            current_session_windows: self.current.window_count(),
            current_session_tabs: self.current.total_tab_count(),
        }
    }

    /// Remove the saved sessions past the configured number, least recently
    /// accessed first, never the current one; returns how many were removed.
    pub fn prune_old_sessions(&mut self) -> (n: u64)
        requires
            old(self).wf(),
        ensures
            final(self).wf(),
            n == prune_ids(old(self).saved(), old(self).max_history(), old(self).current().id).len(),
            final(self).saved() == drop_sessions(
                old(self).saved(),
                prune_ids(old(self).saved(), old(self).max_history(), old(self).current().id),
            ),
            final(self).current() == old(self).current(),
            final(self).crash() == old(self).crash(),
            final(self).auto_saving() == old(self).auto_saving(),
            final(self).max_history() == old(self).max_history(),
            final(self).history_manager() == old(self).history_manager(),
    {
        let sorted = self.get_all_sessions();
        let ghost sv = session_views(sorted@);
        let max = self.config.max_session_history;
        let cur = self.current.id;
        let ghost pred = |s: SessionView| s.id != cur;
        let ghost tail = if sv.len() > max { sv.skip(max as int) } else { Seq::<SessionView>::empty() };
        let mut ids: Vec<u128> = Vec::new();
        if sorted.len() > max {
            let mut k: usize = max;
            while k < sorted.len()
                invariant
                    sv == session_views(sorted@),
                    sv.len() > max,
                    tail == sv.skip(max as int),
                    pred == (|s: SessionView| s.id != cur),
                    max <= k <= sv.len(),
                    ids@ == tail.take(k - max).filter(pred).map_values(|s: SessionView| s.id),
                decreases sorted.len() - k,
            {
                let ghost prev = tail.take(k - max).filter(pred);
                if sorted[k].id != cur {
                    ids.push(sorted[k].id);
                }
                assert(tail.take(k + 1 - max).drop_last() =~= tail.take(k - max));
                assert(tail.take(k + 1 - max).last() == sv[k as int]);
                reveal(Seq::filter);
                k = k + 1;
                assert(ids@ =~= tail.take(k - max).filter(pred).map_values(|s: SessionView| s.id));
            }
            assert(tail.take(k - max) =~= tail);
        } else {
            assert(ids@ =~= tail.filter(pred).map_values(|s: SessionView| s.id)) by {
                reveal(Seq::filter);
            }
        }
        let ghost victims = ids@;
        assert(victims == prune_ids(old(self).saved(), max, cur));
        let mut removed: u64 = 0;
        let mut i: usize = 0;
        while i < ids.len()
            invariant
                victims == ids@,
                self.wf(),
                i <= victims.len(),
                removed == i,
                self.saved() == drop_sessions(old(self).saved(), victims.take(i as int)),
                self.current() == old(self).current(),
                self.crash() == old(self).crash(),
                self.auto_saving() == old(self).auto_saving(),
                self.max_history() == old(self).max_history(),
                self.history_manager() == old(self).history_manager(),
            decreases ids.len() - i,
        {
            self.remove_saved(ids[i]);
            assert(victims.take(i + 1).drop_last() =~= victims.take(i as int));
            removed = removed + 1;
            i = i + 1;
        }
        assert(victims.take(i as int) =~= victims);
        removed
    }
}

} // verus!
