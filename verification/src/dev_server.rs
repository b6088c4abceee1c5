use vstd::prelude::*;
use vstd::string::*;
use crate::text::{chars_of, decimal, push_decimal, seq_contains, str_contains, str_eq};

verus! {

/// Configuration of the hot-reload development server.
pub struct DevServerConfig {
    /// Port to listen on.
    pub port: u16,
    /// Directory holding the static files.
    pub workspace_dir: String,
    /// Whether pages get the live-reload script.
    pub live_reload: bool,
    /// Whether source maps are served.
    pub sourcemap: bool,
}

impl Default for DevServerConfig {
    fn default() -> (c: Self)
        ensures
            c.port == 8080,
            c.workspace_dir@ == "."@,
            c.live_reload,
            c.sourcemap,
    {
        DevServerConfig { port: 8080, workspace_dir: ".".to_string(), live_reload: true, sourcemap: true }
    }
}

/// A change in the watched directory, as sent to pages.
#[derive(Debug, Clone)]
pub enum FileChangeEvent {
    Change { path: String },
    Add { path: String },
    Remove { path: String },
}

/// The hot-reload development server's state: its configuration. (The
/// socket it listens on and its connected pages are held by the caller.)
pub struct HotReloadServer {
    config: DevServerConfig,
}

impl HotReloadServer {
    /// The port the server listens on.
    pub closed spec fn port(&self) -> u16 {
        self.config.port
    }

    /// Whether pages get the live-reload script.
    pub closed spec fn spec_live_reload(&self) -> bool {
        self.config.live_reload
    }

    /// A server with configuration `config`.
    pub fn new(config: DevServerConfig) -> (s: Self)
        ensures
            s.port() == config.port,
            s.spec_live_reload() == config.live_reload,
    {
        HotReloadServer { config }
    }

    /// Whether pages get the live-reload script.
    pub fn live_reload(&self) -> (r: bool)
        ensures
            r == self.spec_live_reload(),
    {
        self.config.live_reload
    }

    /// The base URL of the server.
    pub fn url(&self) -> (r: String)
        ensures
            r@ == "http://127.0.0.1:"@ + decimal(self.port() as nat),
    {
        let mut r = "http://127.0.0.1:".to_string();
        push_decimal(&mut r, self.config.port as u128);
        r
    }

    /// The live-reload WebSocket URL of the server.
    pub fn ws_url(&self) -> (r: String)
        ensures
            r@ == "ws://127.0.0.1:"@ + decimal(self.port() as nat) + "/livereload"@,
    {
        let mut r = "ws://127.0.0.1:".to_string();
        push_decimal(&mut r, self.config.port as u128);
        r.append("/livereload");
        r
    }
}

/// What a request asks for.
#[derive(Debug, Clone, Copy, PartialEq, Eq, Structural)]
pub enum RequestRoute {
    /// The page describing live reload.
    LiveReloadInfo,
    /// The live-reload script.
    LiveReloadScript,
    /// A file of the workspace.
    StaticFile,
}

/// The route of a request: the two live-reload endpoints for `GET`,
/// otherwise a static file.
pub open spec fn route_of(method: Seq<char>, path: Seq<char>) -> RequestRoute {
    if method == "GET"@ && path == "/livereload"@ {
        RequestRoute::LiveReloadInfo
    } else if method == "GET"@ && path == "/__livereload__"@ {
        RequestRoute::LiveReloadScript
    } else {
        RequestRoute::StaticFile
    }
}

/// The route of a request (see [`route_of`]).
pub fn route_request(method: &str, path: &str) -> (r: RequestRoute)
    ensures
        r == route_of(method@, path@),
{
    if str_eq(method, "GET") && str_eq(path, "/livereload") {
        RequestRoute::LiveReloadInfo
    } else if str_eq(method, "GET") && str_eq(path, "/__livereload__") {
        RequestRoute::LiveReloadScript
    } else {
        RequestRoute::StaticFile
    }
}

/// Which file a static request names.
#[derive(Debug, Clone)]
pub enum StaticTarget {
    /// The workspace's `index.html`.
    Index,
    /// A path climbing out of the workspace: refused.
    Forbidden,
    /// A path inside the workspace.
    File(String),
}

/// The text before the first `c`, or all of it.
pub open spec fn before_char(s: Seq<char>, c: char) -> Seq<char> {
    if s.contains(c) {
        s.take(choose|i: int| 0 <= i < s.len() && s[i] == c && forall|k: int| 0 <= k < i ==> s[k] != c)
    } else {
        s
    }
}

/// The text without its leading slashes.
pub open spec fn trim_slashes(s: Seq<char>) -> Seq<char>
    decreases s.len(),
{
    if s.len() > 0 && s[0] == '/' {
        trim_slashes(s.drop_first())
    } else {
        s
    }
}

/// The file a request path names: the query is ignored; the root names
/// the index; leading slashes are dropped; a path with `..` is refused.
pub open spec fn target_of(path: Seq<char>) -> Option<Seq<char>> {
    let p = before_char(path, '?');
    if p == "/"@ || p.len() == 0 {
        Some("index.html"@)
    } else if seq_contains(trim_slashes(p), ".."@) {
        None
    } else {
        Some(trim_slashes(p))
    }
}

proof fn lemma_first_char(s: Seq<char>, c: char, i: int)
    requires
        0 <= i < s.len(),
        s[i] == c,
        forall|k: int| 0 <= k < i ==> s[k] != c,
    ensures
        before_char(s, c) == s.take(i),
{
    assert(s.contains(c));
    let j = choose|j: int| 0 <= j < s.len() && s[j] == c && forall|k: int| 0 <= k < j ==> s[k] != c;
    if j < i {
        assert(s[j] != c);
    } else if i < j {
        assert(s[i] != c);
    }
}

/// The file a static request names (see [`target_of`]).
pub fn static_target(path: &str) -> (r: StaticTarget)
    ensures
        match r {
            StaticTarget::Index => target_of(path@) == Some("index.html"@) && (before_char(path@, '?') == "/"@
                || before_char(path@, '?').len() == 0),
            StaticTarget::Forbidden => target_of(path@) is None,
            StaticTarget::File(f) => target_of(path@) == Some(f@) && before_char(path@, '?') != "/"@ && before_char(
                path@,
                '?',
            ).len() != 0,
        },
{
    let n = path.unicode_len();
    let mut q: usize = 0;
    while q < n && path.get_char(q) != '?'
        invariant
            n == path@.len(),
            q <= n,
            forall|k: int| 0 <= k < q ==> path@[k] != '?',
        decreases n - q,
    {
        q = q + 1;
    }
    let p = path.substring_char(0, q);
    proof {
        if q < n {
            lemma_first_char(path@, '?', q as int);
        } else {
            assert(!path@.contains('?'));
            assert(path@.take(q as int) =~= path@);
        }
    }
    assert(p@ == before_char(path@, '?'));
    if str_eq(p, "/") || p.unicode_len() == 0 {
        return StaticTarget::Index;
    }
    let m = p.unicode_len();
    let mut s: usize = 0;
    assert(p@.skip(0) =~= p@);
    while s < m && p.get_char(s) == '/'
        invariant
            m == p@.len(),
            s <= m,
            trim_slashes(p@) == trim_slashes(p@.skip(s as int)),
        decreases m - s,
    {
        assert(p@.skip(s as int).drop_first() =~= p@.skip(s + 1));
        s = s + 1;
    }
    assert(trim_slashes(p@.skip(s as int)) == p@.skip(s as int)) by {
        if s < m {
            assert(p@.skip(s as int)[0] == p@[s as int]);
        }
    }
    let clean = p.substring_char(s, m);
    assert(clean@ =~= p@.skip(s as int));
    if str_contains(clean, "..") {
        StaticTarget::Forbidden
    } else {
        StaticTarget::File(clean.to_string())
    }
}

/// How a file is served: HTML gets the live-reload script, other files
/// are sent as they are with their content type.
#[derive(Debug, Clone, Copy)]
pub enum ContentKind {
    Html,
    Typed(&'static str),
}

/// The content type for a file extension.
pub open spec fn content_type_of(ext: Option<Seq<char>>) -> Seq<char> {
    match ext {
        Some(e) => if e == "css"@ {
            "text/css"@
        } else if e == "js"@ {
            "application/javascript"@
        } else if e == "json"@ {
            "application/json"@
        } else if e == "png"@ {
            "image/png"@
        } else if e == "jpg"@ || e == "jpeg"@ {
            "image/jpeg"@
        } else if e == "svg"@ {
            "image/svg+xml"@
        } else {
            "application/octet-stream"@
        },
        None => "application/octet-stream"@,
    }
}

/// Whether an extension names an HTML page.
pub open spec fn is_html_ext(ext: Option<Seq<char>>) -> bool {
    ext matches Some(e) && (e == "html"@ || e == "htm"@)
}

/// How a file with this extension is served.
pub fn content_kind(ext: Option<&str>) -> (k: ContentKind)
    ensures
        match k {
            ContentKind::Html => is_html_ext(match ext { Some(e) => Some(e@), None => None }),
            ContentKind::Typed(t) => !is_html_ext(match ext { Some(e) => Some(e@), None => None }) && t@ == content_type_of(
                match ext { Some(e) => Some(e@), None => None },
            ),
        },
{
    match ext {
        Some(e) => {
            if str_eq(e, "html") || str_eq(e, "htm") {
                ContentKind::Html
            } else if str_eq(e, "css") {
                ContentKind::Typed("text/css")
            } else if str_eq(e, "js") {
                ContentKind::Typed("application/javascript")
            } else if str_eq(e, "json") {
                ContentKind::Typed("application/json")
            } else if str_eq(e, "png") {
                ContentKind::Typed("image/png")
            } else if str_eq(e, "jpg") || str_eq(e, "jpeg") {
                ContentKind::Typed("image/jpeg")
            } else if str_eq(e, "svg") {
                ContentKind::Typed("image/svg+xml")
            } else {
                ContentKind::Typed("application/octet-stream")
            }
        },
        None => ContentKind::Typed("application/octet-stream"),
    }
}

/// The tag that loads the live-reload script.
pub const LIVE_RELOAD_TAG: &'static str = "<script src=\"/__livereload__\"></script>";

/// `i` is the first position where `needle` occurs in `hay`.
pub open spec fn is_first_occurrence(hay: Seq<char>, needle: Seq<char>, i: int) -> bool {
    &&& 0 <= i && i + needle.len() <= hay.len()
    &&& hay.subrange(i, i + needle.len()) == needle
    &&& forall|k: int| 0 <= k < i ==> #[trigger] hay.subrange(k, k + needle.len()) != needle
}

/// The first position where `needle` occurs in `hay`.
pub open spec fn first_occurrence(hay: Seq<char>, needle: Seq<char>) -> Option<int> {
    if seq_contains(hay, needle) {
        Some(choose|i: int| is_first_occurrence(hay, needle, i))
    } else {
        None
    }
}

/// The first position where `needle` occurs in `hay`.
pub fn str_find(hay: &str, needle: &str) -> (r: Option<usize>)
    ensures
        match r {
            Some(i) => is_first_occurrence(hay@, needle@, i as int) && first_occurrence(hay@, needle@) == Some(i as int),
            None => !seq_contains(hay@, needle@) && first_occurrence(hay@, needle@) is None,
        },
{
    let h = chars_of(hay);
    let nd = chars_of(needle);
    let hl = h.len();
    let nl = nd.len();
    if nl > hl {
        assert forall|i: int| 0 <= i && i + nd@.len() <= h@.len() implies #[trigger] h@.subrange(i, i + nd@.len()) != nd@ by {}
        return None;
    }
    let mut i: usize = 0;
    while i <= hl - nl
        invariant
            h@ == hay@,
            nd@ == needle@,
            hl == h@.len(),
            nl == nd@.len(),
            nl <= hl,
            i <= hl - nl + 1,
            forall|k: int| 0 <= k < i ==> #[trigger] h@.subrange(k, k + nl) != nd@,
        decreases hl - nl + 1 - i,
    {
        let mut j: usize = 0;
        let mut ok = true;
        while j < nl
            invariant
                h@ == hay@,
                nd@ == needle@,
                hl == h@.len(),
                nl == nd@.len(),
                i + nl <= hl,
                j <= nl,
                ok == (forall|k: int| 0 <= k < j ==> h@[i + k] == nd@[k]),
            decreases nl - j,
        {
            if h[i + j] != nd[j] {
                ok = false;
            }
            j = j + 1;
        }
        if ok {
            assert(h@.subrange(i as int, i + nl) =~= nd@);
            assert(is_first_occurrence(hay@, needle@, i as int));
            assert(seq_contains(hay@, needle@));
            let ghost c = choose|c: int| is_first_occurrence(hay@, needle@, c);
            assert(c == i as int) by {
                if c < i {
                    assert(h@.subrange(c, c + nl) != nd@);
                } else if c > i {
                    assert(hay@.subrange(i as int, i + nl) != needle@);
                }
            }
            return Some(i);
        }
        assert(h@.subrange(i as int, i + nl) != nd@) by {
            let k = choose|k: int| 0 <= k < nl && h@[i + k] != nd@[k];
            assert(h@.subrange(i as int, i + nl)[k] == h@[i + k]);
        }
        i = i + 1;
    }
    None
}

/// A page with the live-reload tag inserted before `</head>` (or, without
/// one, before `</body>`), when live reload is on and the page does not
/// already load the script.
pub open spec fn with_live_reload(html: Seq<char>, live_reload: bool) -> Seq<char> {
    if live_reload && !seq_contains(html, "__livereload__"@) {
        match first_occurrence(html, "</head>"@) {
            Some(i) => html.take(i) + LIVE_RELOAD_TAG@ + html.skip(i),
            None => match first_occurrence(html, "</body>"@) {
                Some(i) => html.take(i) + LIVE_RELOAD_TAG@ + html.skip(i),
                None => html,
            },
        }
    } else {
        html
    }
}

/// The page as served (see [`with_live_reload`]).
pub fn inject_live_reload(html: &str, live_reload: bool) -> (r: String)
    ensures
        r@ == with_live_reload(html@, live_reload),
{
    if !live_reload || str_contains(html, "__livereload__") {
        return html.to_string();
    }
    let at = match str_find(html, "</head>") {
        Some(i) => Some(i),
        None => str_find(html, "</body>"),
    };
    match at {
        Some(i) => {
            let n = html.unicode_len();
            let mut out = html.substring_char(0, i).to_string();
            out.append(LIVE_RELOAD_TAG);
            out.append(html.substring_char(i, n));
            assert(html@.subrange(0, i as int) =~= html@.take(i as int));
            assert(html@.subrange(i as int, n as int) =~= html@.skip(i as int));
            out
        },
        None => html.to_string(),
    }
}

/// The change event sent for a file event of kind `event_type` ("add",
/// "unlink", anything else a change).
pub fn change_event(path: &str, event_type: &str) -> (e: FileChangeEvent)
    ensures
        match e {
            FileChangeEvent::Add { path: p } => event_type@ == "add"@ && p@ == path@,
            FileChangeEvent::Remove { path: p } => event_type@ == "unlink"@ && p@ == path@,
            FileChangeEvent::Change { path: p } => event_type@ != "add"@ && event_type@ != "unlink"@ && p@ == path@,
        },
{
    if str_eq(event_type, "add") {
        FileChangeEvent::Add { path: path.to_string() }
    } else if str_eq(event_type, "unlink") {
        FileChangeEvent::Remove { path: path.to_string() }
    } else {
        FileChangeEvent::Change { path: path.to_string() }
    }
}

/// Whether a changed path is reported: paths inside `node_modules` or
/// `.git`, and hidden paths, are ignored.
pub open spec fn watched(path: Seq<char>) -> bool {
    !seq_contains(path, "node_modules"@) && !seq_contains(path, ".git"@) && !(path.len() > 0 && path[0] == '.')
}

/// Whether a changed path is reported (see [`watched`]).
pub fn is_watched_path(path: &str) -> (r: bool)
    ensures
        r == watched(path@),
{
    !str_contains(path, "node_modules") && !str_contains(path, ".git") && !(path.unicode_len() > 0 && path.get_char(0)
        == '.')
}

} // verus!
