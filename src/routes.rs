use vstd::prelude::*;
use vstd::string::{StrSliceExecFns, StringExecFns};

verus! {

/// A directory of static assets.
pub enum AssetDir {
    Images,
    Css,
    Fonts,
}

/// Where a request goes.
pub enum Route {
    /// The rendered project list.
    Index,
    /// The file at this path, relative to the directory.
    Asset(AssetDir, String),
    /// Nothing here: answered with the not-found page.
    NotFound,
}

/// The URL prefix under which a directory is served.
pub open spec fn asset_prefix(d: AssetDir) -> Seq<char> {
    match d {
        AssetDir::Images => "/images/"@,
        AssetDir::Css => "/css/"@,
        AssetDir::Fonts => "/fonts/"@,
    }
}

/// The directory on disk that serves a prefix.
pub open spec fn asset_root(d: AssetDir) -> Seq<char> {
    match d {
        AssetDir::Images => "./templates/images"@,
        AssetDir::Css => "./templates/css"@,
        AssetDir::Fonts => "./templates/fonts"@,
    }
}

/// Whether character `k` of `t` keeps a relative path inside its directory:
/// no backslash, no segment that starts with a dot (which rules out `.`, `..`
/// and hidden files), and no empty segment.
pub open spec fn safe_at(t: Seq<char>, k: int) -> bool {
    &&& t[k] != '\\'
    &&& t[k] == '.' ==> k > 0 && t[k - 1] != '/'
    &&& t[k] == '/' ==> 0 < k && k + 1 < t.len() && t[k + 1] != '/'
}

/// `t` names a file strictly inside a directory: non-empty, relative, with
/// every character safe.
pub open spec fn safe_relative(t: Seq<char>) -> bool {
    &&& t.len() > 0
    &&& forall|k: int| 0 <= k < t.len() ==> #[trigger] safe_at(t, k)
}

/// The paths of the index page.
pub open spec fn is_index_path(path: Seq<char>) -> bool {
    path == "/"@ || path == "/index.html"@
}

/// What follows the prefix of `d` in `path`.
pub open spec fn asset_tail(path: Seq<char>, d: AssetDir) -> Seq<char> {
    path.subrange(asset_prefix(d).len() as int, path.len() as int)
}

/// `path` asks for a file of directory `d` that may be served.
pub open spec fn serves_asset(path: Seq<char>, d: AssetDir) -> bool {
    asset_prefix(d).is_prefix_of(path) && safe_relative(asset_tail(path, d))
}

/// A path that is served from a directory never climbs out of it: no segment
/// of the part after the prefix is `..` (nor `.`, nor empty).
pub proof fn lemma_assets_stay_inside_root(path: Seq<char>, d: AssetDir)
    requires
        serves_asset(path, d),
    ensures
        forall|k: int|
            0 <= k < asset_tail(path, d).len() && (k == 0 || asset_tail(path, d)[k - 1] == '/')
                ==> #[trigger] asset_tail(path, d)[k] != '.' && asset_tail(path, d)[k] != '/',
{
    let t = asset_tail(path, d);
    assert forall|k: int| 0 <= k < t.len() && (k == 0 || t[k - 1] == '/') implies #[trigger] t[k]
        != '.' && t[k] != '/' by {
        assert(safe_at(t, k));
        if k > 0 {
            assert(safe_at(t, k - 1));
        }
    }
}

/// Whether `s` begins with `prefix`.
fn starts_with(s: &str, prefix: &str) -> (r: bool)
    ensures
        r == prefix@.is_prefix_of(s@),
{
    let n = s.unicode_len();
    let m = prefix.unicode_len();
    if m > n {
        return false;
    }
    let mut i: usize = 0;
    while i < m
        invariant
            m == prefix@.len(),
            n == s@.len(),
            m <= n,
            i <= m,
            forall|k: int| 0 <= k < i ==> prefix@[k] == s@[k],
        decreases m - i,
    {
        if prefix.get_char(i) != s.get_char(i) {
            return false;
        }
        i = i + 1;
    }
    proof {
        assert(prefix@ =~= s@.subrange(0, m as int));
    }
    true
}

/// Whether `t` names a file strictly inside a directory.
pub fn is_safe_relative(t: &str) -> (r: bool)
    ensures
        r == safe_relative(t@),
{
    let n = t.unicode_len();
    if n == 0 {
        return false;
    }
    let mut i: usize = 0;
    while i < n
        invariant
            n == t@.len(),
            i <= n,
            forall|k: int| 0 <= k < i ==> #[trigger] safe_at(t@, k),
        decreases n - i,
    {
        let c = t.get_char(i);
        let bad_dot = c == '.' && (i == 0 || t.get_char(i - 1) == '/');
        let bad_slash = c == '/' && (i == 0 || i + 1 >= n || t.get_char(i + 1) == '/');
        if c == '\\' || bad_dot || bad_slash {
            proof {
                assert(!safe_at(t@, i as int));
            }
            return false;
        }
        i = i + 1;
    }
    true
}

/// The part of `path` after a prefix of `m` characters.
fn tail_after(path: &str, m: usize) -> (r: String)
    requires
        m <= path@.len(),
    ensures
        r@ == path@.subrange(m as int, path@.len() as int),
{
    let n = path.unicode_len();
    String::from_str(path.substring_char(m, n))
}

/// The asset of directory `d` that `path` asks for, where it may be served.
fn asset_in(path: &str, d: AssetDir, prefix: &str) -> (r: Option<String>)
    requires
        prefix@ == asset_prefix(d),
    ensures
        r is Some <==> serves_asset(path@, d),
        r matches Some(t) ==> t@ == asset_tail(path@, d),
{
    if starts_with(path, prefix) {
        let tail = tail_after(path, prefix.unicode_len());
        if is_safe_relative(tail.as_str()) {
            Some(tail)
        } else {
            None
        }
    } else {
        None
    }
}

/// Picks the handler of a request: `GET /` and `GET /index.html` go to the
/// index page; `GET` under `/images/`, `/css/` or `/fonts/` goes to that
/// directory, when the rest of the path stays inside it; everything else is
/// not found.
pub fn route(method: &str, path: &str) -> (r: Route)
    ensures
        r is Index <==> method@ == "GET"@ && is_index_path(path@),
        r matches Route::Asset(d, t) ==> method@ == "GET"@ && serves_asset(path@, d) && t@
            == asset_tail(path@, d),
        r is NotFound <==> method@ != "GET"@ || (!is_index_path(path@) && !serves_asset(
            path@,
            AssetDir::Images,
        ) && !serves_asset(path@, AssetDir::Css) && !serves_asset(path@, AssetDir::Fonts)),
{
    proof {
        reveal_strlit("/images/");
        reveal_strlit("/css/");
        reveal_strlit("/fonts/");
        reveal_strlit("/");
        reveal_strlit("/index.html");
    }
    let get = String::from_str(method) == String::from_str("GET");
    if !get {
        return Route::NotFound;
    }
    let p = String::from_str(path);
    if p == String::from_str("/") || p == String::from_str("/index.html") {
        return Route::Index;
    }
    if let Some(t) = asset_in(path, AssetDir::Images, "/images/") {
        return Route::Asset(AssetDir::Images, t);
    }
    if let Some(t) = asset_in(path, AssetDir::Css, "/css/") {
        return Route::Asset(AssetDir::Css, t);
    }
    if let Some(t) = asset_in(path, AssetDir::Fonts, "/fonts/") {
        return Route::Asset(AssetDir::Fonts, t);
    }
    Route::NotFound
}

/// The file on disk that serves `rel` from directory `d`.
pub fn asset_file_path(d: &AssetDir, rel: &str) -> (r: String)
    ensures
        r@ == asset_root(*d) + "/"@ + rel@,
{
    let root = match d {
        AssetDir::Images => String::from_str("./templates/images"),
        AssetDir::Css => String::from_str("./templates/css"),
        AssetDir::Fonts => String::from_str("./templates/fonts"),
    };
    root.concat("/").concat(rel)
}

} // verus!
