//! The wrapper's persistent settings and the URLs they lead to.
use vstd::prelude::*;
use vstd::view::View as _;

use crate::text::{
    ends_with_slash, same_text, strip_leading_slashes, trim, trimmed, without_leading_slashes,
};
use crate::text::{
    lemma_slash_before, lemma_strip_slashes_twice, lemma_trimmed_ends, lemma_trimmed_padding,
    unicode_white_space,
};
use crate::views::View;
use crate::web_url::{
    is_plain_segment, is_web_scheme, join_url, joins_plain_segments, parse_url, scheme_of, url_join,
    url_outcome, url_parse, url_scheme, WebUrl,
};

verus! {

/// The server that a fresh installation talks to.
pub const DEFAULT_SERVER_URL: &'static str = "http://gutz-bmax:8080";

/// The settings of the wrapper.
#[derive(Debug)]
pub struct Config {
    /// Base URL of the now-playing server, such as `http://gutz-bmax:8080`.
    pub server_url: String,
    /// Open the stage (`/nowplaying`) as a full-screen kiosk.
    pub stage_fullscreen: bool,
    /// Start the wrapper at login.
    pub autostart: bool,
    /// The view opened at start: "requests" opens the requests view, anything
    /// else the main view.
    pub start_view: String,
}

impl Clone for Config {
    fn clone(&self) -> (r: Self)
        ensures
            r == *self,
    {
        Config {
            server_url: self.server_url.clone(),
            stage_fullscreen: self.stage_fullscreen,
            autostart: self.autostart,
            start_view: self.start_view.clone(),
        }
    }
}

impl Default for Config {
    fn default() -> (r: Self)
        ensures
            r.server_url@ == DEFAULT_SERVER_URL@,
            r.stage_fullscreen,
            !r.autostart,
            r.start_view@ == "main"@,
    {
        Config {
            server_url: String::from_str(DEFAULT_SERVER_URL),
            stage_fullscreen: true,
            autostart: false,
            start_view: String::from_str("main"),
        }
    }
}

/// The base URL that a server URL stands for: trimmed, with a '/' at the end.
pub open spec fn base_text(server_url: Seq<char>) -> Seq<char> {
    let t = trimmed(server_url);
    if t.len() > 0 && t.last() == '/' {
        t
    } else {
        t + "/"@
    }
}

/// The base URL to build on, from what parsing the base text gave: the
/// parsed URL where its scheme is http or https, or the error message.
pub open spec fn spec_checked_base(parsed: Result<Seq<char>, Seq<char>>) -> Result<Seq<char>, Seq<char>> {
    match parsed {
        Err(e) => Err("Ungültige Server-URL: "@ + e),
        Ok(base) => if is_web_scheme(scheme_of(base)) {
            Ok(base)
        } else {
            Err("Server-URL muss mit http:// oder https:// beginnen"@)
        },
    }
}

/// The URL of `path`, from what joining it onto the base gave: the joined
/// URL, or the error message.
pub open spec fn spec_joined(joined: Result<Seq<char>, Seq<char>>, path: Seq<char>) -> Result<Seq<char>, Seq<char>> {
    match joined {
        Ok(u) => Ok(u),
        Err(e) => Err("Ungültiger Pfad "@ + path + ": "@ + e),
    }
}

/// The base URL of the server at `server_url`, or the error message.
pub open spec fn spec_base_url(server_url: Seq<char>) -> Result<Seq<char>, Seq<char>> {
    spec_checked_base(url_parse(base_text(server_url)))
}

/// The URL of `path` on the server at `server_url`, or the error message.
pub open spec fn spec_url_for(server_url: Seq<char>, path: Seq<char>) -> Result<Seq<char>, Seq<char>> {
    match spec_base_url(server_url) {
        Err(e) => Err(e),
        Ok(base) => spec_joined(url_join(base, without_leading_slashes(path)), path),
    }
}

/// The base text of a server URL: trimmed, with a '/' at the end.
pub fn base_address(server_url: &str) -> (r: String)
    ensures
        r@ == base_text(server_url@),
        r@ == trimmed(server_url@) || r@ == trimmed(server_url@) + "/"@,
        r@.len() > 0 && r@.last() == '/',
{
    proof {
        lemma_base_text_shape(server_url@);
    }
    let server = trim(server_url);
    let mut base = String::from_str(server);
    if !ends_with_slash(server) {
        base.append("/");
    }
    base
}

/// Turns the outcome of parsing the base text into the base to build on:
/// a parse error and a scheme other than http or https become messages.
pub fn checked_base(parsed: Result<WebUrl, String>) -> (r: Result<WebUrl, String>)
    ensures
        url_outcome(r) == spec_checked_base(url_outcome(parsed)),
        r matches Ok(w) ==> parsed matches Ok(p) && w@ == p@,
{
    match parsed {
        Ok(base) => {
            let scheme = url_scheme(&base);
            if same_text(scheme, "http") || same_text(scheme, "https") {
                Ok(base)
            } else {
                Err(String::from_str("Server-URL muss mit http:// oder https:// beginnen"))
            }
        },
        Err(e) => Err(String::from_str("Ungültige Server-URL: ").concat(e.as_str())),
    }
}

/// Turns the outcome of joining `path` onto the base into the result of
/// `url_for`: an error becomes a message that names the path.
pub fn joined_url(joined: Result<WebUrl, String>, path: &str) -> (r: Result<WebUrl, String>)
    ensures
        url_outcome(r) == spec_joined(url_outcome(joined), path@),
{
    match joined {
        Ok(u) => Ok(u),
        Err(e) => Err(
            String::from_str("Ungültiger Pfad ").concat(path).concat(": ").concat(e.as_str()),
        ),
    }
}

/// Whether `path` names a view's page: leading '/' characters, then a plain segment.
pub open spec fn is_page_path(path: Seq<char>) -> bool {
    is_plain_segment(without_leading_slashes(path))
}

impl Config {
    /// Builds the full URL of a path such as "/nowplaying" on the configured server.
    pub fn url_for(&self, path: &str) -> (r: Result<WebUrl, String>)
        ensures
            url_outcome(r) == spec_url_for(self.server_url@, path@),
            spec_base_url(self.server_url@) matches Ok(b) ==> joins_plain_segments(b),
    {
        let base = base_address(self.server_url.as_str());
        let parsed = parse_url(base.as_str());
        let base_url = match checked_base(parsed) {
            Ok(u) => u,
            Err(e) => {
                return Err(e);
            },
        };
        let joined = join_url(&base_url, strip_leading_slashes(path));
        joined_url(joined, path)
    }

    /// Checks that the server URL leads to a usable base URL. Where it does,
    /// the URL of every view builds; where it does not, no URL builds, and
    /// every path gives the same message.
    pub fn validate(&self) -> (r: Result<(), String>)
        ensures
            match spec_base_url(self.server_url@) {
                Ok(_) => r is Ok,
                Err(e) => r matches Err(m) && m@ == e,
            },
            r is Ok ==> forall|v: View| #[trigger] spec_url_for(self.server_url@, v.spec_path()) is Ok,
            r matches Err(m) ==> forall|p: Seq<char>| #[trigger] spec_url_for(self.server_url@, p)
                == Err::<Seq<char>, Seq<char>>(m@),
    {
        let r = self.url_for("/");
        proof {
            lemma_page_paths();
        }
        match r {
            Ok(_) => Ok(()),
            Err(e) => Err(e),
        }
    }
}

/// The root path and the path of every view are page paths.
pub proof fn lemma_page_paths()
    ensures
        is_page_path("/"@),
        forall|v: View| is_page_path(#[trigger] v.spec_path()),
{
    reveal_strlit("/");
    assert("/"@.drop_first() =~= Seq::<char>::empty());
    assert(without_leading_slashes("/"@) == without_leading_slashes(Seq::<char>::empty()));
    assert(without_leading_slashes("/"@) =~= Seq::<char>::empty());
    assert forall|v: View| is_page_path(#[trigger] v.spec_path()) by {
        reveal_strlit("/nowplaying");
        reveal_strlit("/requests");
        reveal_strlit("/wish-overlay");
        reveal_strlit("/admin");
        let p = v.spec_path();
        assert(p.len() > 0 && p[0] == '/');
        if p.len() > 1 {
            assert(p[1] != '/');
            assert(p.drop_first().len() > 0 && p.drop_first()[0] != '/');
        }
        assert(without_leading_slashes(p) == without_leading_slashes(p.drop_first()));
        assert(without_leading_slashes(p) =~= p.drop_first());
    }
}

/// The server URL of a fresh installation.
pub fn default_server_url() -> (r: String)
    ensures
        r@ == DEFAULT_SERVER_URL@,
{
    String::from_str(DEFAULT_SERVER_URL)
}

/// The URL that the health check asks, where the settings give one.
pub fn health_url(config: &Config) -> (r: Option<WebUrl>)
    ensures
        match spec_url_for(config.server_url@, "/healthz"@) {
            Ok(u) => r matches Some(w) && w@ == u,
            Err(_) => r is None,
        },
{
    match config.url_for("/healthz") {
        Ok(u) => Some(u),
        Err(_) => None,
    }
}

/// What checking a server asks for: the settings' message where they do not
/// validate, otherwise the URL to probe, if the health URL builds.
pub fn server_check(config: &Config) -> (r: Result<Option<WebUrl>, String>)
    ensures
        match spec_base_url(config.server_url@) {
            Err(e) => r matches Err(m) && m@ == e,
            Ok(_) => match spec_url_for(config.server_url@, "/healthz"@) {
                Ok(u) => r matches Ok(Some(w)) && w@ == u,
                Err(_) => r matches Ok(None),
            },
        },
{
    match config.validate() {
        Ok(()) => Ok(health_url(config)),
        Err(e) => Err(e),
    }
}

/// Leading '/' characters of a path do not matter: paths that agree once
/// they are stripped lead to the same URL.
pub proof fn law_leading_slashes_do_not_matter(server_url: Seq<char>, p: Seq<char>, q: Seq<char>)
    requires
        without_leading_slashes(p) == without_leading_slashes(q),
    ensures
        spec_url_for(server_url, p) is Ok <==> spec_url_for(server_url, q) is Ok,
        spec_url_for(server_url, p) is Ok ==> spec_url_for(server_url, p) == spec_url_for(
            server_url,
            q,
        ),
{
}

/// A path, the path with a '/' before it, and the path without its leading
/// '/' characters lead to the same URL, or all to none.
pub proof fn law_path_spellings(server_url: Seq<char>, q: Seq<char>)
    ensures
        spec_url_for(server_url, q) is Ok <==> spec_url_for(server_url, "/"@ + q) is Ok,
        spec_url_for(server_url, q) is Ok <==> spec_url_for(server_url, without_leading_slashes(q)) is Ok,
        spec_url_for(server_url, q) is Ok ==> spec_url_for(server_url, q) == spec_url_for(
            server_url,
            "/"@ + q,
        ) && spec_url_for(server_url, q) == spec_url_for(server_url, without_leading_slashes(q)),
{
    lemma_slash_before(q);
    lemma_strip_slashes_twice(q);
    law_leading_slashes_do_not_matter(server_url, q, "/"@ + q);
    law_leading_slashes_do_not_matter(server_url, q, without_leading_slashes(q));
}

/// White space around the server URL does not matter.
pub proof fn law_surrounding_white_space_does_not_matter(a: Seq<char>, b: Seq<char>, path: Seq<char>)
    requires
        trimmed(a) == trimmed(b),
    ensures
        spec_url_for(a, path) == spec_url_for(b, path),
{
}

/// Putting white space before and after the server URL does not change any URL.
pub proof fn law_padding_does_not_matter(before: Seq<char>, s: Seq<char>, after: Seq<char>, path: Seq<char>)
    requires
        forall|k: int| 0 <= k < before.len() ==> unicode_white_space(#[trigger] before[k]),
        forall|k: int| 0 <= k < after.len() ==> unicode_white_space(#[trigger] after[k]),
    ensures
        spec_url_for(before + s + after, path) == spec_url_for(s, path),
{
    lemma_trimmed_padding(before, s, after);
}

/// A server URL with and without a final '/' leads to the same URLs.
pub proof fn law_final_slash_does_not_matter(a: Seq<char>, b: Seq<char>, path: Seq<char>)
    requires
        trimmed(a).len() > 0,
        trimmed(a).last() != '/',
        trimmed(b) == trimmed(a) + "/"@,
    ensures
        spec_url_for(a, path) == spec_url_for(b, path),
{
    reveal_strlit("/");
    assert(trimmed(b).last() == '/');
}

/// A trimmed server URL `s` without a final '/', the same with a '/' at the
/// end, and the same between spaces and a newline all lead to the same URLs.
pub proof fn law_server_url_spellings(s: Seq<char>, path: Seq<char>)
    requires
        trimmed(s) == s,
        s.len() > 0,
        s.last() != '/',
    ensures
        spec_url_for(s + "/"@, path) == spec_url_for(s, path),
        spec_url_for("  "@ + s + "\n"@, path) == spec_url_for(s, path),
{
    reveal_strlit("/");
    reveal_strlit("  ");
    reveal_strlit("\n");
    assert(unicode_white_space(' '));
    assert(unicode_white_space('\n'));
    law_padding_does_not_matter("  "@, s, "\n"@, path);
    assert(!unicode_white_space('/'));
    // `s + "/"` is already trimmed: it starts where `s` does and ends in '/'.
    lemma_trimmed_ends(s);
    let t = s + "/"@;
    assert(t[0] == s[0]);
    assert(t.last() == '/');
    assert(trimmed(t) == t);
    law_final_slash_does_not_matter(s, t, path);
}

/// A URL is only ever built on a server URL with an http or https scheme.
pub proof fn law_only_web_schemes(server_url: Seq<char>, path: Seq<char>)
    ensures
        spec_url_for(server_url, path) is Ok ==> (url_parse(base_text(server_url)) matches Ok(
            base,
        ) && is_web_scheme(scheme_of(base))),
{
}

/// Where the base fails, every path fails with its message.
pub proof fn law_base_failure_for_every_path(server_url: Seq<char>, path: Seq<char>)
    ensures
        spec_base_url(server_url) matches Err(e) ==> spec_url_for(server_url, path) == Err::<
            Seq<char>,
            Seq<char>,
        >(e),
{
}

/// The base text is the trimmed server URL with at most a '/' put after it,
/// and it always ends in '/': nothing of the configured address is rewritten.
pub proof fn lemma_base_text_shape(s: Seq<char>)
    ensures
        base_text(s) == trimmed(s) || base_text(s) == trimmed(s) + "/"@,
        trimmed(s).is_prefix_of(base_text(s)),
        base_text(s).len() > 0 && base_text(s).last() == '/',
        base_text(s).len() <= trimmed(s).len() + 1,
{
    reveal_strlit("/");
    let t = trimmed(s);
    assert(t.is_prefix_of(t + "/"@)) by {
        assert((t + "/"@).subrange(0, t.len() as int) =~= t);
    }
    assert(t.is_prefix_of(t)) by {
        assert(t.subrange(0, t.len() as int) =~= t);
    }
}

/// The base URL is the trimmed server URL with at most a '/' after it.
pub proof fn law_base_is_configured_address(s: Seq<char>)
    ensures
        base_text(s) == trimmed(s) || base_text(s) == trimmed(s) + "/"@,
        trimmed(s).is_prefix_of(base_text(s)),
        base_text(s).last() == '/',
{
    lemma_base_text_shape(s);
}

/// A server URL is accepted exactly when its base text parses to an http or
/// https URL, and then that parsed URL is the base; otherwise the parse error
/// or the scheme message is what every URL gives.
pub proof fn law_accepts_every_web_url(s: Seq<char>, b: Seq<char>, e: Seq<char>)
    ensures
        url_parse(base_text(s)) == Ok::<Seq<char>, Seq<char>>(b) && (scheme_of(b) == "http"@
            || scheme_of(b) == "https"@) ==> spec_base_url(s) == Ok::<Seq<char>, Seq<char>>(b),
        url_parse(base_text(s)) == Ok::<Seq<char>, Seq<char>>(b) && !(scheme_of(b) == "http"@
            || scheme_of(b) == "https"@) ==> spec_base_url(s) == Err::<Seq<char>, Seq<char>>(
            "Server-URL muss mit http:// oder https:// beginnen"@,
        ),
        url_parse(base_text(s)) == Err::<Seq<char>, Seq<char>>(e) ==> spec_base_url(s) == Err::<
            Seq<char>,
            Seq<char>,
        >("Ungültige Server-URL: "@ + e),
        spec_base_url(s) is Ok <==> (url_parse(base_text(s)) is Ok && (scheme_of(
            url_parse(base_text(s))->Ok_0,
        ) == "http"@ || scheme_of(url_parse(base_text(s))->Ok_0) == "https"@)),
{
}

/// On an accepted server, the URL of a path is the url crate's join of the
/// path, without its leading '/' characters, onto the parsed base URL.
pub proof fn law_url_is_join_onto_base(s: Seq<char>, b: Seq<char>, path: Seq<char>)
    ensures
        url_parse(base_text(s)) == Ok::<Seq<char>, Seq<char>>(b) && (scheme_of(b) == "http"@
            || scheme_of(b) == "https"@) ==> match url_join(b, without_leading_slashes(path)) {
            Ok(u) => spec_url_for(s, path) == Ok::<Seq<char>, Seq<char>>(u),
            Err(e) => spec_url_for(s, path) == Err::<Seq<char>, Seq<char>>(
                "Ungültiger Pfad "@ + path + ": "@ + e,
            ),
        },
{
}

} // verus!
