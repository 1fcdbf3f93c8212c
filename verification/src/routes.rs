use vstd::prelude::*;

use crate::errors::ProxyError;

verus! {

/// A route prefix is valid when it is non-empty, starts with `/`, and does
/// not end with `/`.
pub open spec fn valid_prefix(p: Seq<char>) -> bool {
    &&& p.len() > 0
    &&& p[0] == '/'
    &&& p[p.len() - 1] != '/'
}

/// A path matches a prefix when it equals the prefix exactly, or extends it
/// with a `/` and any remainder.
pub open spec fn matches_prefix(prefix: Seq<char>, path: Seq<char>) -> bool {
    &&& prefix.is_prefix_of(path)
    &&& (path.len() == prefix.len() || path[prefix.len() as int] == '/')
}

/// The remainder of a matching path past its prefix: it keeps its leading
/// `/`, and is empty for an exact match.
pub open spec fn suffix_of(prefix: Seq<char>, path: Seq<char>) -> Seq<char> {
    path.skip(prefix.len() as int)
}

/// An origin is reached over an encrypted transport exactly when its URL
/// carries the `https` scheme.
pub open spec fn https_origin(origin: Seq<char>) -> bool {
    "https://"@.is_prefix_of(origin)
}

/// True when `prefix@` is a prefix of `s@`.
fn starts_with(s: &str, prefix: &str) -> (b: bool)
    ensures
        b == prefix@.is_prefix_of(s@),
{
    let plen = prefix.unicode_len();
    let slen = s.unicode_len();
    if slen < plen {
        return false;
    }
    let mut i: usize = 0;
    while i < plen
        invariant
            i <= plen,
            plen == prefix@.len(),
            slen == s@.len(),
            plen <= slen,
            forall|j: int| 0 <= j < i ==> prefix@[j] == s@[j],
        decreases plen - i,
    {
        if prefix.get_char(i) != s.get_char(i) {
            assert(!prefix@.is_prefix_of(s@)) by {
                if prefix@.is_prefix_of(s@) {
                    assert(prefix@[i as int] == s@.subrange(0, plen as int)[i as int]);
                }
            }
            return false;
        }
        i = i + 1;
    }
    assert(prefix@ =~= s@.subrange(0, plen as int));
    true
}

/// True when `path` matches `prefix` per the matching rule.
pub fn prefix_matches(prefix: &str, path: &str) -> (b: bool)
    ensures
        b == matches_prefix(prefix@, path@),
{
    if !starts_with(path, prefix) {
        return false;
    }
    let plen = prefix.unicode_len();
    let slen = path.unicode_len();
    if slen == plen {
        true
    } else {
        path.get_char(plen) == '/'
    }
}

/// True when `p` is a valid route prefix.
pub fn check_prefix(p: &str) -> (b: bool)
    ensures
        b == valid_prefix(p@),
{
    let len = p.unicode_len();
    if len == 0 {
        return false;
    }
    if p.get_char(0) != '/' {
        return false;
    }
    if p.get_char(len - 1) == '/' {
        return false;
    }
    true
}

/// One configured route: a validated path prefix and the backend origin it
/// forwards to. The transport of the outbound call is bound here, at
/// construction time, from the origin's scheme.
pub struct Route {
    pub prefix: String,
    pub origin: String,
    pub use_tls: bool,
}

impl Route {
    pub open spec fn wf(self) -> bool {
        &&& valid_prefix(self.prefix@)
        &&& self.use_tls == https_origin(self.origin@)
    }
}

/// The construction index of the first route whose prefix matches `path`.
/// The table's tie-break designates the lowest index among matches, not the
/// longest prefix.
pub open spec fn first_match(rs: Seq<Route>, path: Seq<char>) -> Option<int>
    decreases rs.len(),
{
    if rs.len() == 0 {
        None
    } else if matches_prefix(rs[0].prefix@, path) {
        Some(0int)
    } else {
        match first_match(rs.drop_first(), path) {
            None => None,
            Some(i) => Some(i + 1),
        }
    }
}

/// `first_match` returns the lowest matching index, and `None` exactly when
/// no route matches.
pub proof fn lemma_first_match(rs: Seq<Route>, path: Seq<char>)
    ensures
        match first_match(rs, path) {
            None => forall|i: int|
                0 <= i < rs.len() ==> !matches_prefix((#[trigger] rs[i]).prefix@, path),
            Some(i) => {
                &&& 0 <= i < rs.len()
                &&& matches_prefix(rs[i].prefix@, path)
                &&& forall|j: int| 0 <= j < i ==> !matches_prefix((#[trigger] rs[j]).prefix@, path)
            },
        },
    decreases rs.len(),
{
    if rs.len() == 0 {
    } else if matches_prefix(rs[0].prefix@, path) {
    } else {
        let rest = rs.drop_first();
        lemma_first_match(rest, path);
        assert(forall|j: int| 0 <= j < rest.len() ==> #[trigger] rest[j] == rs[j + 1]);
        match first_match(rest, path) {
            None => {
                assert forall|i: int| 0 <= i < rs.len() implies !matches_prefix(
                    (#[trigger] rs[i]).prefix@,
                    path,
                ) by {
                    if i > 0 {
                        assert(rest[i - 1] == rs[i]);
                    }
                }
            },
            Some(i) => {
                assert(first_match(rs, path) == Some(i + 1));
                assert(rest[i] == rs[i + 1]);
                assert forall|j: int| 0 <= j < i + 1 implies !matches_prefix(
                    (#[trigger] rs[j]).prefix@,
                    path,
                ) by {
                    if j > 0 {
                        assert(rest[j - 1] == rs[j]);
                        assert(!matches_prefix(rest[j - 1].prefix@, path));
                    }
                }
            },
        }
    }
}

/// If route `i` matches `path` and no earlier route does, the tie-break
/// designates `i`.
pub proof fn lemma_first_match_at(rs: Seq<Route>, path: Seq<char>, i: int)
    requires
        0 <= i < rs.len(),
        matches_prefix(rs[i].prefix@, path),
        forall|j: int| 0 <= j < i ==> !matches_prefix((#[trigger] rs[j]).prefix@, path),
    ensures
        first_match(rs, path) == Some(i),
{
    lemma_first_match(rs, path);
    match first_match(rs, path) {
        None => {
            assert(false);
        },
        Some(k) => {
            if k < i {
                assert(!matches_prefix(rs[k].prefix@, path));
            } else if i < k {
                assert(!matches_prefix(rs[i].prefix@, path));
            }
        },
    }
}

/// A successful match: the chosen route's origin, the remainder of the path
/// past the matched prefix, and the transport bound to that origin.
pub struct RouteMatch {
    pub origin: String,
    pub suffix: String,
    pub use_tls: bool,
}

/// The route table: an immutable ordered collection of routes, built once at
/// startup and shared read-only by every request-handling task afterwards.
pub struct Routes {
    pub routes: Vec<Route>,
}

impl Routes {
    /// Every stored route is validated and carries the transport binding of
    /// its origin's scheme.
    pub open spec fn wf(self) -> bool {
        forall|i: int| 0 <= i < self.routes@.len() ==> (#[trigger] self.routes@[i]).wf()
    }

    /// What matching resolves for `path`: the chosen route's origin, the
    /// path's remainder past that route's prefix, and the transport of the
    /// outbound call; `None` when no route matches.
    pub open spec fn match_spec(self, path: Seq<char>) -> Option<(Seq<char>, Seq<char>, bool)> {
        match first_match(self.routes@, path) {
            None => None,
            Some(i) => Some(
                (
                    self.routes@[i].origin@,
                    suffix_of(self.routes@[i].prefix@, path),
                    self.routes@[i].use_tls,
                ),
            ),
        }
    }

    /// Builds the table from ordered (prefix, origin) pairs, validating each
    /// prefix and binding each route's transport from its origin's scheme.
    /// Fails with `InvalidRoute` naming the first invalid prefix.
    pub fn build(paths: &Vec<(String, String)>) -> (r: Result<Routes, ProxyError>)
        ensures
            (r is Ok) <==> (forall|i: int|
                0 <= i < paths@.len() ==> valid_prefix((#[trigger] paths@[i]).0@)),
            r matches Ok(t) ==> {
                &&& t.wf()
                &&& t.routes@.len() == paths@.len()
                &&& forall|i: int|
                    0 <= i < paths@.len() ==> {
                        &&& (#[trigger] t.routes@[i]).prefix@ == paths@[i].0@
                        &&& t.routes@[i].origin@ == paths@[i].1@
                        &&& t.routes@[i].use_tls == https_origin(paths@[i].1@)
                    }
            },
            r matches Err(e) ==> exists|i: int|
                {
                    &&& 0 <= i < paths@.len()
                    &&& !valid_prefix((#[trigger] paths@[i]).0@)
                    &&& forall|j: int| 0 <= j < i ==> valid_prefix(paths@[j].0@)
                    &&& e matches ProxyError::InvalidRoute(p) && p@ == paths@[i].0@
                },
    {
        let mut routes: Vec<Route> = Vec::new();
        let mut k: usize = 0;
        while k < paths.len()
            invariant
                k <= paths@.len(),
                routes@.len() == k,
                forall|i: int| 0 <= i < k ==> valid_prefix((#[trigger] paths@[i]).0@),
                forall|i: int|
                    0 <= i < k ==> {
                        &&& (#[trigger] routes@[i]).prefix@ == paths@[i].0@
                        &&& routes@[i].origin@ == paths@[i].1@
                        &&& routes@[i].use_tls == https_origin(paths@[i].1@)
                    },
            decreases paths@.len() - k,
        {
            let prefix = &paths[k].0;
            let origin = &paths[k].1;
            if !check_prefix(prefix.as_str()) {
                proof {
                    let kk = k as int;
                    assert(0 <= kk < paths@.len() && !valid_prefix(paths@[kk].0@) && (forall|
                        j: int,
                    | 0 <= j < kk ==> valid_prefix((#[trigger] paths@[j]).0@)));
                }
                return Err(ProxyError::InvalidRoute(prefix.clone()));
            }
            let use_tls = starts_with(origin.as_str(), "https://");
            routes.push(Route { prefix: prefix.clone(), origin: origin.clone(), use_tls });
            k = k + 1;
        }
        Ok(Routes { routes })
    }

    /// Matches `path` against the table. Returns the chosen route's origin,
    /// the suffix to append to it, and its transport; `None` when no route
    /// matches, in which case the request is answered 404.
    pub fn match_path(&self, path: &str) -> (r: Option<RouteMatch>)
        ensures
            match r {
                None => self.match_spec(path@) is None,
                Some(m) => self.match_spec(path@) == Some((m.origin@, m.suffix@, m.use_tls)),
            },
            (r is None) <==> (forall|i: int|
                0 <= i < self.routes@.len() ==> !matches_prefix(
                    (#[trigger] self.routes@[i]).prefix@,
                    path@,
                )),
    {
        let n = self.routes.len();
        let mut k: usize = 0;
        while k < n
            invariant
                k <= n,
                n == self.routes@.len(),
                forall|j: int|
                    0 <= j < k ==> !matches_prefix((#[trigger] self.routes@[j]).prefix@, path@),
            decreases n - k,
        {
            let route = &self.routes[k];
            if prefix_matches(route.prefix.as_str(), path) {
                let plen = route.prefix.as_str().unicode_len();
                let slen = path.unicode_len();
                let suffix = path.substring_char(plen, slen);
                proof {
                    lemma_first_match_at(self.routes@, path@, k as int);
                }
                return Some(
                    RouteMatch {
                        origin: route.origin.clone(),
                        suffix: String::from_str(suffix),
                        use_tls: route.use_tls,
                    },
                );
            }
            k = k + 1;
        }
        proof {
            lemma_first_match(self.routes@, path@);
        }
        None
    }
}

/// An exact hit: a request whose path is exactly route `i`'s prefix resolves
/// to that route's origin with an empty suffix — provided no earlier route
/// also matches the path, since the tie-break designates the lowest matching
/// construction index, not the longest prefix.
pub proof fn lemma_match_exact(t: Routes, i: int)
    requires
        0 <= i < t.routes@.len(),
        forall|j: int|
            0 <= j < i ==> !matches_prefix((#[trigger] t.routes@[j]).prefix@, t.routes@[i].prefix@),
    ensures
        t.match_spec(t.routes@[i].prefix@) matches Some(m) && m.0 == t.routes@[i].origin@ && m.1
            =~= Seq::<char>::empty() && m.2 == t.routes@[i].use_tls,
{
    let path = t.routes@[i].prefix@;
    assert(path =~= path.subrange(0, path.len() as int));
    assert(matches_prefix(t.routes@[i].prefix@, path));
    lemma_first_match_at(t.routes@, path, i);
}

/// A sub-path hit: a request whose path extends route `i`'s prefix by a
/// `/`-led remainder resolves to that route's origin with exactly that
/// remainder as suffix — under the same proviso about earlier routes.
pub proof fn lemma_match_extension(t: Routes, i: int, rest: Seq<char>)
    requires
        0 <= i < t.routes@.len(),
        rest.len() > 0,
        rest[0] == '/',
        forall|j: int|
            0 <= j < i ==> !matches_prefix(
                (#[trigger] t.routes@[j]).prefix@,
                t.routes@[i].prefix@ + rest,
            ),
    ensures
        t.match_spec(t.routes@[i].prefix@ + rest) matches Some(m) && m.0 == t.routes@[i].origin@
            && m.1 =~= rest && m.2 == t.routes@[i].use_tls,
{
    let p = t.routes@[i].prefix@;
    let path = p + rest;
    assert(p =~= path.subrange(0, p.len() as int));
    assert(path[p.len() as int] == rest[0]);
    assert(matches_prefix(p, path));
    lemma_first_match_at(t.routes@, path, i);
    assert(suffix_of(p, path) =~= rest);
}

/// A miss: a request whose path matches no configured prefix resolves to
/// nothing, and the forwarding service answers it 404 with no outbound call.
pub proof fn lemma_no_match(t: Routes, path: Seq<char>)
    requires
        forall|i: int|
            0 <= i < t.routes@.len() ==> !matches_prefix((#[trigger] t.routes@[i]).prefix@, path),
    ensures
        t.match_spec(path) is None,
{
    lemma_first_match(t.routes@, path);
}

/// The pattern the table's matcher is equivalent to for one prefix: it
/// anchors the prefix and captures the remainder — a `/`-led tail, or the
/// end of input — as `site_url`.
pub fn make_regex_string(prefix: &str) -> (r: String)
    ensures
        r@ == "^"@ + prefix@ + r"((?P<site_url>/(.*))|\z)"@,
{
    let mut pattern = String::from_str("^");
    pattern.append(prefix);
    pattern.append(r"((?P<site_url>/(.*))|\z)");
    pattern
}

} // verus!
