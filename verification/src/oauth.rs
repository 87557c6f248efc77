//! Scope discovery for GitHub OAuth tokens.
//!
//! An [`OAuthContext`] holds a bearer token, the API domain, and the raw scope
//! strings the most recent successful discovery call returned. Discovery is one
//! authenticated `GET {domain}/rate_limit`; the server echoes the token's
//! scopes in the `x-oauth-scopes` response header as a comma-separated list.
//! Everything after the network call — status handling, header splitting and
//! trimming, and the state update — is verified: the header grammar is given by
//! [`split_scopes`] and every state change of the context is pinned down in the
//! contracts of [`OAuthContext::refresh`] and [`process_discovery`].

use vstd::prelude::*;
use vstd::string::StrSliceExecFns;
use vstd::string::StringExecFns;

use crate::transform::{map_scopes, scope_permissions_of, views_of, GithubTokenScope};

verus! {

/// Whether the character counts as whitespace when scope names are trimmed.
pub open spec fn is_scope_space(c: char) -> bool {
    c == ' ' || c == '\t' || c == '\n' || c == '\r'
}

/// The sequence with leading and trailing whitespace removed.
pub open spec fn trim_of(s: Seq<char>) -> Seq<char>
    decreases s.len(),
{
    if s.len() == 0 {
        s
    } else if is_scope_space(s[0]) {
        trim_of(s.drop_first())
    } else if is_scope_space(s[s.len() - 1]) {
        trim_of(s.drop_last())
    } else {
        s
    }
}

/// The index of the first comma, or the length when there is none.
pub open spec fn first_comma(s: Seq<char>) -> nat
    decreases s.len(),
{
    if s.len() == 0 {
        0
    } else if s[0] == ',' {
        0
    } else {
        (1 + first_comma(s.drop_first())) as nat
    }
}

/// The comma-separated segments of the sequence, commas removed, in order.
/// A sequence without commas yields exactly one segment, so the empty
/// sequence yields one empty segment.
pub open spec fn split_commas(s: Seq<char>) -> Seq<Seq<char>>
    decreases s.len(),
{
    let fc: nat = first_comma(s);
    if fc >= s.len() {
        seq![s]
    } else {
        seq![s.subrange(0, fc as int)] + split_commas(
            s.subrange(fc as int + 1, s.len() as int),
        )
    }
}

/// What a scope header value denotes: its comma-separated segments, each with
/// surrounding whitespace removed.
pub open spec fn split_scopes(s: Seq<char>) -> Seq<Seq<char>> {
    split_commas(s).map_values(|t: Seq<char>| trim_of(t))
}

proof fn lemma_first_comma_props(s: Seq<char>)
    ensures
        first_comma(s) <= s.len(),
        first_comma(s) < s.len() ==> s[first_comma(s) as int] == ',',
        forall|j: int| 0 <= j < first_comma(s) ==> s[j] != ',',
    decreases s.len(),
{
    if s.len() == 0 {
    } else if s[0] == ',' {
    } else {
        let rest = s.drop_first();
        lemma_first_comma_props(rest);
        if first_comma(s) < s.len() {
            assert(s[first_comma(s) as int] == rest[first_comma(rest) as int]);
        }
        assert forall|j: int| 0 <= j < first_comma(s) implies s[j] != ',' by {
            if j > 0 {
                assert(rest[j - 1] == s[j]);
            }
        }
    }
}

proof fn lemma_first_comma_is(s: Seq<char>, i: int)
    requires
        0 <= i <= s.len(),
        i < s.len() ==> s[i] == ',',
        forall|j: int| 0 <= j < i ==> s[j] != ',',
    ensures
        first_comma(s) == i,
{
    lemma_first_comma_props(s);
    if first_comma(s) < i {
        assert(s[first_comma(s) as int] == ',');
    }
}

proof fn lemma_split_commas_at(s: Seq<char>, i: int)
    requires
        0 <= i < s.len(),
        s[i] == ',',
        forall|j: int| 0 <= j < i ==> s[j] != ',',
    ensures
        split_commas(s) == seq![s.subrange(0, i)] + split_commas(
            s.subrange(i + 1, s.len() as int),
        ),
{
    lemma_first_comma_is(s, i);
}

proof fn lemma_split_commas_whole(s: Seq<char>)
    requires
        forall|j: int| 0 <= j < s.len() ==> s[j] != ',',
    ensures
        split_commas(s) == seq![s],
{
    lemma_first_comma_is(s, s.len() as int);
}

proof fn lemma_trim_range(s: Seq<char>, a: int, b: int)
    requires
        0 <= a <= b <= s.len(),
        forall|i: int| 0 <= i < a ==> is_scope_space(s[i]),
        forall|i: int| b <= i < s.len() ==> is_scope_space(s[i]),
        a < b ==> !is_scope_space(s[a]) && !is_scope_space(s[b - 1]),
    ensures
        trim_of(s) == s.subrange(a, b),
    decreases s.len(),
{
    if s.len() == 0 {
        assert(trim_of(s) =~= s.subrange(a, b));
    } else if is_scope_space(s[0]) {
        let rest = s.drop_first();
        if a == 0 {
            assert(a == b);
            lemma_trim_range(rest, 0, 0);
            assert(s.subrange(a, b) =~= rest.subrange(0, 0));
        } else {
            lemma_trim_range(rest, a - 1, b - 1);
            assert(s.subrange(a, b) =~= rest.subrange(a - 1, b - 1));
        }
    } else if is_scope_space(s[s.len() - 1]) {
        assert(b < s.len()) by {
            if b == s.len() {
                if a < b {
                    assert(!is_scope_space(s[b - 1]));
                } else {
                    assert(is_scope_space(s[0]));
                }
            }
        }
        let front = s.drop_last();
        lemma_trim_range(front, a, b);
        assert(s.subrange(a, b) =~= front.subrange(a, b));
    } else {
        assert(a == 0);
        assert(b == s.len());
        assert(s.subrange(a, b) =~= s);
    }
}

fn is_space_char(c: char) -> (r: bool)
    ensures
        r == is_scope_space(c),
{
    c == ' ' || c == '\t' || c == '\n' || c == '\r'
}

fn skip_spaces_forward(value: &str, from: usize, to: usize) -> (a: usize)
    requires
        from <= to <= value@.len(),
    ensures
        from <= a <= to,
        forall|j: int| from <= j < a ==> is_scope_space(value@[j]),
        a < to ==> !is_scope_space(value@[a as int]),
{
    let mut a = from;
    loop
        invariant
            from <= a <= to <= value@.len(),
            forall|j: int| from <= j < a ==> is_scope_space(value@[j]),
        decreases to - a,
    {
        if a == to {
            return a;
        }
        if !is_space_char(value.get_char(a)) {
            return a;
        }
        a = a + 1;
    }
}

fn skip_spaces_backward(value: &str, low: usize, high: usize) -> (b: usize)
    requires
        low <= high <= value@.len(),
    ensures
        low <= b <= high,
        forall|j: int| b <= j < high ==> is_scope_space(value@[j]),
        b > low ==> !is_scope_space(value@[b - 1]),
{
    let mut b = high;
    loop
        invariant
            low <= b <= high <= value@.len(),
            forall|j: int| b <= j < high ==> is_scope_space(value@[j]),
        decreases b,
    {
        if b == low {
            return b;
        }
        if !is_space_char(value.get_char(b - 1)) {
            return b;
        }
        b = b - 1;
    }
}

/// The segment of `value` between `from` and `to`, with surrounding
/// whitespace removed, as an owned string.
fn trim_segment(value: &str, from: usize, to: usize) -> (r: String)
    requires
        from <= to <= value@.len(),
    ensures
        r@ == trim_of(value@.subrange(from as int, to as int)),
{
    let a = skip_spaces_forward(value, from, to);
    let b = skip_spaces_backward(value, a, to);
    proof {
        let s = value@.subrange(from as int, to as int);
        assert forall|k: int| 0 <= k < s.len() implies s[k] == value@[from + k] by {}
        lemma_trim_range(s, a as int - from as int, b as int - from as int);
        assert(s.subrange(a as int - from as int, b as int - from as int) =~= value@.subrange(
            a as int,
            b as int,
        ));
    }
    let seg = value.substring_char(a, b);
    seg.to_owned()
}

proof fn lemma_parse_push(s: Seq<char>, start: int, i: int, done: Seq<String>, seg: String)
    requires
        0 <= start <= i < s.len(),
        s[i] == ',',
        forall|j: int| start <= j < i ==> s[j] != ',',
        views_of(done) + split_scopes(s.subrange(start, s.len() as int)) == split_scopes(s),
        seg@ == trim_of(s.subrange(start, i)),
    ensures
        views_of(done.push(seg)) + split_scopes(s.subrange(i + 1, s.len() as int)) == split_scopes(
            s,
        ),
{
    let n = s.len() as int;
    let suffix = s.subrange(start, n);
    assert(suffix[i - start] == ',');
    assert forall|j: int| 0 <= j < i - start implies suffix[j] != ',' by {
        assert(suffix[j] == s[start + j]);
    }
    lemma_split_commas_at(suffix, i - start);
    assert(suffix.subrange(0, i - start) =~= s.subrange(start, i));
    assert(suffix.subrange(i - start + 1, suffix.len() as int) =~= s.subrange(i + 1, n));
    assert(split_scopes(suffix) =~~= seq![trim_of(s.subrange(start, i))] + split_scopes(
        s.subrange(i + 1, n),
    ));
    assert(views_of(done.push(seg)) =~~= views_of(done) + seq![seg@]);
    assert(views_of(done.push(seg)) + split_scopes(s.subrange(i + 1, n)) =~~= views_of(done)
        + split_scopes(suffix));
}

proof fn lemma_parse_last(s: Seq<char>, start: int, done: Seq<String>, seg: String)
    requires
        0 <= start <= s.len(),
        forall|j: int| start <= j < s.len() ==> s[j] != ',',
        views_of(done) + split_scopes(s.subrange(start, s.len() as int)) == split_scopes(s),
        seg@ == trim_of(s.subrange(start, s.len() as int)),
    ensures
        views_of(done.push(seg)) == split_scopes(s),
{
    let n = s.len() as int;
    let suffix = s.subrange(start, n);
    assert forall|j: int| 0 <= j < suffix.len() implies suffix[j] != ',' by {
        assert(suffix[j] == s[start + j]);
    }
    lemma_split_commas_whole(suffix);
    assert(split_scopes(suffix) =~~= seq![trim_of(suffix)]);
    assert(views_of(done.push(seg)) =~~= views_of(done) + seq![seg@]);
    assert(views_of(done.push(seg)) =~~= views_of(done) + split_scopes(suffix));
}

/// Split a scope header value on commas and trim each segment.
///
/// This is the verbatim split: a value without commas, the empty value
/// included, yields exactly one entry.
pub fn parse_scope_header(value: &str) -> (r: Vec<String>)
    ensures
        views_of(r@) == split_scopes(value@),
{
    let n = value.unicode_len();
    let mut result: Vec<String> = Vec::new();
    let mut start: usize = 0;
    let mut i: usize = 0;
    proof {
        assert(value@.subrange(0, n as int) =~= value@);
        assert(views_of(result@) + split_scopes(value@) =~~= split_scopes(value@));
    }
    while i < n
        invariant
            start <= i <= n,
            n == value@.len(),
            forall|j: int| start <= j < i ==> value@[j] != ',',
            views_of(result@) + split_scopes(value@.subrange(start as int, n as int))
                == split_scopes(value@),
        decreases n - i,
    {
        if value.get_char(i) == ',' {
            let seg = trim_segment(value, start, i);
            proof {
                lemma_parse_push(value@, start as int, i as int, result@, seg);
            }
            result.push(seg);
            start = i + 1;
        }
        i = i + 1;
    }
    let seg = trim_segment(value, start, n);
    proof {
        lemma_parse_last(value@, start as int, result@, seg);
    }
    result.push(seg);
    result
}

/// Why a discovery call failed.
#[derive(Clone, Copy, Debug, PartialEq, Eq, Structural)]
pub enum ScopeError {
    /// The request could not be sent or no response arrived: connection,
    /// name resolution, or timeout failure, or a token that cannot be put
    /// in a request header.
    Transport,
    /// The server answered with a status outside the 2xx range; the status
    /// is carried for diagnosis.
    UnsuccessfulStatus(u16),
    /// A 2xx response carried no readable scope header: the server responded
    /// but did not answer the question asked.
    MissingScopeHeader,
}

/// What one discovery request produced: either no response at all, or the
/// response's status with the scope header value when one was present.
#[derive(Debug)]
pub enum DiscoveryOutcome {
    /// No response arrived.
    Transport,
    /// A response arrived with this status; `scope_header` holds the value
    /// of the scope header when the response carried a readable one.
    Response { status: u16, scope_header: Option<String> },
}

#[verifier::external_type_specification]
#[verifier::external_body]
pub struct ExClient(reqwest::blocking::Client);

/// Relies on `reqwest::blocking::ClientBuilder`: builds a blocking client
/// that sends the given user-agent header with every request and aborts any
/// request after one second; `None` when the client cannot be initialized.
#[verifier::external_body]
fn build_client(user_agent: &str) -> (r: Option<reqwest::blocking::Client>) {
    match reqwest::blocking::Client::builder().user_agent(user_agent).timeout(
        std::time::Duration::from_secs(1),
    ).build() {
        Ok(c) => Some(c),
        Err(_) => None,
    }
}

/// Relies on `reqwest::blocking::Client::get` and `RequestBuilder::send`: one
/// GET request to `url` with the request header `Authorization: {auth}`.
/// Hands back the response's status and the value of the `scope_header`
/// response header (a case-insensitive lookup), or `Transport` when no
/// response arrived. Nothing is promised of the outcome: it depends on the
/// network and the server.
#[verifier::external_body]
fn discovery_get(
    client: &reqwest::blocking::Client,
    url: &str,
    auth: &str,
    scope_header: &str,
) -> (r: DiscoveryOutcome) {
    let auth_value = match reqwest::header::HeaderValue::from_str(auth) {
        Ok(v) => v,
        Err(_) => return DiscoveryOutcome::Transport,
    };
    let request = client.get(url).header(reqwest::header::AUTHORIZATION, auth_value);
    let response = match request.send() {
        Ok(v) => v,
        Err(_) => return DiscoveryOutcome::Transport,
    };
    let scope_value = match response.headers().get(scope_header) {
        Some(v) => match v.to_str() { Ok(s) => Some(s.to_string()), Err(_) => None },
        None => None,
    };
    DiscoveryOutcome::Response { status: response.status().as_u16(), scope_header: scope_value }
}

/// Turn one discovery outcome into the new scope list or the error it owes:
/// no response is a transport error, a status outside 2xx is an unsuccessful
/// status carrying that status, a 2xx response without the scope header is a
/// missing-header error, and a 2xx response with the header yields exactly
/// its split and trimmed segments.
pub fn process_discovery(outcome: DiscoveryOutcome) -> (r: Result<Vec<String>, ScopeError>)
    ensures
        match outcome {
            DiscoveryOutcome::Transport => r == Err::<Vec<String>, ScopeError>(
                ScopeError::Transport,
            ),
            DiscoveryOutcome::Response { status, scope_header } => {
                if !(200 <= status && status < 300) {
                    r == Err::<Vec<String>, ScopeError>(ScopeError::UnsuccessfulStatus(status))
                } else {
                    match scope_header {
                        Option::None => r == Err::<Vec<String>, ScopeError>(
                            ScopeError::MissingScopeHeader,
                        ),
                        Option::Some(v) => r matches Ok(s) && views_of(s@) == split_scopes(v@),
                    }
                }
            },
        },
{
    match outcome {
        DiscoveryOutcome::Transport => Err(ScopeError::Transport),
        DiscoveryOutcome::Response { status, scope_header } => {
            if status < 200 || status >= 300 {
                Err(ScopeError::UnsuccessfulStatus(status))
            } else {
                match scope_header {
                    Option::None => Err(ScopeError::MissingScopeHeader),
                    Option::Some(v) => Ok(parse_scope_header(v.as_str())),
                }
            }
        },
    }
}

/// Scope context: the resolver that owns the token, the API domain, and the
/// raw scope strings of the most recent successful discovery call.
pub struct OAuthContext {
    client: reqwest::blocking::Client,
    token: String,
    domain: String,
    pub scope: Vec<String>,
}

impl OAuthContext {
    /// The character sequences of the stored raw scope strings.
    pub closed spec fn raw_scopes(&self) -> Seq<Seq<char>> {
        views_of(self.scope@)
    }

    /// The stored bearer token.
    pub closed spec fn token_view(&self) -> Seq<char> {
        self.token@
    }

    /// The stored API domain.
    pub closed spec fn domain_view(&self) -> Seq<char> {
        self.domain@
    }

    /// Create an `OAuthContext` against the public GitHub API domain. One
    /// discovery call is made at once: on success the resolver's scope list
    /// already reflects the server's answer, on failure no resolver exists.
    pub fn new(token: &str) -> (r: Result<Self, ScopeError>)
        ensures
            r matches Ok(ctx) ==> ctx.token_view() == token@ && ctx.domain_view()
                == "https://api.github.com"@ && (exists|v: Seq<char>|
                ctx.raw_scopes() == split_scopes(v)),
    {
        OAuthContext::create(token, "https://api.github.com")
    }

    /// Create an `OAuthContext` with token and domain; the domain is the base
    /// URL the discovery path is appended to.
    pub fn with_domain(token: &str, domain: &str) -> (r: Result<Self, ScopeError>)
        ensures
            r matches Ok(ctx) ==> ctx.token_view() == token@ && ctx.domain_view() == domain@ && (
            exists|v: Seq<char>| ctx.raw_scopes() == split_scopes(v)),
    {
        OAuthContext::create(token, domain)
    }

    fn create(token: &str, domain: &str) -> (r: Result<Self, ScopeError>)
        ensures
            r matches Ok(ctx) ==> ctx.token_view() == token@ && ctx.domain_view() == domain@ && (
            exists|v: Seq<char>| ctx.raw_scopes() == split_scopes(v)),
    {
        let client = match build_client("github_scopes_rs") {
            Option::Some(c) => c,
            Option::None => {
                return Err(ScopeError::Transport);
            },
        };
        let mut ctx = OAuthContext {
            client,
            token: token.to_owned(),
            domain: domain.to_owned(),
            scope: Vec::new(),
        };
        match ctx.refresh(None) {
            Ok(_) => Ok(ctx),
            Err(e) => Err(e),
        }
    }

    /// Refresh the scope list with a new token, or re-read the scopes of the
    /// stored token when no new token is given.
    ///
    /// A supplied token replaces the stored one before the call and stays
    /// replaced even when the call fails; the scope list changes only on
    /// success, and then holds exactly the split and trimmed segments of the
    /// scope header the server returned.
    pub fn refresh(&mut self, token: Option<String>) -> (r: Result<(), ScopeError>)
        ensures
            final(self).domain_view() == old(self).domain_view(),
            (match token {
                Option::Some(t) => final(self).token_view() == t@,
                Option::None => final(self).token_view() == old(self).token_view(),
            }),
            r matches Err(_) ==> final(self).raw_scopes() == old(self).raw_scopes(),
            r matches Ok(_) ==> (exists|v: Seq<char>| final(self).raw_scopes() == split_scopes(v)),
    {
        if let Option::Some(t) = token {
            self.token = t;
        }
        let url = self.domain.clone().concat("/rate_limit");
        let auth = "token ".to_owned().concat(self.token.as_str());
        let outcome = discovery_get(&self.client, url.as_str(), auth.as_str(), "x-oauth-scopes");
        let ghost saved: DiscoveryOutcome = outcome;
        match process_discovery(outcome) {
            Ok(s) => {
                proof {
                    match saved {
                        DiscoveryOutcome::Transport => {
                            assert(false);
                        },
                        DiscoveryOutcome::Response { status: st, scope_header: sh } => {
                            match sh {
                                Option::None => {
                                    assert(false);
                                },
                                Option::Some(v) => {
                                    assert(views_of(s@) == split_scopes(v@));
                                },
                            }
                        },
                    }
                }
                self.scope = s;
                Ok(())
            },
            Err(e) => Err(e),
        }
    }

    /// Return the GitHub token scope as a struct: the permission structure
    /// the current raw scope list grants. Pure in the current state, never
    /// contacts the network.
    pub fn get_scope_permissions(&self) -> (r: GithubTokenScope)
        ensures
            r == scope_permissions_of(self.raw_scopes()),
    {
        map_scopes(&self.scope)
    }
}

} // verus!
