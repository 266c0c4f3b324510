//! Request descriptors, the merge engine and the validator/assembler.
//!
//! A [`RequestMessageBuilder`] is a partially specified request parsed from
//! one configuration source.  [`RequestMessageBuilder::merge_with`] overlays
//! one builder on another (the overlay wins field by field);
//! [`RequestMessageBuilder::into_message`] validates a merged builder into a
//! complete, dispatch-ready [`RequestMessage`] or fails naming the first
//! missing field, in the order host, path, method.

use vstd::prelude::*;

use crate::request_error::RequestError;
use crate::text::upper;
use crate::text::upper_matches;

verus! {

/// The fixed set of HTTP verbs a request can use.
#[derive(Clone, Copy, PartialEq, Eq, Structural, Debug)]
pub enum HttpVerb {
    Get,
    Head,
    Post,
    Put,
    Delete,
    Options,
    Patch,
}

impl HttpVerb {
    /// The verb's canonical (uppercase) name.
    pub open spec fn spec_name(self) -> Seq<char> {
        match self {
            HttpVerb::Get => "GET"@,
            HttpVerb::Head => "HEAD"@,
            HttpVerb::Post => "POST"@,
            HttpVerb::Put => "PUT"@,
            HttpVerb::Delete => "DELETE"@,
            HttpVerb::Options => "OPTIONS"@,
            HttpVerb::Patch => "PATCH"@,
        }
    }

    /// Renders the verb's canonical name.
    pub fn name(&self) -> (r: &'static str)
        ensures
            r@ == self.spec_name(),
    {
        match self {
            HttpVerb::Get => "GET",
            HttpVerb::Head => "HEAD",
            HttpVerb::Post => "POST",
            HttpVerb::Put => "PUT",
            HttpVerb::Delete => "DELETE",
            HttpVerb::Options => "OPTIONS",
            HttpVerb::Patch => "PATCH",
        }
    }

    /// The verb a free-form method token denotes, matched case-insensitively
    /// against the canonical names; `None` for an unrecognized token.
    pub open spec fn spec_of_token(t: Seq<char>) -> Option<HttpVerb> {
        if upper(t) == "GET"@ {
            Some(HttpVerb::Get)
        } else if upper(t) == "HEAD"@ {
            Some(HttpVerb::Head)
        } else if upper(t) == "POST"@ {
            Some(HttpVerb::Post)
        } else if upper(t) == "PUT"@ {
            Some(HttpVerb::Put)
        } else if upper(t) == "DELETE"@ {
            Some(HttpVerb::Delete)
        } else if upper(t) == "OPTIONS"@ {
            Some(HttpVerb::Options)
        } else if upper(t) == "PATCH"@ {
            Some(HttpVerb::Patch)
        } else {
            None
        }
    }

    /// Executable counterpart of [`HttpVerb::spec_of_token`].
    pub fn of_token(token: &str) -> (r: Option<HttpVerb>)
        ensures
            r == HttpVerb::spec_of_token(token@),
    {
        if upper_matches(token, "GET") {
            Some(HttpVerb::Get)
        } else if upper_matches(token, "HEAD") {
            Some(HttpVerb::Head)
        } else if upper_matches(token, "POST") {
            Some(HttpVerb::Post)
        } else if upper_matches(token, "PUT") {
            Some(HttpVerb::Put)
        } else if upper_matches(token, "DELETE") {
            Some(HttpVerb::Delete)
        } else if upper_matches(token, "OPTIONS") {
            Some(HttpVerb::Options)
        } else if upper_matches(token, "PATCH") {
            Some(HttpVerb::Patch)
        } else {
            None
        }
    }

    /// Whether an outbound call with this verb carries the request body:
    /// GET, HEAD and OPTIONS are sent without one.
    pub open spec fn spec_carries_body(self) -> bool {
        !(self == HttpVerb::Get || self == HttpVerb::Head || self == HttpVerb::Options)
    }

    /// Executable counterpart of [`HttpVerb::spec_carries_body`].
    pub fn carries_body(&self) -> (b: bool)
        ensures
            b == self.spec_carries_body(),
    {
        match self {
            HttpVerb::Get => false,
            HttpVerb::Head => false,
            HttpVerb::Options => false,
            _ => true,
        }
    }
}

/// No header name occurs twice in the sequence.
pub open spec fn header_keys_unique(s: Seq<(String, String)>) -> bool {
    forall|i: int, j: int| 0 <= i < j < s.len() ==> s[i].0@ != s[j].0@
}

/// The mapping from header names to header values that a sequence of
/// header entries denotes (later entries would win, but well-formed
/// sequences have unique names).
pub open spec fn headers_map(s: Seq<(String, String)>) -> Map<Seq<char>, Seq<char>>
    decreases s.len(),
{
    if s.len() == 0 {
        Map::empty()
    } else {
        headers_map(s.drop_last()).insert(s.last().0@, s.last().1@)
    }
}

/// Appending one entry inserts its pair into the denoted mapping.
pub proof fn lemma_headers_map_push(s: Seq<(String, String)>, p: (String, String))
    ensures
        headers_map(s.push(p)) == headers_map(s).insert(p.0@, p.1@),
{
    assert(s.push(p).drop_last() =~= s);
    assert(s.push(p).last() == p);
}

/// Overwriting the entry that holds a name updates that name's value in the
/// denoted mapping and nothing else.
pub proof fn lemma_headers_map_update(s: Seq<(String, String)>, i: int, p: (String, String))
    requires
        header_keys_unique(s),
        0 <= i < s.len(),
        p.0@ == s[i].0@,
    ensures
        headers_map(s.update(i, p)) == headers_map(s).insert(p.0@, p.1@),
    decreases s.len(),
{
    let t = s.update(i, p);
    if i == s.len() - 1 {
        assert(t.drop_last() =~= s.drop_last());
        assert(t.last() == p);
        assert(headers_map(s.drop_last()).insert(p.0@, p.1@) =~= headers_map(
            s.drop_last(),
        ).insert(s[i].0@, s[i].1@).insert(p.0@, p.1@));
    } else {
        assert(t.drop_last() =~= s.drop_last().update(i, p));
        assert(t.last() == s.last());
        assert(header_keys_unique(s.drop_last())) by {
            assert forall|a: int, b: int|
                0 <= a < b < s.drop_last().len() implies s.drop_last()[a].0@ != s.drop_last()[b].0@ by {
                assert(s.drop_last()[a] == s[a]);
                assert(s.drop_last()[b] == s[b]);
            }
        }
        lemma_headers_map_update(s.drop_last(), i, p);
        assert(p.0@ != s.last().0@);
        assert(headers_map(s.drop_last()).insert(p.0@, p.1@).insert(s.last().0@, s.last().1@)
            =~= headers_map(s.drop_last()).insert(s.last().0@, s.last().1@).insert(p.0@, p.1@));
    }
}

/// A complete, dispatch-ready request.
///
/// The target `url` is the literal concatenation of the configured host and
/// path; `body` defaults to the empty string and `headers` to the empty
/// mapping when the configuration left them out.
pub struct RequestMessage {
    pub method: HttpVerb,
    pub url: String,
    pub body: String,
    pub headers: Vec<(String, String)>,
}

/// A partially specified request, as parsed from one configuration source.
/// Every field is optional; merging and validation happen later.
#[derive(Debug)]
pub struct RequestMessageBuilder {
    pub method: Option<String>,
    pub host: Option<String>,
    pub path: Option<String>,
    pub body: Option<String>,
    pub headers: Option<Vec<(String, String)>>,
}

/// The view of an optional text field.
pub open spec fn opt_text(o: Option<String>) -> Option<Seq<char>> {
    match o {
        Some(s) => Some(s@),
        None => None,
    }
}

/// Override-with-fallback choice for one scalar field: the overlay's value
/// wins when present, else the base's value is kept.
pub open spec fn override_or(base: Option<String>, overlay: Option<String>) -> Option<Seq<char>> {
    if overlay is Some {
        Some(overlay->0@)
    } else {
        opt_text(base)
    }
}

/// Clones the overlay's value when present, else the base's.
fn or_clone(overlay: Option<String>, base: &Option<String>) -> (r: Option<String>)
    ensures
        opt_text(r) == override_or(*base, overlay),
{
    match overlay {
        Some(s) => Some(s),
        None => match base {
            Some(b) => Some(b.clone()),
            None => None,
        },
    }
}

/// Sets `key` to `value` in a header list with unique names: overwrites the
/// entry holding `key` if there is one, else appends a new entry.
fn insert_header(headers: &mut Vec<(String, String)>, key: String, value: String)
    requires
        header_keys_unique(old(headers)@),
    ensures
        header_keys_unique(final(headers)@),
        headers_map(final(headers)@) == headers_map(old(headers)@).insert(key@, value@),
{
    let mut i: usize = 0;
    while i < headers.len()
        invariant
            headers@ == old(headers)@,
            0 <= i <= headers@.len(),
            header_keys_unique(headers@),
            forall|k: int| 0 <= k < i ==> headers@[k].0@ != key@,
        decreases headers@.len() - i,
    {
        if headers[i].0 == key {
            let ghost s0 = headers@;
            proof {
                lemma_headers_map_update(s0, i as int, (key, value));
            }
            headers.set(i, (key, value));
            proof {
                assert(headers@ == s0.update(i as int, (key, value)));
                assert forall|a: int, b: int|
                    0 <= a < b < headers@.len() implies headers@[a].0@ != headers@[b].0@ by {
                    assert(s0[a].0@ != s0[b].0@);
                }
            }
            return ;
        }
        i += 1;
    }
    let ghost s1 = headers@;
    proof {
        lemma_headers_map_push(s1, (key, value));
    }
    headers.push((key, value));
    proof {
        assert(headers@ == s1.push((key, value)));
        assert forall|a: int, b: int|
            0 <= a < b < headers@.len() implies headers@[a].0@ != headers@[b].0@ by {
            if b < headers@.len() - 1 {
                assert(s1[a].0@ != s1[b].0@);
            } else {
                assert(s1[a].0@ != key@);
            }
        }
    }
}

impl RequestMessageBuilder {
    /// Well-formedness: header names, when present, are unique.
    pub open spec fn wf(self) -> bool {
        match self.headers {
            Some(h) => header_keys_unique(h@),
            None => true,
        }
    }

    /// The header mapping this builder denotes; absent headers denote the
    /// empty mapping.
    pub open spec fn spec_headers(self) -> Map<Seq<char>, Seq<char>> {
        match self.headers {
            Some(h) => headers_map(h@),
            None => Map::empty(),
        }
    }

    /// Executable counterpart of [`Self::wf`]: decides whether the header
    /// names are unique.
    pub fn check_wf(&self) -> (b: bool)
        ensures
            b == self.wf(),
    {
        let h = match &self.headers {
            None => {
                return true;
            },
            Some(h) => h,
        };
        let mut i: usize = 0;
        while i < h.len()
            invariant
                self.headers == Some(*h),
                0 <= i <= h@.len(),
                forall|a: int, b: int| 0 <= a < b < h@.len() && a < i ==> h@[a].0@ != h@[b].0@,
            decreases h@.len() - i,
        {
            let mut j: usize = i + 1;
            while j < h.len()
                invariant
                    self.headers == Some(*h),
                    0 <= i < j <= h@.len(),
                    forall|a: int, b: int| 0 <= a < b < h@.len() && a < i ==> h@[a].0@ != h@[b].0@,
                    forall|b: int| i < b < j ==> h@[i as int].0@ != h@[b].0@,
                decreases h@.len() - j,
            {
                if h[j].0 == h[i].0 {
                    proof {
                        assert(h@[i as int].0@ == h@[j as int].0@);
                    }
                    return false;
                }
                j += 1;
            }
            i += 1;
        }
        true
    }

    /// A builder with no field set.
    pub fn new() -> (r: RequestMessageBuilder)
        ensures
            r.method is None,
            r.host is None,
            r.path is None,
            r.body is None,
            r.headers is None,
            r.wf(),
    {
        RequestMessageBuilder { method: None, host: None, path: None, body: None, headers: None }
    }

    /// Overlays `new_message` on `self`: every scalar field takes the
    /// overlay's value when present and falls back to the base's; the header
    /// mapping is the union of both with the overlay winning on common
    /// names.  Neither input is mutated; merging never fails.
    pub fn merge_with(&self, new_message: RequestMessageBuilder) -> (r: RequestMessageBuilder)
        requires
            self.wf(),
            new_message.wf(),
        ensures
            r.wf(),
            opt_text(r.method) == override_or(self.method, new_message.method),
            opt_text(r.host) == override_or(self.host, new_message.host),
            opt_text(r.path) == override_or(self.path, new_message.path),
            opt_text(r.body) == override_or(self.body, new_message.body),
            r.headers is Some,
            headers_map(r.headers->0@) == self.spec_headers().union_prefer_right(
                new_message.spec_headers(),
            ),
    {
        let method = or_clone(new_message.method, &self.method);
        let host = or_clone(new_message.host, &self.host);
        let path = or_clone(new_message.path, &self.path);
        let body = or_clone(new_message.body, &self.body);

        let mut merged: Vec<(String, String)> = Vec::new();
        if let Some(base_h) = &self.headers {
            let mut i: usize = 0;
            while i < base_h.len()
                invariant
                    0 <= i <= base_h@.len(),
                    merged@ =~= base_h@.take(i as int),
                decreases base_h@.len() - i,
            {
                let pair = &base_h[i];
                merged.push((pair.0.clone(), pair.1.clone()));
                proof {
                    assert(merged@ =~= base_h@.take(i + 1));
                }
                i += 1;
            }
            proof {
                assert(merged@ =~= base_h@);
            }
        }
        proof {
            assert(header_keys_unique(merged@));
            assert(headers_map(merged@) == self.spec_headers());
        }
        let ghost base_map = self.spec_headers();
        if let Some(over_h) = &new_message.headers {
            let mut i: usize = 0;
            while i < over_h.len()
                invariant
                    0 <= i <= over_h@.len(),
                    header_keys_unique(over_h@),
                    header_keys_unique(merged@),
                    headers_map(merged@) == base_map.union_prefer_right(
                        headers_map(over_h@.take(i as int)),
                    ),
                decreases over_h@.len() - i,
            {
                let pair = &over_h[i];
                insert_header(&mut merged, pair.0.clone(), pair.1.clone());
                proof {
                    assert(over_h@.take(i + 1).drop_last() =~= over_h@.take(i as int));
                    assert(over_h@.take(i + 1).last() == over_h@[i as int]);
                    assert(headers_map(merged@) =~= base_map.union_prefer_right(
                        headers_map(over_h@.take(i + 1)),
                    ));
                }
                i += 1;
            }
            proof {
                assert(over_h@.take(over_h@.len() as int) =~= over_h@);
            }
        } else {
            proof {
                assert(headers_map(merged@) =~= base_map.union_prefer_right(
                    new_message.spec_headers(),
                ));
            }
        }
        RequestMessageBuilder { method, host, path, body, headers: Some(merged) }
    }

    /// Law: the header mapping produced by [`Self::merge_with`] holds every
    /// name of the base not in the overlay with its base value, every name
    /// of the overlay with its overlay value, and no other names.
    pub proof fn lemma_merged_header_lookup(
        self,
        overlay: RequestMessageBuilder,
        name: Seq<char>,
    )
        ensures
            ({
                let merged = self.spec_headers().union_prefer_right(overlay.spec_headers());
                &&& overlay.spec_headers().contains_key(name) ==> merged.contains_key(name)
                    && merged[name] == overlay.spec_headers()[name]
                &&& self.spec_headers().contains_key(name) && !overlay.spec_headers().contains_key(
                    name,
                ) ==> merged.contains_key(name) && merged[name] == self.spec_headers()[name]
                &&& merged.contains_key(name) ==> self.spec_headers().contains_key(name)
                    || overlay.spec_headers().contains_key(name)
            }),
    {
    }

    /// The field that aborts assembly, in the check order host, path,
    /// method; an unrecognized method token counts as a missing method.
    pub open spec fn missing_field(self) -> Option<Seq<char>> {
        if self.host is None {
            Some("host"@)
        } else if self.path is None {
            Some("path"@)
        } else if self.method is None {
            Some("method"@)
        } else if HttpVerb::spec_of_token(self.method->0@) is None {
            Some("method"@)
        } else {
            None
        }
    }

    /// Validates the merged builder into a complete request.
    ///
    /// Succeeds exactly when host, path and a recognizable method are all
    /// present; the target is the literal concatenation of host and path,
    /// the body defaults to the empty string and the headers to the empty
    /// mapping.  On failure the error names the first missing field.
    pub fn into_message(self) -> (r: Result<RequestMessage, RequestError>)
        requires
            self.wf(),
        ensures
            r is Ok <==> self.missing_field() is None,
            r is Err ==> (r->Err_0 matches RequestError::BuildError { property_name }
                && property_name@ == self.missing_field()->0),
            r matches Ok(m) ==> {
                &&& Some(m.method) == HttpVerb::spec_of_token(self.method->0@)
                &&& m.url@ == self.host->0@ + self.path->0@
                &&& m.body@ == (if self.body is Some {
                    self.body->0@
                } else {
                    Seq::<char>::empty()
                })
                &&& m.headers@ == (if self.headers is Some {
                    self.headers->0@
                } else {
                    Seq::<(String, String)>::empty()
                })
                &&& header_keys_unique(m.headers@)
                &&& headers_map(m.headers@) == self.spec_headers()
            },
    {
        let RequestMessageBuilder { method, host, path, body, headers } = self;
        let host = match host {
            Some(x) => x,
            None => {
                return Err(RequestError::BuildError { property_name: String::from_str("host") });
            },
        };
        let path = match path {
            Some(x) => x,
            None => {
                return Err(RequestError::BuildError { property_name: String::from_str("path") });
            },
        };
        let method_candidate = match method {
            Some(x) => x,
            None => {
                return Err(RequestError::BuildError { property_name: String::from_str("method") });
            },
        };
        let verb = match HttpVerb::of_token(method_candidate.as_str()) {
            Some(v) => v,
            None => {
                return Err(RequestError::BuildError { property_name: String::from_str("method") });
            },
        };
        let url = host.concat(path.as_str());
        let body = match body {
            Some(b) => b,
            None => String::new(),
        };
        let headers = match headers {
            Some(h) => h,
            None => Vec::new(),
        };
        Ok(RequestMessage { method: verb, url, body, headers })
    }
}

/// Lines "name:value", one per header entry, in order.
pub open spec fn kv_lines(s: Seq<(String, String)>) -> Seq<char>
    decreases s.len(),
{
    if s.len() == 0 {
        Seq::empty()
    } else {
        kv_lines(s.drop_last()) + s.last().0@ + ":"@ + s.last().1@ + "\n"@
    }
}

/// Renders "name:value" lines for every header entry, in order.
fn kv_lines_exec(headers: &Vec<(String, String)>) -> (r: String)
    ensures
        r@ == kv_lines(headers@),
{
    let mut s = String::new();
    let mut i: usize = 0;
    while i < headers.len()
        invariant
            0 <= i <= headers@.len(),
            s@ == kv_lines(headers@.take(i as int)),
        decreases headers@.len() - i,
    {
        let pair = &headers[i];
        s.append(pair.0.as_str());
        s.append(":");
        s.append(pair.1.as_str());
        s.append("\n");
        proof {
            assert(headers@.take(i + 1).drop_last() =~= headers@.take(i as int));
            assert(headers@.take(i + 1).last() == headers@[i as int]);
            assert(s@ =~= kv_lines(headers@.take(i + 1)));
        }
        i += 1;
    }
    proof {
        assert(headers@.take(headers@.len() as int) =~= headers@);
    }
    s
}

impl RequestMessage {
    /// The request as rendered before dispatch at the Detailed level: the
    /// method and target lines, one "name:value" line per header, then the
    /// body on its own paragraph.
    pub open spec fn spec_render(self) -> Seq<char> {
        "method: "@ + self.method.spec_name() + "\n"@ + "url: "@ + self.url@ + "\n"@ + kv_lines(
            self.headers@,
        ) + "\nbody: "@ + self.body@ + "\n"@
    }

    /// Renders the request exactly as [`Self::spec_render`] states.
    pub fn render(&self) -> (r: String)
        ensures
            r@ == self.spec_render(),
    {
        let mut s = String::from_str("method: ");
        s.append(self.method.name());
        s.append("\n");
        s.append("url: ");
        s.append(self.url.as_str());
        s.append("\n");
        let kv = kv_lines_exec(&self.headers);
        s.append(kv.as_str());
        s.append("\nbody: ");
        s.append(self.body.as_str());
        s.append("\n");
        proof {
            assert(s@ =~= self.spec_render());
        }
        s
    }
}

} // verus!
