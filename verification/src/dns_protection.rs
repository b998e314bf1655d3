//! Protection against DNS rebinding: the `Host` header of every request must
//! name an allowed host.

use std::sync::Arc;
use vstd::prelude::*;
use vstd::string::StringExecFns;
use crate::urls::{parse_url, url_parse_outcome};

verus! {

/// The hostname in a `Host` header value, port left out: the host that the
/// `url` crate reads from `http://` followed by the header.
pub open spec fn hostname_of(host_header: Seq<char>) -> Option<Seq<char>> {
    match url_parse_outcome("http://"@ + host_header) {
        Ok((Some(h), _)) => Some(h),
        _ => None,
    }
}

/// Extracts the hostname from a `Host` header value, ignoring the port.
/// IPv6 addresses keep their brackets.
pub fn extract_hostname(host_header: &str) -> (r: Option<String>)
    ensures
        crate::token_config::opt_string_view(r) == hostname_of(host_header@),
{
    let mut url_text = String::from_str("http://");
    url_text.append(host_header);
    match parse_url(url_text.as_str()) {
        Ok(Some(h)) => Some(h),
        _ => None,
    }
}

/// The set of characters sequences held by a list of strings.
pub open spec fn string_set(v: Seq<String>) -> Set<Seq<char>> {
    Set::new(|s: Seq<char>| exists|i: int| 0 <= i < v.len() && #[trigger] v[i]@ == s)
}

/// No hostname occurs twice in the list.
pub open spec fn no_repeats(v: Seq<String>) -> bool {
    forall|i: int, j: int| 0 <= i < v.len() && 0 <= j < v.len() && i != j ==> #[trigger] v[i]@ != #[trigger] v[j]@
}

/// Appending a string adds its characters to the set.
proof fn lemma_string_set_push(v: Seq<String>, x: String)
    ensures
        string_set(v.push(x)) == string_set(v).insert(x@),
{
    let w = v.push(x);
    assert forall|t: Seq<char>| string_set(w).contains(t) <==> string_set(v).insert(x@).contains(t) by {
        if string_set(w).contains(t) {
            let i = choose|i: int| 0 <= i < w.len() && #[trigger] w[i]@ == t;
            if i < v.len() {
                assert(v[i]@ == t);
            }
        }
        if string_set(v).contains(t) {
            let i = choose|i: int| 0 <= i < v.len() && #[trigger] v[i]@ == t;
            assert(w[i]@ == t);
        }
        if t == x@ {
            assert(w[v.len() as int]@ == t);
        }
    }
    assert(string_set(w) =~= string_set(v).insert(x@));
}

/// Whether one of `v` has the characters of `h`.
fn holds(v: &Vec<String>, h: &str) -> (b: bool)
    ensures
        b == string_set(v@).contains(h@),
{
    let key = String::from_str(h);
    let mut i: usize = 0;
    while i < v.len()
        invariant
            i <= v@.len(),
            key@ == h@,
            forall|j: int| 0 <= j < i ==> v@[j]@ != h@,
        decreases v.len() - i,
    {
        if v[i] == key {
            assert(v@[i as int]@ == h@);
            return true;
        }
        i = i + 1;
    }
    false
}

/// Configuration for DNS rebinding protection: the allowed hostnames, without
/// ports (IPv6 with brackets, e.g. `[::1]`), each once.
pub struct DnsProtectionConfig {
    pub allowed_hostnames: Vec<String>,
}

impl DnsProtectionConfig {
    /// The allowed hostnames, as a set.
    pub open spec fn allowed(&self) -> Set<Seq<char>> {
        string_set(self.allowed_hostnames@)
    }

    /// A configuration allowing exactly the given hostnames, each kept once
    /// (in the order of its first occurrence).
    pub fn new(hostnames: Vec<String>) -> (c: DnsProtectionConfig)
        ensures
            c.allowed() == string_set(hostnames@),
            no_repeats(c.allowed_hostnames@),
    {
        let mut kept: Vec<String> = Vec::new();
        let mut i: usize = 0;
        assert(string_set(kept@) =~= string_set(hostnames@.take(0)));
        while i < hostnames.len()
            invariant
                i <= hostnames@.len(),
                no_repeats(kept@),
                string_set(kept@) == string_set(hostnames@.take(i as int)),
            decreases hostnames.len() - i,
        {
            let present = holds(&kept, hostnames[i].as_str());
            let ghost before = kept@;
            let ghost x = hostnames@[i as int];
            proof {
                assert(hostnames@.take(i + 1) == hostnames@.take(i as int).push(x));
                lemma_string_set_push(hostnames@.take(i as int), x);
            }
            if !present {
                let copy = String::from_str(hostnames[i].as_str());
                kept.push(copy);
                proof {
                    lemma_string_set_push(before, copy);
                    assert forall|a: int, b: int| 0 <= a < kept@.len() && 0 <= b < kept@.len() && a != b
                        implies #[trigger] kept@[a]@ != #[trigger] kept@[b]@ by {
                        if a < before.len() && b < before.len() {
                            assert(kept@[a] == before[a] && kept@[b] == before[b]);
                        } else if a < before.len() {
                            assert(kept@[a] == before[a]);
                            assert(string_set(before).contains(kept@[a]@));
                        } else {
                            assert(kept@[b] == before[b]);
                            assert(string_set(before).contains(kept@[b]@));
                        }
                    }
                }
            } else {
                proof {
                    assert(string_set(before).insert(x@) =~= string_set(before));
                }
            }
            i = i + 1;
        }
        assert(hostnames@.take(hostnames@.len() as int) =~= hostnames@);
        DnsProtectionConfig { allowed_hostnames: kept }
    }

    /// A configuration allowing only `localhost`, `127.0.0.1` and `[::1]`.
    pub fn localhost() -> (c: DnsProtectionConfig)
        ensures
            c.allowed() == set!["localhost"@, "127.0.0.1"@, "[::1]"@],
            no_repeats(c.allowed_hostnames@),
            c.allowed_hostnames@.len() == 3,
    {
        let mut v: Vec<String> = Vec::new();
        v.push(String::from_str("localhost"));
        v.push(String::from_str("127.0.0.1"));
        v.push(String::from_str("[::1]"));
        proof {
            reveal_strlit("localhost");
            reveal_strlit("127.0.0.1");
            reveal_strlit("[::1]");
        }
        assert(v@[0]@ == "localhost"@);
        assert(v@[1]@ == "127.0.0.1"@);
        assert(v@[2]@ == "[::1]"@);
        assert(string_set(v@) =~= set!["localhost"@, "127.0.0.1"@, "[::1]"@]);
        assert(v@[0]@ != v@[1]@ && v@[0]@ != v@[2]@ && v@[1]@ != v@[2]@) by {
            assert(v@[0]@[0] != v@[1]@[0]);
            assert(v@[0]@[0] != v@[2]@[0]);
            assert(v@[1]@[0] != v@[2]@[0]);
        }
        DnsProtectionConfig { allowed_hostnames: v }
    }

    /// Whether `hostname` is allowed.
    pub fn is_allowed(&self, hostname: &str) -> (b: bool)
        ensures
            b == self.allowed().contains(hostname@),
    {
        let key = String::from_str(hostname);
        let mut i: usize = 0;
        while i < self.allowed_hostnames.len()
            invariant
                i <= self.allowed_hostnames@.len(),
                key@ == hostname@,
                forall|j: int| 0 <= j < i ==> self.allowed_hostnames@[j]@ != hostname@,
            decreases self.allowed_hostnames.len() - i,
        {
            if self.allowed_hostnames[i] == key {
                return true;
            }
            i = i + 1;
        }
        false
    }
}

impl Default for DnsProtectionConfig {
    fn default() -> (c: DnsProtectionConfig)
        ensures
            c.allowed() == set!["localhost"@, "127.0.0.1"@, "[::1]"@],
    {
        DnsProtectionConfig::localhost()
    }
}

/// Layer for DNS rebinding protection.
pub struct DnsProtectionLayer {
    pub config: Arc<DnsProtectionConfig>,
}

impl DnsProtectionLayer {
    /// A layer with the given configuration.
    pub fn new(config: DnsProtectionConfig) -> (l: DnsProtectionLayer)
        ensures
            l.config.allowed() == config.allowed(),
    {
        DnsProtectionLayer { config: Arc::new(config) }
    }

    /// A layer allowing only localhost.
    pub fn localhost() -> (l: DnsProtectionLayer)
        ensures
            l.config.allowed() == set!["localhost"@, "127.0.0.1"@, "[::1]"@],
    {
        DnsProtectionLayer::new(DnsProtectionConfig::localhost())
    }
}

/// A service behind DNS rebinding protection.
pub struct DnsProtectionService<S> {
    pub inner: S,
    pub config: Arc<DnsProtectionConfig>,
}

/// Another handle on a shared value (std's `Arc::clone`, which, as its
/// documentation says, points to the same allocation).
#[verifier::external_body]
pub(crate) fn share<T>(a: &Arc<T>) -> (r: Arc<T>)
    ensures
        *r == **a,
{
    Arc::clone(a)
}

impl DnsProtectionLayer {
    /// Puts `inner` behind the protection, sharing this layer's configuration.
    pub fn layer<S>(&self, inner: S) -> (s: DnsProtectionService<S>)
        ensures
            s.inner == inner,
            *s.config == *self.config,
    {
        DnsProtectionService { inner, config: share(&self.config) }
    }
}

/// A DNS rebinding protection layer allowing the given hostnames.
pub fn host_header_validation(hostnames: Vec<String>) -> (l: DnsProtectionLayer)
    ensures
        l.config.allowed() == string_set(hostnames@),
{
    DnsProtectionLayer::new(DnsProtectionConfig::new(hostnames))
}

/// A DNS rebinding protection layer allowing only localhost.
pub fn localhost_host_validation() -> (l: DnsProtectionLayer)
    ensures
        l.config.allowed() == set!["localhost"@, "127.0.0.1"@, "[::1]"@],
{
    DnsProtectionLayer::localhost()
}

/// The `Host` header of a request: absent, not visible ASCII text, or text.
pub enum HostHeader<'a> {
    Missing,
    Unreadable,
    Text(&'a str),
}

/// The message with which a request is refused, given its `Host` header, or
/// `None` when it may go on.
pub open spec fn host_refusal(allowed: Set<Seq<char>>, header: HostHeader) -> Option<Seq<char>> {
    match header {
        HostHeader::Missing => Some("Missing Host header"@),
        HostHeader::Unreadable => Some("Invalid Host header encoding"@),
        HostHeader::Text(h) => match hostname_of(h@) {
            None => Some("Invalid Host header: "@ + h@),
            Some(name) => if allowed.contains(name) {
                None
            } else {
                Some("Invalid Host: "@ + name)
            },
        },
    }
}

/// Decides whether a request may pass: `Ok` when its hostname is allowed,
/// otherwise the message of the JSON-RPC error (code -32000, HTTP 403) sent back.
pub fn check_host(config: &DnsProtectionConfig, header: HostHeader) -> (r: Result<(), String>)
    ensures
        match host_refusal(config.allowed(), header) {
            None => r is Ok,
            Some(m) => r matches Err(e) && e@ == m,
        },
{
    match header {
        HostHeader::Missing => Err(String::from_str("Missing Host header")),
        HostHeader::Unreadable => Err(String::from_str("Invalid Host header encoding")),
        HostHeader::Text(h) => match extract_hostname(h) {
            None => {
                let mut m = String::from_str("Invalid Host header: ");
                m.append(h);
                Err(m)
            },
            Some(name) => {
                if config.is_allowed(name.as_str()) {
                    Ok(())
                } else {
                    let mut m = String::from_str("Invalid Host: ");
                    m.append(name.as_str());
                    Err(m)
                }
            },
        },
    }
}

/// A request passes exactly when its `Host` header holds text whose hostname
/// (port ignored) is in the allowed set; a hostname that is allowed is never
/// refused, whatever port the header names.
pub proof fn law_host_passes_iff_allowed(allowed: Set<Seq<char>>, header: HostHeader)
    ensures
        host_refusal(allowed, header) is None <==> (header matches HostHeader::Text(h)
            && hostname_of(h@) matches Some(name) && allowed.contains(name)),
{
}

} // verus!
