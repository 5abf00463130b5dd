//! Capability-based permissions of one execution: which hosts a guest may
//! reach, how many requests it may make, and which addresses are never
//! reachable whatever the allow-list says.

use crate::text::{
    chars_of, has_prefix, has_suffix, is_plain_lowercase, lowercase, same_chars, same_text,
    to_lowercase,
};
use vstd::prelude::*;
use vstd::string::*;

verus! {

/// The address form of the host of a URL.
#[derive(Debug, Clone, Copy, PartialEq, Eq, Structural)]
pub enum HostAddress {
    /// A domain name.
    Domain,
    /// An IPv4 address, by its four octets.
    Ipv4(u8, u8, u8, u8),
    /// An IPv6 address, as one 128-bit number in network order.
    Ipv6(u128),
}

/// The host of a parsed URL: its serialized text and its address form.
#[derive(Debug, Clone)]
pub struct UrlHost {
    /// The host as the URL serializes it.
    pub text: String,
    /// The address form of the host.
    pub address: HostAddress,
}

/// What a permission set grants to one execution. The default grants
/// nothing.
#[derive(Debug, Clone)]
pub struct Permissions {
    /// Host patterns that outbound HTTP may reach: an exact host, a
    /// `*.suffix` wildcard, or `*` for every host. No pattern occurs twice.
    pub allowed_http_hosts: Vec<String>,
    /// Outbound HTTP is granted at all.
    pub http_enabled: bool,
    /// Number of outbound requests that one execution may make.
    pub max_http_requests: u32,
    /// Guest logging is granted.
    pub logging_enabled: bool,
}

/// Builder of a permission set, starting from one that grants nothing.
#[derive(Debug)]
pub struct PermissionsBuilder {
    inner: Permissions,
}

/// The host of the URL written as `url`: its serialized text and address
/// form, or `None` where the text is no URL or the URL has no host.
pub uninterp spec fn url_host(url: Seq<char>) -> Option<(Seq<char>, HostAddress)>;

/// `Url::parse`, `Url::host_str` and `Url::host` of the `url` crate: the host
/// of the URL that the text parses to, which depends on the text alone. The
/// result is `None` where parsing fails or the URL has no host.
#[verifier::external_body]
pub(crate) fn parse_host(url: &str) -> (r: Option<UrlHost>)
    ensures
        match r {
            Some(h) => url_host(url@) == Some((h.text@, h.address)),
            None => url_host(url@) is None,
        },
{
    let parsed = url::Url::parse(url).ok()?;
    let text = parsed.host_str()?.to_string();
    let address = match parsed.host()? {
        url::Host::Domain(_) => HostAddress::Domain,
        url::Host::Ipv4(a) => HostAddress::Ipv4(a.octets()[0], a.octets()[1], a.octets()[2], a.octets()[3]),
        url::Host::Ipv6(a) => HostAddress::Ipv6(u128::from(a)),
    };
    Some(UrlHost { text, address })
}

/// Whether a lowercase pattern admits a lowercase host: a pattern that
/// begins with `*.` admits every host that ends with the pattern's `.suffix`
/// and the bare suffix itself; any other pattern admits only itself.
pub open spec fn pattern_admits(pattern: Seq<char>, host: Seq<char>) -> bool {
    if "*."@.is_prefix_of(pattern) {
        pattern.skip(1).is_suffix_of(host) || host == pattern.skip(2)
    } else {
        pattern == host
    }
}

/// 10.0.0.0/8, 172.16.0.0/12 and 192.168.0.0/16.
pub open spec fn ipv4_is_private(a: u8, b: u8, c: u8, d: u8) -> bool {
    a == 10 || (a == 172 && 16 <= b <= 31) || (a == 192 && b == 168)
}

/// 127.0.0.0/8.
pub open spec fn ipv4_is_loopback(a: u8, b: u8, c: u8, d: u8) -> bool {
    a == 127
}

/// 169.254.0.0/16.
pub open spec fn ipv4_is_link_local(a: u8, b: u8, c: u8, d: u8) -> bool {
    a == 169 && b == 254
}

/// 255.255.255.255.
pub open spec fn ipv4_is_broadcast(a: u8, b: u8, c: u8, d: u8) -> bool {
    a == 255 && b == 255 && c == 255 && d == 255
}

/// 192.0.2.0/24, 198.51.100.0/24 and 203.0.113.0/24.
pub open spec fn ipv4_is_documentation(a: u8, b: u8, c: u8, d: u8) -> bool {
    (a == 192 && b == 0 && c == 2) || (a == 198 && b == 51 && c == 100) || (a == 203 && b == 0
        && c == 113)
}

/// 0.0.0.0.
pub open spec fn ipv4_is_unspecified(a: u8, b: u8, c: u8, d: u8) -> bool {
    a == 0 && b == 0 && c == 0 && d == 0
}

/// An IPv4 address that no guest may reach.
pub open spec fn ipv4_is_internal(a: u8, b: u8, c: u8, d: u8) -> bool {
    ipv4_is_private(a, b, c, d) || ipv4_is_loopback(a, b, c, d) || ipv4_is_link_local(a, b, c, d)
        || ipv4_is_broadcast(a, b, c, d) || ipv4_is_documentation(a, b, c, d)
        || ipv4_is_unspecified(a, b, c, d)
}

/// An address that no guest may reach: an internal IPv4 address, or the
/// IPv6 loopback (`::1`) or unspecified (`::`) address.
pub open spec fn address_is_internal(address: HostAddress) -> bool {
    match address {
        HostAddress::Domain => false,
        HostAddress::Ipv4(a, b, c, d) => ipv4_is_internal(a, b, c, d),
        HostAddress::Ipv6(bits) => bits == 1 || bits == 0,
    }
}

/// A lowercase host name that no guest may reach: the loopback names and the
/// cloud metadata endpoints.
pub open spec fn name_is_internal(host: Seq<char>) -> bool {
    host == "localhost"@ || host == "127.0.0.1"@ || host == "169.254.169.254"@ || host
        == "metadata.google.internal"@
}

/// Whether a host, given by its lowercase text and its address form, is
/// private or internal.
pub open spec fn host_is_private(host: Seq<char>, address: HostAddress) -> bool {
    name_is_internal(host) || address_is_internal(address)
}

/// Whether the host of a URL is private or internal; a URL without a host
/// is not.
pub open spec fn url_is_private(host: Option<(Seq<char>, HostAddress)>) -> bool {
    match host {
        Some((text, address)) => host_is_private(lowercase(text), address),
        None => false,
    }
}

/// A wildcard pattern `*.suffix` admits the bare suffix and every host made
/// of a prefix, a dot and the suffix; it admits no host in which something
/// other than a dot is glued in front of the suffix.
pub proof fn wildcard_admits_subdomains_and_bare_suffix(suffix: Seq<char>, prefix: Seq<char>)
    ensures
        pattern_admits("*."@ + suffix, suffix),
        pattern_admits("*."@ + suffix, prefix + "."@ + suffix),
        prefix.len() > 0 && prefix.last() != '.' ==> !pattern_admits(
            "*."@ + suffix,
            prefix + suffix,
        ),
{
    reveal_strlit("*.");
    reveal_strlit(".");
    let pattern = "*."@ + suffix;
    assert(pattern.subrange(0, 2) =~= "*."@);
    assert(pattern.skip(2) =~= suffix);
    assert(pattern.skip(1) =~= "."@ + suffix);
    let sub = prefix + "."@ + suffix;
    assert(sub.subrange(sub.len() - pattern.skip(1).len(), sub.len() as int) =~= pattern.skip(1));
    if prefix.len() > 0 && prefix.last() != '.' {
        let glued = prefix + suffix;
        assert(glued.len() != suffix.len());
        if pattern.skip(1).is_suffix_of(glued) {
            let tail = glued.subrange(glued.len() - pattern.skip(1).len(), glued.len() as int);
            assert(tail =~= pattern.skip(1));
            assert(tail[0] == '.');
            assert(tail[0] == glued[prefix.len() - 1]);
            assert(glued[prefix.len() - 1] == prefix.last());
        }
    }
}

/// A permission set that grants nothing allows no target at all.
pub proof fn nothing_granted_allows_nothing(
    permissions: Permissions,
    host: Option<(Seq<char>, HostAddress)>,
)
    requires
        permissions.grants_nothing(),
    ensures
        !permissions.allows(host),
{
}

/// Whether an address is private or internal.
pub fn is_internal_address(address: HostAddress) -> (r: bool)
    ensures
        r == address_is_internal(address),
{
    match address {
        HostAddress::Domain => false,
        HostAddress::Ipv4(a, b, c, d) => {
            let private = a == 10 || (a == 172 && 16 <= b && b <= 31) || (a == 192 && b == 168);
            let loopback = a == 127;
            let link_local = a == 169 && b == 254;
            let broadcast = a == 255 && b == 255 && c == 255 && d == 255;
            let documentation = (a == 192 && b == 0 && c == 2) || (a == 198 && b == 51 && c
                == 100) || (a == 203 && b == 0 && c == 113);
            let unspecified = a == 0 && b == 0 && c == 0 && d == 0;
            private || loopback || link_local || broadcast || documentation || unspecified
        },
        HostAddress::Ipv6(bits) => bits == 1 || bits == 0,
    }
}

/// Whether a host, given by its lowercase text and its address form, is
/// private or internal.
pub fn is_private_host(host: &str, address: HostAddress) -> (r: bool)
    ensures
        r == host_is_private(host@, address),
{
    if same_text(host, "localhost") || same_text(host, "127.0.0.1") {
        return true;
    }
    if same_text(host, "169.254.169.254") || same_text(host, "metadata.google.internal") {
        return true;
    }
    is_internal_address(address)
}

/// Whether a lowercase pattern admits a lowercase host.
pub fn admits(pattern: &[char], host: &[char]) -> (r: bool)
    ensures
        r == pattern_admits(pattern@, host@),
{
    let marker = chars_of("*.");
    proof {
        reveal_strlit("*.");
    }
    if has_prefix(pattern, marker.as_slice()) {
        assert(pattern@.len() >= 2);
        let dotted = vstd::slice::slice_subrange(pattern, 1, pattern.len());
        let bare = vstd::slice::slice_subrange(pattern, 2, pattern.len());
        has_suffix(host, dotted) || same_chars(host, bare)
    } else {
        same_chars(pattern, host)
    }
}

impl Permissions {
    /// The patterns of the allow-list, as texts.
    pub open spec fn patterns(&self) -> Seq<Seq<char>> {
        Seq::new(self.allowed_http_hosts@.len(), |i: int| self.allowed_http_hosts@[i]@)
    }

    /// No pattern occurs twice in the allow-list.
    pub open spec fn wf(&self) -> bool {
        self.patterns().no_duplicates()
    }

    /// The permission set grants nothing.
    pub open spec fn grants_nothing(&self) -> bool {
        &&& self.allowed_http_hosts@.len() == 0
        &&& !self.http_enabled
        &&& self.max_http_requests == 0
        &&& !self.logging_enabled
    }

    /// Whether some pattern of the allow-list admits the lowercase host.
    pub open spec fn some_pattern_admits(&self, host: Seq<char>) -> bool {
        exists|i: int|
            0 <= i < self.patterns().len() && pattern_admits(
                lowercase(#[trigger] self.patterns()[i]),
                host,
            )
    }

    /// Whether outbound HTTP to a URL with this host is allowed: HTTP must
    /// be enabled; then the pattern `*` allows everything; otherwise the URL
    /// must have a host whose lowercase text some pattern admits.
    pub open spec fn allows(&self, host: Option<(Seq<char>, HostAddress)>) -> bool {
        self.http_enabled && (self.patterns().contains("*"@) || (host matches Some((text, _))
            && self.some_pattern_admits(lowercase(text))))
    }

    /// A permission set that grants nothing.
    pub fn none() -> (p: Self)
        ensures
            p.grants_nothing(),
            p.wf(),
    {
        Permissions {
            allowed_http_hosts: Vec::new(),
            http_enabled: false,
            max_http_requests: 0,
            logging_enabled: false,
        }
    }

    /// A permission set that grants everything: every host, 100 requests
    /// and logging.
    pub fn all() -> (p: Self)
        ensures
            p.patterns() == seq!["*"@],
            p.http_enabled,
            p.max_http_requests == 100,
            p.logging_enabled,
            p.wf(),
    {
        let mut hosts: Vec<String> = Vec::new();
        hosts.push(String::from_str("*"));
        let p = Permissions {
            allowed_http_hosts: hosts,
            http_enabled: true,
            max_http_requests: 100,
            logging_enabled: true,
        };
        assert(p.patterns() =~= seq!["*"@]);
        p
    }

    /// A builder that starts from a permission set that grants nothing.
    pub fn builder() -> (b: PermissionsBuilder)
        ensures
            b.permissions().grants_nothing(),
            b.permissions().wf(),
    {
        PermissionsBuilder { inner: Permissions::none() }
    }

    /// Whether the allow-list holds exactly this pattern.
    pub fn has_pattern(&self, pattern: &str) -> (r: bool)
        ensures
            r == self.patterns().contains(pattern@),
    {
        let mut i: usize = 0;
        while i < self.allowed_http_hosts.len()
            invariant
                i <= self.allowed_http_hosts@.len(),
                forall|j: int| 0 <= j < i ==> self.patterns()[j] != pattern@,
            decreases self.allowed_http_hosts@.len() - i,
        {
            if same_text(self.allowed_http_hosts[i].as_str(), pattern) {
                assert(self.patterns()[i as int] == pattern@);
                return true;
            }
            i += 1;
        }
        false
    }

    /// Whether a pattern admits a lowercase host. The pattern is compared
    /// in lowercase.
    pub fn matches_pattern(pattern: &str, host: &str) -> (r: bool)
        ensures
            r == pattern_admits(lowercase(pattern@), host@),
            is_plain_lowercase(pattern@) ==> r == pattern_admits(pattern@, host@),
    {
        let lowered = to_lowercase(pattern);
        let p = chars_of(lowered.as_str());
        let h = chars_of(host);
        admits(p.as_slice(), h.as_slice())
    }

    /// Whether outbound HTTP to a URL with this host is allowed.
    pub fn allows_host(&self, host: Option<&UrlHost>) -> (r: bool)
        ensures
            r == self.allows(
                match host {
                    Some(h) => Some((h.text@, h.address)),
                    None => None,
                },
            ),
    {
        if !self.http_enabled {
            return false;
        }
        if self.has_pattern("*") {
            return true;
        }
        let lowered = match host {
            Some(h) => to_lowercase(h.text.as_str()),
            None => {
                return false;
            },
        };
        let mut i: usize = 0;
        while i < self.allowed_http_hosts.len()
            invariant
                i <= self.allowed_http_hosts@.len(),
                self.http_enabled,
                !self.patterns().contains("*"@),
                host matches Some(h) && lowered@ == lowercase(h.text@),
                forall|j: int|
                    0 <= j < i ==> !pattern_admits(
                        lowercase(#[trigger] self.patterns()[j]),
                        lowered@,
                    ),
            decreases self.allowed_http_hosts@.len() - i,
        {
            if Self::matches_pattern(self.allowed_http_hosts[i].as_str(), lowered.as_str()) {
                assert(self.patterns()[i as int] == self.allowed_http_hosts@[i as int]@);
                assert(pattern_admits(lowercase(self.patterns()[i as int]), lowered@));
                assert(self.some_pattern_admits(lowered@));
                return true;
            }
            i += 1;
        }
        false
    }

    /// Whether outbound HTTP to the URL is allowed by the allow-list.
    pub fn is_http_allowed(&self, url: &str) -> (r: bool)
        ensures
            r == self.allows(url_host(url@)),
    {
        if !self.http_enabled {
            return false;
        }
        let host = parse_host(url);
        self.allows_host(host.as_ref())
    }

    /// Whether a parsed host is private or internal.
    pub fn is_private(host: &UrlHost) -> (r: bool)
        ensures
            r == host_is_private(lowercase(host.text@), host.address),
            is_plain_lowercase(host.text@) ==> r == host_is_private(host.text@, host.address),
    {
        let lowered = to_lowercase(host.text.as_str());
        is_private_host(lowered.as_str(), host.address)
    }

    /// Whether the URL points at a private or internal address. A text that
    /// is no URL, or a URL without a host, does not.
    pub fn is_private_address(url: &str) -> (r: bool)
        ensures
            r == url_is_private(url_host(url@)),
    {
        match parse_host(url) {
            Some(host) => Self::is_private(&host),
            None => false,
        }
    }
}

impl Default for Permissions {
    fn default() -> (p: Self)
        ensures
            p.grants_nothing(),
            p.wf(),
    {
        Permissions::none()
    }
}

impl PermissionsBuilder {
    /// The permission set built so far.
    pub closed spec fn permissions(&self) -> Permissions {
        self.inner
    }

    /// Enables outbound HTTP and replaces the allow-list by these patterns,
    /// each kept once.
    #[must_use]
    pub fn allow_http_hosts(self, hosts: &[&str]) -> (b: Self)
        ensures
            b.permissions().http_enabled,
            b.permissions().wf(),
            forall|p: Seq<char>|
                b.permissions().patterns().contains(p) <==> exists|i: int|
                    0 <= i < hosts@.len() && #[trigger] hosts@[i]@ == p,
            b.permissions().max_http_requests == self.permissions().max_http_requests,
            b.permissions().logging_enabled == self.permissions().logging_enabled,
    {
        let mut inner = self.inner;
        inner.http_enabled = true;
        inner.allowed_http_hosts = Vec::new();
        let mut i: usize = 0;
        while i < hosts.len()
            invariant
                i <= hosts@.len(),
                inner.wf(),
                inner.http_enabled,
                inner.max_http_requests == self.inner.max_http_requests,
                inner.logging_enabled == self.inner.logging_enabled,
                forall|p: Seq<char>|
                    inner.patterns().contains(p) <==> exists|j: int|
                        0 <= j < i && #[trigger] hosts@[j]@ == p,
            decreases hosts@.len() - i,
        {
            let ghost before = inner.patterns();
            if !inner.has_pattern(hosts[i]) {
                inner.allowed_http_hosts.push(String::from_str(hosts[i]));
                assert(inner.patterns() =~= before.push(hosts@[i as int]@));
                assert forall|p: Seq<char>|
                    inner.patterns().contains(p) <==> exists|j: int|
                        0 <= j < i + 1 && #[trigger] hosts@[j]@ == p by {
                    if inner.patterns().contains(p) {
                        let k = choose|k: int| 0 <= k < inner.patterns().len() && inner.patterns()[k] == p;
                        if k < before.len() {
                            assert(before.contains(p));
                        } else {
                            assert(hosts@[i as int]@ == p);
                        }
                    }
                    if exists|j: int| 0 <= j < i + 1 && #[trigger] hosts@[j]@ == p {
                        let j = choose|j: int| 0 <= j < i + 1 && #[trigger] hosts@[j]@ == p;
                        if j < i {
                            assert(before.contains(p));
                            let k = choose|k: int| 0 <= k < before.len() && before[k] == p;
                            assert(inner.patterns()[k] == p);
                        } else {
                            assert(inner.patterns()[before.len() as int] == p);
                        }
                    }
                }
            } else {
                assert forall|p: Seq<char>|
                    inner.patterns().contains(p) <==> exists|j: int|
                        0 <= j < i + 1 && #[trigger] hosts@[j]@ == p by {
                    if exists|j: int| 0 <= j < i + 1 && #[trigger] hosts@[j]@ == p {
                        let j = choose|j: int| 0 <= j < i + 1 && #[trigger] hosts@[j]@ == p;
                        if j == i {
                            assert(inner.patterns().contains(p));
                        }
                    }
                }
            }
            i += 1;
        }
        PermissionsBuilder { inner }
    }

    /// Sets the number of outbound requests that one execution may make.
    #[must_use]
    pub fn max_http_requests(self, max: u32) -> (b: Self)
        ensures
            b.permissions() == (Permissions { max_http_requests: max, ..self.permissions() }),
    {
        let mut inner = self.inner;
        inner.max_http_requests = max;
        PermissionsBuilder { inner }
    }

    /// Grants guest logging.
    #[must_use]
    pub fn enable_logging(self) -> (b: Self)
        ensures
            b.permissions() == (Permissions { logging_enabled: true, ..self.permissions() }),
    {
        let mut inner = self.inner;
        inner.logging_enabled = true;
        PermissionsBuilder { inner }
    }

    /// The permission set that was built.
    #[must_use]
    pub fn build(self) -> (p: Permissions)
        ensures
            p == self.permissions(),
    {
        self.inner
    }
}

impl Default for PermissionsBuilder {
    fn default() -> (b: Self)
        ensures
            b.permissions().grants_nothing(),
            b.permissions().wf(),
    {
        Permissions::builder()
    }
}

} // verus!
