//! Network configuration: addresses, domain patterns, filtering policies, user-space NAT
//! and cluster settings.
use vstd::prelude::*;
use crate::text::{chars_of, find_char, sub_chars, first_index_of, lemma_first_index_of, is_digit, digits_value, string_of, owned, ends_with_chars, str_eq};
use crate::config::{to_lowercase, lowercase};
use vstd::string::StringSliceAdditionalSpecFns;

verus! {

/// An IPv4 address, by its four octets.
#[derive(Clone, Copy, Debug, PartialEq, Eq, Hash, Structural)]
pub struct Ipv4Addr(pub u8, pub u8, pub u8, pub u8);

impl Ipv4Addr {
    pub fn new(a: u8, b: u8, c: u8, d: u8) -> (r: Ipv4Addr)
        ensures
            r == Ipv4Addr(a, b, c, d),
    {
        Ipv4Addr(a, b, c, d)
    }

    /// The four octets, most significant first.
    pub fn octets(&self) -> (r: [u8; 4])
        ensures
            r@ == seq![self.0, self.1, self.2, self.3],
    {
        [self.0, self.1, self.2, self.3]
    }
}

/// Whether `p` is an octet the way `Ipv4Addr::from_str` reads one: one to three decimal
/// digits, no leading zero unless the octet is `0`, and a value of at most 255.
pub open spec fn octet_ok(p: Seq<char>) -> bool {
    &&& 1 <= p.len() <= 3
    &&& forall|i: int| 0 <= i < p.len() ==> is_digit(#[trigger] p[i])
    &&& p.len() > 1 ==> p[0] != '0'
    &&& digits_value(p) <= 255
}

/// The text after the first occurrence of `c` in `s` (all of `s` when there is none).
pub open spec fn after_first(s: Seq<char>, c: char) -> Seq<char> {
    match first_index_of(s, c) {
        Some(i) => s.subrange(i + 1, s.len() as int),
        None => s,
    }
}

/// The text before the first occurrence of `c` in `s` (all of `s` when there is none).
pub open spec fn before_first(s: Seq<char>, c: char) -> Seq<char> {
    match first_index_of(s, c) {
        Some(i) => s.subrange(0, i),
        None => s,
    }
}

/// The address a dotted quad denotes: four octets separated by exactly three dots.
pub open spec fn parse_ipv4_spec(s: Seq<char>) -> Option<Ipv4Addr> {
    let r1 = after_first(s, '.');
    let r2 = after_first(r1, '.');
    let a = before_first(s, '.');
    let b = before_first(r1, '.');
    let c = before_first(r2, '.');
    let d = after_first(r2, '.');
    if first_index_of(s, '.') is Some && first_index_of(r1, '.') is Some && first_index_of(r2, '.') is Some
        && octet_ok(a) && octet_ok(b) && octet_ok(c) && octet_ok(d) {
        Some(Ipv4Addr(digits_value(a) as u8, digits_value(b) as u8, digits_value(c) as u8, digits_value(d) as u8))
    } else {
        None
    }
}

/// Reads one octet.
fn parse_octet(p: &[char]) -> (r: Option<u8>)
    ensures
        match r {
            Some(v) => octet_ok(p@) && v == digits_value(p@),
            None => !octet_ok(p@),
        },
{
    let n = p.len();
    if n < 1 || n > 3 {
        return None;
    }
    if n > 1 && p[0] == '0' {
        return None;
    }
    let mut acc: u32 = 0;
    let mut i: usize = 0;
    while i < n
        invariant
            1 <= n <= 3,
            n == p@.len(),
            i <= n,
            forall|j: int| 0 <= j < i ==> is_digit(#[trigger] p@[j]),
            acc == digits_value(p@.subrange(0, i as int)),
            acc < 1000,
            i == 0 ==> acc == 0,
            i == 1 ==> acc < 10,
            i == 2 ==> acc < 100,
        decreases n - i,
    {
        let c = p[i];
        if !('0' <= c && c <= '9') {
            assert(!is_digit(p@[i as int]));
            return None;
        }
        proof {
            let t = p@.subrange(0, i + 1);
            assert(t.drop_last() =~= p@.subrange(0, i as int));
        }
        acc = acc * 10 + (c as u32 - '0' as u32);
        i = i + 1;
    }
    assert(p@.subrange(0, n as int) =~= p@);
    if acc > 255 {
        return None;
    }
    Some(acc as u8)
}

/// Parses a dotted-quad address the way `Ipv4Addr::from_str` does.
pub fn parse_ipv4(s: &str) -> (r: Option<Ipv4Addr>)
    ensures
        r == parse_ipv4_spec(s@),
{
    let cs = chars_of(s);
    let n = cs.len();
    let i = match find_char(cs.as_slice(), '.') {
        Some(i) => i,
        None => return None,
    };
    proof { lemma_first_index_of(s@, '.'); }
    let a = sub_chars(cs.as_slice(), 0, i);
    let r1 = sub_chars(cs.as_slice(), i + 1, n);
    let j = match find_char(r1.as_slice(), '.') {
        Some(j) => j,
        None => return None,
    };
    proof { lemma_first_index_of(r1@, '.'); }
    let b = sub_chars(r1.as_slice(), 0, j);
    let r2 = sub_chars(r1.as_slice(), j + 1, r1.len());
    let k = match find_char(r2.as_slice(), '.') {
        Some(k) => k,
        None => return None,
    };
    proof { lemma_first_index_of(r2@, '.'); }
    let c = sub_chars(r2.as_slice(), 0, k);
    let d = sub_chars(r2.as_slice(), k + 1, r2.len());
    let oa = parse_octet(a.as_slice());
    let ob = parse_octet(b.as_slice());
    let oc = parse_octet(c.as_slice());
    let od = parse_octet(d.as_slice());
    match (oa, ob, oc, od) {
        (Some(x), Some(y), Some(z), Some(w)) => Some(Ipv4Addr(x, y, z, w)),
        _ => None,
    }
}

/// A pattern for domain names in network policies.
#[derive(Debug, Clone, PartialEq)]
pub enum DomainPattern {
    /// Exact match: "api.anthropic.com".
    Exact(String),
    /// Wildcard match: "*.github.com" matches "api.github.com" but not "github.com" itself.
    Wildcard(String),
}

/// A domain pattern as plain values.
pub enum PatternView {
    Exact(Seq<char>),
    Wildcard(Seq<char>),
}

impl View for DomainPattern {
    type V = PatternView;

    open spec fn view(&self) -> PatternView {
        match self {
            DomainPattern::Exact(s) => PatternView::Exact(s@),
            DomainPattern::Wildcard(s) => PatternView::Wildcard(s@),
        }
    }
}

/// The pattern that the text `p` denotes: a wildcard for the lower-cased text after a
/// leading `*.`, otherwise an exact match of the lower-cased text.
pub open spec fn parse_pattern(p: Seq<char>) -> PatternView {
    if p.len() >= 2 && p[0] == '*' && p[1] == '.' {
        PatternView::Wildcard(lowercase(p.subrange(2, p.len() as int)))
    } else {
        PatternView::Exact(lowercase(p))
    }
}

/// Longest domain name DNS allows, in bytes.
pub const MAX_DOMAIN_LEN: usize = 253;

/// Whether `p` matches the domain whose lower-cased form is `lower`: an exact pattern must
/// equal it; a wildcard with a non-empty suffix must end in `.suffix`.
pub open spec fn pattern_matches_lower(p: PatternView, lower: Seq<char>) -> bool {
    match p {
        PatternView::Exact(s) => lower == s,
        PatternView::Wildcard(s) => {
            let dotted = seq!['.'] + s;
            s.len() > 0 && dotted.len() <= lower.len() && lower.subrange(lower.len() - dotted.len(), lower.len() as int) == dotted
        },
    }
}

/// Whether `p` matches the domain `d` (with `byte_len` bytes in UTF-8): the domain must be
/// non-empty and within DNS's length limit, and is compared in lower case.
pub open spec fn pattern_matches(p: PatternView, d: Seq<char>, byte_len: nat) -> bool {
    &&& d.len() > 0
    &&& byte_len <= MAX_DOMAIN_LEN
    &&& pattern_matches_lower(p, lowercase(d))
}

impl DomainPattern {
    /// Parses a pattern; text starting with `*.` is a wildcard.
    pub fn parse(pattern: &str) -> (r: DomainPattern)
        ensures
            r@ == parse_pattern(pattern@),
    {
        let cs = chars_of(pattern);
        if cs.len() >= 2 && cs[0] == '*' && cs[1] == '.' {
            let rest = sub_chars(cs.as_slice(), 2, cs.len());
            let suffix = string_of(rest.as_slice());
            DomainPattern::Wildcard(to_lowercase(suffix.as_str()))
        } else {
            DomainPattern::Exact(to_lowercase(pattern))
        }
    }

    /// Whether `domain` matches this pattern.
    pub fn matches(&self, domain: &str) -> (r: bool)
        ensures
            r == pattern_matches(self@, domain@, domain.len() as nat),
    {
        if domain.is_empty() || domain.len() > MAX_DOMAIN_LEN {
            return false;
        }
        let lower = to_lowercase(domain);
        match self {
            DomainPattern::Exact(p) => str_eq(lower.as_str(), p.as_str()),
            DomainPattern::Wildcard(suffix) => {
                let sc = chars_of(suffix.as_str());
                if sc.len() == 0 {
                    return false;
                }
                let mut dotted: Vec<char> = Vec::new();
                dotted.push('.');
                let mut i: usize = 0;
                while i < sc.len()
                    invariant
                        i <= sc@.len(),
                        dotted@ == seq!['.'] + sc@.subrange(0, i as int),
                    decreases sc@.len() - i,
                {
                    dotted.push(sc[i]);
                    i = i + 1;
                    assert(dotted@ =~= seq!['.'] + sc@.subrange(0, i as int));
                }
                assert(sc@.subrange(0, i as int) =~= sc@);
                let lc = chars_of(lower.as_str());
                ends_with_chars(lc.as_slice(), dotted.as_slice())
            },
        }
    }
}

/// A wildcard pattern never matches its bare suffix: "*.github.com" needs a subdomain.
pub proof fn law_wildcard_needs_subdomain(suffix: Seq<char>, d: Seq<char>, byte_len: nat)
    requires
        lowercase(d) == suffix,
    ensures
        !pattern_matches(PatternView::Wildcard(suffix), d, byte_len),
{
}

/// A wildcard with an empty suffix matches nothing.
pub proof fn law_empty_wildcard_matches_nothing(d: Seq<char>, byte_len: nat)
    ensures
        !pattern_matches(PatternView::Wildcard(Seq::empty()), d, byte_len),
{
}

/// A domain matched by a wildcard ends in a dot followed by the suffix, so it is strictly
/// longer than the suffix.
pub proof fn law_wildcard_match_is_subdomain(suffix: Seq<char>, d: Seq<char>, byte_len: nat)
    requires
        pattern_matches(PatternView::Wildcard(suffix), d, byte_len),
    ensures
        lowercase(d).len() > suffix.len(),
        lowercase(d)[lowercase(d).len() - suffix.len() - 1] == '.',
{
    let lower = lowercase(d);
    let dotted = seq!['.'] + suffix;
    assert(lower.subrange(lower.len() - dotted.len(), lower.len() as int)[0] == dotted[0]);
}

/// No domain that is empty or longer than DNS allows matches any pattern.
pub proof fn law_out_of_range_domains_never_match(p: PatternView, d: Seq<char>, byte_len: nat)
    requires
        d.len() == 0 || byte_len > MAX_DOMAIN_LEN,
    ensures
        !pattern_matches(p, d, byte_len),
{
}


/// The text a pattern is written as: the exact name, or `*.` and the suffix.
pub open spec fn pattern_text(p: PatternView) -> Seq<char> {
    match p {
        PatternView::Exact(s) => s,
        PatternView::Wildcard(s) => "*."@ + s,
    }
}

impl DomainPattern {
    /// The text this pattern is written as (what configuration files hold).
    pub fn to_text(&self) -> (r: String)
        ensures
            r@ == pattern_text(self@),
    {
        match self {
            DomainPattern::Exact(s) => owned(s.as_str()),
            DomainPattern::Wildcard(s) => crate::text::concat2("*.", s.as_str()),
        }
    }
}

/// Writing a pattern as text and parsing the text gives the pattern back, when its name is
/// already in lower case (as every parsed pattern's is) and an exact name does not itself
/// start with `*.`.
pub proof fn law_pattern_text_roundtrip(p: PatternView)
    requires
        match p {
            PatternView::Exact(s) => lowercase(s) == s && !(s.len() >= 2 && s[0] == '*' && s[1] == '.'),
            PatternView::Wildcard(s) => lowercase(s) == s,
        },
    ensures
        parse_pattern(pattern_text(p)) == p,
{
    reveal_strlit("*.");
    match p {
        PatternView::Exact(s) => {},
        PatternView::Wildcard(s) => {
            let t = "*."@ + s;
            assert(t.subrange(2, t.len() as int) =~= s);
        },
    }
}

/// Network protocol for port forwarding.
#[derive(Clone, Copy, Debug, PartialEq, Eq, Structural)]
pub enum Protocol {
    Tcp,
    Udp,
}

/// Port forwarding rule: host port to guest port.
#[derive(Clone, Copy, Debug, PartialEq, Eq, Structural)]
pub struct PortForward {
    pub protocol: Protocol,
    pub host_port: u16,
    pub guest_port: u16,
}

/// Action to take when a policy rule matches.
#[derive(Clone, Copy, Debug, PartialEq, Eq, Structural)]
pub enum PolicyAction {
    /// Allow the traffic.
    Allow,
    /// Block the traffic.
    Deny,
    /// Allow but log the traffic.
    Log,
}

/// Criteria for matching network traffic.
#[derive(Debug, PartialEq)]
pub enum RuleMatcher {
    /// Match any traffic.
    Any,
    /// Match traffic to a specific IP address.
    Ip(Ipv4Addr),
    /// Match traffic to an IP range (CIDR notation).
    IpRange { network: Ipv4Addr, prefix: u8 },
    /// Match traffic to a specific port.
    Port(u16),
    /// Match traffic to a port range (inclusive).
    PortRange { start: u16, end: u16 },
    /// Match traffic by protocol.
    Protocol(Protocol),
    /// Match traffic to a domain.
    Domain(DomainPattern),
    /// All matchers must match.
    All(Vec<RuleMatcher>),
}

/// A single policy rule.
#[derive(Debug, PartialEq)]
pub struct PolicyRule {
    pub action: PolicyAction,
    pub matcher: RuleMatcher,
}

/// Network filtering policy: rules evaluated in order (first match wins), and an action
/// for traffic no rule matches.
#[derive(Debug, PartialEq)]
pub struct NetworkPolicy {
    pub default_action: PolicyAction,
    pub rules: Vec<PolicyRule>,
}

impl Default for NetworkPolicy {
    fn default() -> (r: NetworkPolicy)
        ensures
            r.default_action == PolicyAction::Allow,
            r.rules@.len() == 0,
    {
        NetworkPolicy { default_action: PolicyAction::Allow, rules: Vec::new() }
    }
}

/// Whether `m` is the matcher "port 53 over UDP".
pub open spec fn is_dns_matcher(m: RuleMatcher) -> bool {
    match m {
        RuleMatcher::All(v) => v@ == seq![RuleMatcher::Port(53), RuleMatcher::Protocol(Protocol::Udp)],
        _ => false,
    }
}

/// Whether `m` matches domains by the pattern that the text `p` denotes.
pub open spec fn is_domain_matcher(m: RuleMatcher, p: Seq<char>) -> bool {
    match m {
        RuleMatcher::Domain(d) => d@ == parse_pattern(p),
        _ => false,
    }
}

impl NetworkPolicy {
    /// A policy that allows all traffic.
    pub fn allow_all() -> (r: NetworkPolicy)
        ensures
            r.default_action == PolicyAction::Allow,
            r.rules@.len() == 0,
    {
        NetworkPolicy::default()
    }

    /// A policy that denies all traffic.
    pub fn deny_all() -> (r: NetworkPolicy)
        ensures
            r.default_action == PolicyAction::Deny,
            r.rules@.len() == 0,
    {
        NetworkPolicy { default_action: PolicyAction::Deny, rules: Vec::new() }
    }

    /// Adds a rule at the end.
    pub fn rule(self, action: PolicyAction, matcher: RuleMatcher) -> (r: NetworkPolicy)
        ensures
            r.default_action == self.default_action,
            r.rules@ == self.rules@.push(PolicyRule { action, matcher }),
    {
        let mut p = self;
        p.rules.push(PolicyRule { action, matcher });
        p
    }

    /// Adds a rule allowing traffic to `ip`.
    pub fn allow_ip(self, ip: Ipv4Addr) -> (r: NetworkPolicy)
        ensures
            r.default_action == self.default_action,
            r.rules@ == self.rules@.push(PolicyRule { action: PolicyAction::Allow, matcher: RuleMatcher::Ip(ip) }),
    {
        self.rule(PolicyAction::Allow, RuleMatcher::Ip(ip))
    }

    /// Adds a rule allowing traffic to `port`.
    pub fn allow_port(self, port: u16) -> (r: NetworkPolicy)
        ensures
            r.default_action == self.default_action,
            r.rules@ == self.rules@.push(PolicyRule { action: PolicyAction::Allow, matcher: RuleMatcher::Port(port) }),
    {
        self.rule(PolicyAction::Allow, RuleMatcher::Port(port))
    }

    /// Adds a rule denying traffic to `ip`.
    pub fn deny_ip(self, ip: Ipv4Addr) -> (r: NetworkPolicy)
        ensures
            r.default_action == self.default_action,
            r.rules@ == self.rules@.push(PolicyRule { action: PolicyAction::Deny, matcher: RuleMatcher::Ip(ip) }),
    {
        self.rule(PolicyAction::Deny, RuleMatcher::Ip(ip))
    }

    /// Adds a rule denying traffic to `port`.
    pub fn deny_port(self, port: u16) -> (r: NetworkPolicy)
        ensures
            r.default_action == self.default_action,
            r.rules@ == self.rules@.push(PolicyRule { action: PolicyAction::Deny, matcher: RuleMatcher::Port(port) }),
    {
        self.rule(PolicyAction::Deny, RuleMatcher::Port(port))
    }

    /// Adds a rule allowing HTTPS (port 443).
    pub fn allow_https(self) -> (r: NetworkPolicy)
        ensures
            r.default_action == self.default_action,
            r.rules@ == self.rules@.push(PolicyRule { action: PolicyAction::Allow, matcher: RuleMatcher::Port(443) }),
    {
        self.rule(PolicyAction::Allow, RuleMatcher::Port(443))
    }

    /// Adds a rule allowing DNS (port 53 over UDP).
    pub fn allow_dns(self) -> (r: NetworkPolicy)
        ensures
            r.default_action == self.default_action,
            r.rules@.len() == self.rules@.len() + 1,
            r.rules@.subrange(0, self.rules@.len() as int) == self.rules@,
            r.rules@.last().action == PolicyAction::Allow,
            is_dns_matcher(r.rules@.last().matcher),
    {
        let mut parts: Vec<RuleMatcher> = Vec::new();
        parts.push(RuleMatcher::Port(53));
        parts.push(RuleMatcher::Protocol(Protocol::Udp));
        assert(parts@ =~= seq![RuleMatcher::Port(53), RuleMatcher::Protocol(Protocol::Udp)]);
        let ghost old_rules = self.rules@;
        let r = self.rule(PolicyAction::Allow, RuleMatcher::All(parts));
        assert(r.rules@.subrange(0, old_rules.len() as int) =~= old_rules);
        r
    }

    /// Adds a rule allowing traffic to domains matching `pattern`.
    pub fn allow_domain(self, pattern: &str) -> (r: NetworkPolicy)
        ensures
            r.default_action == self.default_action,
            r.rules@.len() == self.rules@.len() + 1,
            r.rules@.subrange(0, self.rules@.len() as int) == self.rules@,
            r.rules@.last().action == PolicyAction::Allow,
            is_domain_matcher(r.rules@.last().matcher, pattern@),
    {
        let ghost old_rules = self.rules@;
        let r = self.rule(PolicyAction::Allow, RuleMatcher::Domain(DomainPattern::parse(pattern)));
        assert(r.rules@.subrange(0, old_rules.len() as int) =~= old_rules);
        r
    }

    /// Adds a rule denying traffic to domains matching `pattern`.
    pub fn deny_domain(self, pattern: &str) -> (r: NetworkPolicy)
        ensures
            r.default_action == self.default_action,
            r.rules@.len() == self.rules@.len() + 1,
            r.rules@.subrange(0, self.rules@.len() as int) == self.rules@,
            r.rules@.last().action == PolicyAction::Deny,
            is_domain_matcher(r.rules@.last().matcher, pattern@),
    {
        let ghost old_rules = self.rules@;
        let r = self.rule(PolicyAction::Deny, RuleMatcher::Domain(DomainPattern::parse(pattern)));
        assert(r.rules@.subrange(0, old_rules.len() as int) =~= old_rules);
        r
    }

    /// Adds a rule logging traffic to domains matching `pattern` (evaluation goes on).
    pub fn log_domain(self, pattern: &str) -> (r: NetworkPolicy)
        ensures
            r.default_action == self.default_action,
            r.rules@.len() == self.rules@.len() + 1,
            r.rules@.subrange(0, self.rules@.len() as int) == self.rules@,
            r.rules@.last().action == PolicyAction::Log,
            is_domain_matcher(r.rules@.last().matcher, pattern@),
    {
        let ghost old_rules = self.rules@;
        let r = self.rule(PolicyAction::Log, RuleMatcher::Domain(DomainPattern::parse(pattern)));
        assert(r.rules@.subrange(0, old_rules.len() as int) =~= old_rules);
        r
    }
}


/// The base address of a subnet written `a.b.c.d/prefix`, if the part before the first `/`
/// is an address.
pub open spec fn subnet_base(s: Seq<char>) -> Option<Ipv4Addr> {
    match first_index_of(s, '/') {
        Some(i) => parse_ipv4_spec(s.subrange(0, i)),
        None => None,
    }
}

/// Reads the base address of a subnet.
pub fn parse_subnet_base(subnet: &str) -> (r: Option<Ipv4Addr>)
    ensures
        r == subnet_base(subnet@),
{
    let cs = chars_of(subnet);
    match find_char(cs.as_slice(), '/') {
        Some(i) => {
            proof { lemma_first_index_of(cs@, '/'); }
            let base = sub_chars(cs.as_slice(), 0, i);
            let base_str = string_of(base.as_slice());
            parse_ipv4(base_str.as_str())
        },
        None => None,
    }
}

/// Configuration of a VM port joining a network cluster.
#[derive(Debug, Clone, PartialEq)]
pub struct ClusterPortConfig {
    /// Name of the cluster to join.
    pub cluster_name: String,
    /// Static address, if any (otherwise assigned by DHCP).
    pub static_ip: Option<Ipv4Addr>,
}

impl ClusterPortConfig {
    /// Sets a static address.
    pub fn with_ip(self, ip: Ipv4Addr) -> (r: ClusterPortConfig)
        ensures
            r.cluster_name@ == self.cluster_name@,
            r.static_ip == Some(ip),
    {
        let mut c = self;
        c.static_ip = Some(ip);
        c
    }

    /// The network mode joining this cluster.
    pub fn build(self) -> (r: NetworkMode)
        ensures
            r == NetworkMode::Cluster(self),
    {
        NetworkMode::Cluster(self)
    }
}

/// Configuration for user-space NAT networking.
#[derive(Debug, PartialEq)]
pub struct UserNatConfig {
    /// Subnet for the guest network, e.g. "10.0.2.0/24".
    pub subnet: String,
    /// Gateway address within the subnet.
    pub gateway: Ipv4Addr,
    /// First address handed out by DHCP.
    pub dhcp_start: Ipv4Addr,
    /// Last address handed out by DHCP.
    pub dhcp_end: Ipv4Addr,
    /// Port forwarding rules (host to guest).
    pub port_forwards: Vec<PortForward>,
    /// Filtering policy.
    pub policy: Option<NetworkPolicy>,
}

impl Default for UserNatConfig {
    /// 10.0.2.0/24 with the gateway at .2 and DHCP from .15 to .254.
    fn default() -> (r: UserNatConfig)
        ensures
            r.subnet@ == "10.0.2.0/24"@,
            r.gateway == Ipv4Addr(10, 0, 2, 2),
            r.dhcp_start == Ipv4Addr(10, 0, 2, 15),
            r.dhcp_end == Ipv4Addr(10, 0, 2, 254),
            r.port_forwards@.len() == 0,
            r.policy is None,
    {
        UserNatConfig {
            subnet: owned("10.0.2.0/24"),
            gateway: Ipv4Addr::new(10, 0, 2, 2),
            dhcp_start: Ipv4Addr::new(10, 0, 2, 15),
            dhcp_end: Ipv4Addr::new(10, 0, 2, 254),
            port_forwards: Vec::new(),
            policy: None,
        }
    }
}

/// Network configuration of a VM.
#[derive(Debug, PartialEq)]
pub enum NetworkMode {
    /// No network access.
    Disabled,
    /// Platform-native NAT.
    Nat,
    /// User-space NAT, which supports filtering.
    UserNat(UserNatConfig),
    /// The VM joins a shared virtual switch.
    Cluster(ClusterPortConfig),
}

impl Default for NetworkMode {
    /// Platform-native NAT.
    fn default() -> (r: NetworkMode)
        ensures
            r is Nat,
    {
        NetworkMode::Nat
    }
}

impl NetworkMode {
    /// A builder for user-space NAT with default settings.
    pub fn user_nat() -> (r: UserNatConfigBuilder)
        ensures
            r.config.subnet@ == "10.0.2.0/24"@,
            r.config.gateway == Ipv4Addr(10, 0, 2, 2),
            r.config.dhcp_start == Ipv4Addr(10, 0, 2, 15),
            r.config.dhcp_end == Ipv4Addr(10, 0, 2, 254),
            r.config.port_forwards@.len() == 0,
            r.config.policy is None,
    {
        UserNatConfigBuilder { config: UserNatConfig::default() }
    }

    /// A port configuration joining the cluster `cluster_name`.
    pub fn cluster(cluster_name: &str) -> (r: ClusterPortConfig)
        ensures
            r.cluster_name@ == cluster_name@,
            r.static_ip is None,
    {
        ClusterPortConfig { cluster_name: owned(cluster_name), static_ip: None }
    }
}

impl From<ClusterPortConfig> for NetworkMode {
    fn from(config: ClusterPortConfig) -> (r: NetworkMode) {
        NetworkMode::Cluster(config)
    }
}

impl vstd::std_specs::convert::FromSpecImpl<ClusterPortConfig> for NetworkMode {
    open spec fn obeys_from_spec() -> bool {
        true
    }

    open spec fn from_spec(v: ClusterPortConfig) -> NetworkMode {
        NetworkMode::Cluster(v)
    }
}

/// Builder for a user-space NAT configuration.
#[derive(Debug)]
pub struct UserNatConfigBuilder {
    pub config: UserNatConfig,
}

impl Default for UserNatConfigBuilder {
    fn default() -> (r: UserNatConfigBuilder)
        ensures
            r.config.subnet@ == "10.0.2.0/24"@,
            r.config.gateway == Ipv4Addr(10, 0, 2, 2),
            r.config.dhcp_start == Ipv4Addr(10, 0, 2, 15),
            r.config.dhcp_end == Ipv4Addr(10, 0, 2, 254),
            r.config.port_forwards@.len() == 0,
            r.config.policy is None,
    {
        UserNatConfigBuilder { config: UserNatConfig::default() }
    }
}

impl UserNatConfigBuilder {
    /// Sets the subnet, e.g. "192.168.100.0/24". When its base address reads as an address
    /// `a.b.c.x`, the gateway becomes `a.b.c.2` and DHCP hands out `a.b.c.15` to
    /// `a.b.c.254`; otherwise those stay as they were.
    pub fn subnet(self, subnet: &str) -> (r: UserNatConfigBuilder)
        ensures
            r.config.subnet@ == subnet@,
            r.config.port_forwards@ == self.config.port_forwards@,
            r.config.policy == self.config.policy,
            match subnet_base(subnet@) {
                Some(ip) => r.config.gateway == Ipv4Addr(ip.0, ip.1, ip.2, 2)
                    && r.config.dhcp_start == Ipv4Addr(ip.0, ip.1, ip.2, 15)
                    && r.config.dhcp_end == Ipv4Addr(ip.0, ip.1, ip.2, 254),
                None => r.config.gateway == self.config.gateway
                    && r.config.dhcp_start == self.config.dhcp_start
                    && r.config.dhcp_end == self.config.dhcp_end,
            },
    {
        let mut b = self;
        b.config.subnet = owned(subnet);
        match parse_subnet_base(subnet) {
            Some(ip) => {
                b.config.gateway = Ipv4Addr::new(ip.0, ip.1, ip.2, 2);
                b.config.dhcp_start = Ipv4Addr::new(ip.0, ip.1, ip.2, 15);
                b.config.dhcp_end = Ipv4Addr::new(ip.0, ip.1, ip.2, 254);
            },
            None => {},
        }
        b
    }

    /// Forwards a TCP port from host to guest.
    pub fn forward_tcp(self, host_port: u16, guest_port: u16) -> (r: UserNatConfigBuilder)
        ensures
            r.config.subnet@ == self.config.subnet@,
            r.config.gateway == self.config.gateway,
            r.config.dhcp_start == self.config.dhcp_start,
            r.config.dhcp_end == self.config.dhcp_end,
            r.config.policy == self.config.policy,
            r.config.port_forwards@ == self.config.port_forwards@.push(PortForward { protocol: Protocol::Tcp, host_port, guest_port }),
    {
        let mut b = self;
        b.config.port_forwards.push(PortForward { protocol: Protocol::Tcp, host_port, guest_port });
        b
    }

    /// Forwards a UDP port from host to guest.
    pub fn forward_udp(self, host_port: u16, guest_port: u16) -> (r: UserNatConfigBuilder)
        ensures
            r.config.subnet@ == self.config.subnet@,
            r.config.gateway == self.config.gateway,
            r.config.dhcp_start == self.config.dhcp_start,
            r.config.dhcp_end == self.config.dhcp_end,
            r.config.policy == self.config.policy,
            r.config.port_forwards@ == self.config.port_forwards@.push(PortForward { protocol: Protocol::Udp, host_port, guest_port }),
    {
        let mut b = self;
        b.config.port_forwards.push(PortForward { protocol: Protocol::Udp, host_port, guest_port });
        b
    }

    /// Sets the filtering policy.
    pub fn policy(self, policy: NetworkPolicy) -> (r: UserNatConfigBuilder)
        ensures
            r.config.subnet@ == self.config.subnet@,
            r.config.gateway == self.config.gateway,
            r.config.dhcp_start == self.config.dhcp_start,
            r.config.dhcp_end == self.config.dhcp_end,
            r.config.port_forwards@ == self.config.port_forwards@,
            r.config.policy == Some(policy),
    {
        let mut b = self;
        b.config.policy = Some(policy);
        b
    }

    /// The network mode with this configuration.
    pub fn build(self) -> (r: NetworkMode)
        ensures
            r == NetworkMode::UserNat(self.config),
    {
        NetworkMode::UserNat(self.config)
    }
}

impl From<UserNatConfigBuilder> for NetworkMode {
    fn from(builder: UserNatConfigBuilder) -> (r: NetworkMode) {
        builder.build()
    }
}

impl vstd::std_specs::convert::FromSpecImpl<UserNatConfigBuilder> for NetworkMode {
    open spec fn obeys_from_spec() -> bool {
        true
    }

    open spec fn from_spec(v: UserNatConfigBuilder) -> NetworkMode {
        NetworkMode::UserNat(v.config)
    }
}

/// Configuration of a network cluster (a shared virtual switch).
#[derive(Debug, Clone, PartialEq)]
pub struct NetworkClusterConfig {
    /// Cluster name.
    pub name: String,
    /// Subnet of the cluster, e.g. "10.0.3.0/24".
    pub subnet: String,
    /// Gateway for external access, when NAT is on.
    pub gateway: Option<Ipv4Addr>,
    /// Whether NAT gives external connectivity.
    pub enable_nat: bool,
}

impl Default for NetworkClusterConfig {
    /// "default" on 10.0.3.0/24, gateway 10.0.3.1, NAT on.
    fn default() -> (r: NetworkClusterConfig)
        ensures
            r.name@ == "default"@,
            r.subnet@ == "10.0.3.0/24"@,
            r.gateway == Some(Ipv4Addr(10, 0, 3, 1)),
            r.enable_nat,
    {
        NetworkClusterConfig {
            name: owned("default"),
            subnet: owned("10.0.3.0/24"),
            gateway: Some(Ipv4Addr::new(10, 0, 3, 1)),
            enable_nat: true,
        }
    }
}

/// Builder for a cluster configuration.
#[derive(Debug, Clone)]
pub struct NetworkClusterBuilder {
    pub config: NetworkClusterConfig,
}

impl Default for NetworkClusterBuilder {
    fn default() -> (r: NetworkClusterBuilder)
        ensures
            r.config.name@ == "default"@,
            r.config.subnet@ == "10.0.3.0/24"@,
            r.config.gateway == Some(Ipv4Addr(10, 0, 3, 1)),
            r.config.enable_nat,
    {
        NetworkClusterBuilder { config: NetworkClusterConfig::default() }
    }
}

impl NetworkClusterBuilder {
    /// A builder for the cluster `name`, otherwise with the default settings.
    pub fn new(name: &str) -> (r: NetworkClusterBuilder)
        ensures
            r.config.name@ == name@,
            r.config.subnet@ == "10.0.3.0/24"@,
            r.config.gateway == Some(Ipv4Addr(10, 0, 3, 1)),
            r.config.enable_nat,
    {
        let mut config = NetworkClusterConfig::default();
        config.name = owned(name);
        NetworkClusterBuilder { config }
    }

    /// Sets the subnet; when its base address reads as `a.b.c.x`, the gateway becomes
    /// `a.b.c.1`, otherwise it stays as it was.
    pub fn subnet(self, subnet: &str) -> (r: NetworkClusterBuilder)
        ensures
            r.config.name@ == self.config.name@,
            r.config.subnet@ == subnet@,
            r.config.enable_nat == self.config.enable_nat,
            r.config.gateway == match subnet_base(subnet@) {
                Some(ip) => Some(Ipv4Addr(ip.0, ip.1, ip.2, 1)),
                None => self.config.gateway,
            },
    {
        let mut b = self;
        b.config.subnet = owned(subnet);
        match parse_subnet_base(subnet) {
            Some(ip) => {
                b.config.gateway = Some(Ipv4Addr::new(ip.0, ip.1, ip.2, 1));
            },
            None => {},
        }
        b
    }

    /// Turns NAT off (an isolated cluster), which also removes the gateway.
    pub fn no_nat(self) -> (r: NetworkClusterBuilder)
        ensures
            r.config.name@ == self.config.name@,
            r.config.subnet@ == self.config.subnet@,
            !r.config.enable_nat,
            r.config.gateway is None,
    {
        let mut b = self;
        b.config.enable_nat = false;
        b.config.gateway = None;
        b
    }

    /// The configuration built.
    pub fn build(self) -> (r: NetworkClusterConfig)
        ensures
            r == self.config,
    {
        self.config
    }
}

} // verus!
