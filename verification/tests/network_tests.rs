use capsa::network::{
    parse_ipv4, DomainPattern, Ipv4Addr, NetworkClusterBuilder, NetworkClusterConfig, NetworkMode,
    NetworkPolicy, PolicyAction, Protocol, RuleMatcher, UserNatConfig,
};

#[test]
fn default_is_nat() {
    assert_eq!(NetworkMode::default(), NetworkMode::Nat);
}

#[test]
fn user_nat_default_config() {
    let config = UserNatConfig::default();
    assert_eq!(config.subnet, "10.0.2.0/24");
    assert_eq!(config.gateway, Ipv4Addr::new(10, 0, 2, 2));
    assert_eq!(config.dhcp_start, Ipv4Addr::new(10, 0, 2, 15));
    assert_eq!(config.dhcp_end, Ipv4Addr::new(10, 0, 2, 254));
}

#[test]
fn user_nat_builder() {
    let mode = NetworkMode::user_nat().subnet("192.168.1.0/24").build();
    match mode {
        NetworkMode::UserNat(config) => {
            assert_eq!(config.subnet, "192.168.1.0/24");
            assert_eq!(config.gateway, Ipv4Addr::new(192, 168, 1, 2));
        }
        _ => panic!("Expected UserNat"),
    }
}

#[test]
fn user_nat_into_network_mode() {
    let mode: NetworkMode = NetworkMode::user_nat().into();
    assert!(matches!(mode, NetworkMode::UserNat(_)));
}

#[test]
fn user_nat_port_forwards() {
    let mode = NetworkMode::user_nat()
        .forward_tcp(8080, 80)
        .forward_udp(5353, 53)
        .build();
    match mode {
        NetworkMode::UserNat(config) => {
            assert_eq!(config.port_forwards.len(), 2);
            assert_eq!(config.port_forwards[0].protocol, Protocol::Tcp);
            assert_eq!(config.port_forwards[0].host_port, 8080);
            assert_eq!(config.port_forwards[0].guest_port, 80);
            assert_eq!(config.port_forwards[1].protocol, Protocol::Udp);
            assert_eq!(config.port_forwards[1].host_port, 5353);
            assert_eq!(config.port_forwards[1].guest_port, 53);
        }
        _ => panic!("Expected UserNat"),
    }
}

#[test]
fn network_policy_builders() {
    let policy = NetworkPolicy::deny_all()
        .allow_port(443)
        .allow_dns()
        .allow_ip(Ipv4Addr::new(8, 8, 8, 8));

    assert_eq!(policy.default_action, PolicyAction::Deny);
    assert_eq!(policy.rules.len(), 3);
    assert_eq!(policy.rules[0].action, PolicyAction::Allow);
    assert!(matches!(policy.rules[0].matcher, RuleMatcher::Port(443)));
}

#[test]
fn user_nat_with_policy() {
    let mode = NetworkMode::user_nat()
        .policy(NetworkPolicy::deny_all().allow_https())
        .build();
    match mode {
        NetworkMode::UserNat(config) => {
            let policy = config.policy.expect("Expected policy");
            assert_eq!(policy.default_action, PolicyAction::Deny);
            assert_eq!(policy.rules.len(), 1);
        }
        _ => panic!("Expected UserNat"),
    }
}

#[test]
fn domain_pattern_parse_exact() {
    let pattern = DomainPattern::parse("api.anthropic.com");
    assert!(matches!(pattern, DomainPattern::Exact(_)));
    if let DomainPattern::Exact(s) = pattern {
        assert_eq!(s, "api.anthropic.com");
    }
}

#[test]
fn domain_pattern_parse_wildcard() {
    let pattern = DomainPattern::parse("*.github.com");
    assert!(matches!(pattern, DomainPattern::Wildcard(_)));
    if let DomainPattern::Wildcard(s) = pattern {
        assert_eq!(s, "github.com");
    }
}

#[test]
fn domain_pattern_parse_lowercases() {
    let exact = DomainPattern::parse("API.Anthropic.COM");
    if let DomainPattern::Exact(s) = exact {
        assert_eq!(s, "api.anthropic.com");
    }

    let wildcard = DomainPattern::parse("*.GITHUB.COM");
    if let DomainPattern::Wildcard(s) = wildcard {
        assert_eq!(s, "github.com");
    }
}

#[test]
fn domain_pattern_exact_match() {
    let pattern = DomainPattern::parse("api.anthropic.com");
    assert!(pattern.matches("api.anthropic.com"));
    assert!(pattern.matches("API.ANTHROPIC.COM"));
    assert!(pattern.matches("Api.Anthropic.Com"));
    assert!(!pattern.matches("other.anthropic.com"));
    assert!(!pattern.matches("evil.com"));
    assert!(!pattern.matches("api.anthropic.com.evil.com"));
}

#[test]
fn domain_pattern_wildcard_match() {
    let pattern = DomainPattern::parse("*.github.com");
    assert!(pattern.matches("api.github.com"));
    assert!(pattern.matches("raw.github.com"));
    assert!(pattern.matches("deep.sub.github.com"));
    assert!(pattern.matches("API.GITHUB.COM"));
    assert!(!pattern.matches("github.com"));
    assert!(!pattern.matches("evil-github.com"));
    assert!(!pattern.matches("notgithub.com"));
}

#[test]
fn network_policy_domain_builders() {
    let policy = NetworkPolicy::deny_all()
        .allow_domain("api.anthropic.com")
        .deny_domain("*.evil.com")
        .log_domain("*.monitor.com");

    assert_eq!(policy.rules.len(), 3);
    assert_eq!(policy.rules[0].action, PolicyAction::Allow);
    assert!(matches!(
        &policy.rules[0].matcher,
        RuleMatcher::Domain(DomainPattern::Exact(s)) if s == "api.anthropic.com"
    ));
    assert_eq!(policy.rules[1].action, PolicyAction::Deny);
    assert!(matches!(
        &policy.rules[1].matcher,
        RuleMatcher::Domain(DomainPattern::Wildcard(s)) if s == "evil.com"
    ));
    assert_eq!(policy.rules[2].action, PolicyAction::Log);
    assert!(matches!(
        &policy.rules[2].matcher,
        RuleMatcher::Domain(DomainPattern::Wildcard(s)) if s == "monitor.com"
    ));
}

#[test]
fn domain_pattern_rejects_empty_domain() {
    let pattern = DomainPattern::parse("example.com");
    assert!(!pattern.matches(""));
}

#[test]
fn domain_pattern_rejects_oversized_domain() {
    let pattern = DomainPattern::parse("example.com");
    let long_domain = "a".repeat(254);
    assert!(!pattern.matches(&long_domain));
}

#[test]
fn domain_pattern_empty_wildcard_suffix_never_matches() {
    let pattern = DomainPattern::Wildcard(String::new());
    assert!(!pattern.matches("anything.com"));
    assert!(!pattern.matches("evil.example.com"));
}

#[test]
fn default_cluster() {
    let config = NetworkClusterConfig::default();
    assert_eq!(config.name, "default");
    assert_eq!(config.subnet, "10.0.3.0/24");
    assert!(config.enable_nat);
}

#[test]
fn cluster_builder() {
    let config = NetworkClusterBuilder::new("test")
        .subnet("192.168.10.0/24")
        .build();
    assert_eq!(config.name, "test");
    assert_eq!(config.subnet, "192.168.10.0/24");
    assert_eq!(config.gateway, Some(Ipv4Addr::new(192, 168, 10, 1)));
}

#[test]
fn isolated_cluster() {
    let config = NetworkClusterBuilder::new("isolated").no_nat().build();
    assert!(!config.enable_nat);
    assert!(config.gateway.is_none());
}

#[test]
fn dotted_quads_parse_as_std_does() {
    assert_eq!(parse_ipv4("192.168.1.0"), Some(Ipv4Addr::new(192, 168, 1, 0)));
    assert_eq!(parse_ipv4("0.0.0.0"), Some(Ipv4Addr::new(0, 0, 0, 0)));
    assert_eq!(parse_ipv4("255.255.255.255"), Some(Ipv4Addr::new(255, 255, 255, 255)));
    assert_eq!(parse_ipv4("256.1.1.1"), None);
    assert_eq!(parse_ipv4("01.1.1.1"), None);
    assert_eq!(parse_ipv4("1.1.1"), None);
    assert_eq!(parse_ipv4("1.1.1.1.1"), None);
    assert_eq!(parse_ipv4("1..1.1"), None);
    assert_eq!(parse_ipv4("a.b.c.d"), None);
    assert_eq!(parse_ipv4(""), None);
    assert_eq!(parse_ipv4("1.2.3.4 "), None);
    assert_eq!(parse_ipv4("+1.2.3.4"), None);
    assert_eq!(parse_ipv4("1.2.3.1000"), None);
    assert_eq!(parse_ipv4("10.0.2.0").map(|a| a.octets()), Some([10, 0, 2, 0]));
}

#[test]
fn subnet_without_address_keeps_gateway() {
    let mode = NetworkMode::user_nat().subnet("not-a-subnet").build();
    match mode {
        NetworkMode::UserNat(config) => {
            assert_eq!(config.subnet, "not-a-subnet");
            assert_eq!(config.gateway, Ipv4Addr::new(10, 0, 2, 2));
            assert_eq!(config.dhcp_end, Ipv4Addr::new(10, 0, 2, 254));
        }
        _ => panic!("Expected UserNat"),
    }
}

#[test]
fn cluster_port_with_static_ip() {
    let mode = NetworkMode::cluster("lab").with_ip(Ipv4Addr::new(10, 0, 3, 9)).build();
    match mode {
        NetworkMode::Cluster(port) => {
            assert_eq!(port.cluster_name, "lab");
            assert_eq!(port.static_ip, Some(Ipv4Addr::new(10, 0, 3, 9)));
        }
        _ => panic!("Expected Cluster"),
    }
}

#[test]
fn pattern_text_roundtrips() {
    let w = DomainPattern::parse("*.GitHub.com");
    assert_eq!(w.to_text(), "*.github.com");
    assert_eq!(DomainPattern::parse(&w.to_text()), w);
    let e = DomainPattern::parse("api.example.com");
    assert_eq!(e.to_text(), "api.example.com");
    assert_eq!(DomainPattern::parse(&e.to_text()), e);
}
