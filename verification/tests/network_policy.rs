use cognyx_runtime::network::{NetworkMode, NetworkRule, RuntimeNetworkConfig, VirtualNetworkManager};

fn config(id: &str, mode: NetworkMode) -> RuntimeNetworkConfig {
    RuntimeNetworkConfig {
        runtime_id: id.to_string(),
        mode,
        ip_address: "192.168.122.10".to_string(),
        mac_address: "52:54:00:00:00:01".to_string(),
    }
}

fn rule(id: &str, src: &str, dst: &str, port: Option<u32>, protocol: &str, allow: bool) -> NetworkRule {
    NetworkRule {
        rule_id: id.to_string(),
        source_runtime_id: src.to_string(),
        target_runtime_id: dst.to_string(),
        allowed_port: port,
        protocol: protocol.to_string(),
        allow,
    }
}

#[test]
fn test_network_policy_evaluation() {
    let mut mgr = VirtualNetworkManager::new();
    mgr.register_runtime_network(RuntimeNetworkConfig {
        runtime_id: "rt-a".to_string(),
        mode: NetworkMode::Nat,
        ip_address: "192.168.122.10".to_string(),
        mac_address: "52:54:00:00:00:01".to_string(),
    });
    mgr.register_runtime_network(RuntimeNetworkConfig {
        runtime_id: "rt-b".to_string(),
        mode: NetworkMode::Nat,
        ip_address: "192.168.122.20".to_string(),
        mac_address: "52:54:00:00:00:02".to_string(),
    });
    let (allowed, _) = mgr.can_communicate("rt-a", "rt-b", 8080, "tcp");
    assert!(allowed);
    mgr.add_firewall_rule(NetworkRule {
        rule_id: "deny-rt-a-to-rt-b".to_string(),
        source_runtime_id: "rt-a".to_string(),
        target_runtime_id: "rt-b".to_string(),
        allowed_port: Some(8080),
        protocol: "tcp".to_string(),
        allow: false,
    });
    let (allowed_after, _) = mgr.can_communicate("rt-a", "rt-b", 8080, "tcp");
    assert!(!allowed_after);
}

#[test]
fn isolation_overrides_every_rule() {
    let mut mgr = VirtualNetworkManager::new();
    mgr.register_runtime_network(config("a", NetworkMode::Isolated));
    mgr.register_runtime_network(config("b", NetworkMode::Bridge));
    mgr.add_firewall_rule(rule("allow-all", "*", "*", None, "*", true));
    let (allowed, why) = mgr.can_communicate("a", "b", 22, "tcp");
    assert!(!allowed);
    assert_eq!(why, "One or both runtimes are in ISOLATED network mode.");
}

#[test]
fn first_matching_rule_decides() {
    let mut mgr = VirtualNetworkManager::new();
    mgr.add_firewall_rule(rule("udp-only", "a", "b", None, "udp", false));
    mgr.add_firewall_rule(rule("other-port", "a", "b", Some(443), "*", false));
    mgr.add_firewall_rule(rule("wild", "*", "b", None, "*", true));
    mgr.add_firewall_rule(rule("late-deny", "a", "b", None, "*", false));
    let (allowed, why) = mgr.can_communicate("a", "b", 80, "tcp");
    assert!(allowed);
    assert_eq!(why, "Rule 'wild' applied");
    let (allowed, why) = mgr.can_communicate("a", "b", 80, "udp");
    assert!(!allowed);
    assert_eq!(why, "Rule 'udp-only' applied");
    let (allowed, why) = mgr.can_communicate("c", "d", 80, "tcp");
    assert!(allowed);
    assert_eq!(why, "Default host network policy allowed communication");
}

#[test]
fn re_registering_replaces_the_attachment() {
    let mut mgr = VirtualNetworkManager::new();
    mgr.register_runtime_network(config("a", NetworkMode::Isolated));
    mgr.register_runtime_network(config("b", NetworkMode::Nat));
    assert!(!mgr.can_communicate("a", "b", 1, "tcp").0);
    mgr.register_runtime_network(config("a", NetworkMode::Nat));
    assert!(mgr.can_communicate("a", "b", 1, "tcp").0);
}
