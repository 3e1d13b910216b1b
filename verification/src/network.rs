//! Virtual networks of runtimes and the firewall rules between them.
use vstd::prelude::*;
use crate::assoc::{assoc, keys, lemma_assoc_index, lemma_assoc_push, lemma_assoc_update};
use crate::text::{concat3, owned, str_eq};

verus! {

/// How a runtime is attached to the host network.
#[derive(Clone, Copy, Debug, PartialEq, Eq, Structural)]
pub enum NetworkMode {
    Nat,
    Bridge,
    Isolated,
}

/// A firewall rule between runtimes; `"*"` matches any runtime or protocol.
#[derive(Debug)]
pub struct NetworkRule {
    pub rule_id: String,
    pub source_runtime_id: String,
    pub target_runtime_id: String,
    pub allowed_port: Option<u32>,
    pub protocol: String,
    pub allow: bool,
}

/// A firewall rule as a value.
pub struct RuleView {
    pub rule_id: Seq<char>,
    pub source_runtime_id: Seq<char>,
    pub target_runtime_id: Seq<char>,
    pub allowed_port: Option<u32>,
    pub protocol: Seq<char>,
    pub allow: bool,
}

impl View for NetworkRule {
    type V = RuleView;

    open spec fn view(&self) -> RuleView {
        RuleView {
            rule_id: self.rule_id@,
            source_runtime_id: self.source_runtime_id@,
            target_runtime_id: self.target_runtime_id@,
            allowed_port: self.allowed_port,
            protocol: self.protocol@,
            allow: self.allow,
        }
    }
}

impl Clone for NetworkRule {
    fn clone(&self) -> (r: Self)
        ensures
            r@ == self@,
    {
        NetworkRule {
            rule_id: self.rule_id.clone(),
            source_runtime_id: self.source_runtime_id.clone(),
            target_runtime_id: self.target_runtime_id.clone(),
            allowed_port: self.allowed_port,
            protocol: self.protocol.clone(),
            allow: self.allow,
        }
    }
}

/// How one runtime is attached to the network.
#[derive(Debug)]
pub struct RuntimeNetworkConfig {
    pub runtime_id: String,
    pub mode: NetworkMode,
    pub ip_address: String,
    pub mac_address: String,
}

/// A runtime's network attachment as a value.
pub struct ConfigView {
    pub runtime_id: Seq<char>,
    pub mode: NetworkMode,
    pub ip_address: Seq<char>,
    pub mac_address: Seq<char>,
}

impl View for RuntimeNetworkConfig {
    type V = ConfigView;

    open spec fn view(&self) -> ConfigView {
        ConfigView {
            runtime_id: self.runtime_id@,
            mode: self.mode,
            ip_address: self.ip_address@,
            mac_address: self.mac_address@,
        }
    }
}

impl Clone for RuntimeNetworkConfig {
    fn clone(&self) -> (r: Self)
        ensures
            r@ == self@,
    {
        RuntimeNetworkConfig {
            runtime_id: self.runtime_id.clone(),
            mode: self.mode,
            ip_address: self.ip_address.clone(),
            mac_address: self.mac_address.clone(),
        }
    }
}

/// The answer when either runtime is isolated.
pub open spec fn isolated_message() -> Seq<char> {
    "One or both runtimes are in ISOLATED network mode."@
}

/// The answer when no rule matches.
pub open spec fn default_message() -> Seq<char> {
    "Default host network policy allowed communication"@
}

/// The answer when a rule decides.
pub open spec fn rule_message(rule_id: Seq<char>) -> Seq<char> {
    "Rule '"@ + rule_id + "' applied"@
}

/// Both runtimes are attached and at least one of them is isolated.
pub open spec fn isolated_pair(rts: Map<Seq<char>, ConfigView>, source: Seq<char>, target: Seq<char>) -> bool {
    &&& rts.contains_key(source)
    &&& rts.contains_key(target)
    &&& (rts[source].mode == NetworkMode::Isolated || rts[target].mode == NetworkMode::Isolated)
}

/// The rule applies to traffic from `source` to `target` on the port and protocol.
pub open spec fn rule_matches(
    r: RuleView,
    source: Seq<char>,
    target: Seq<char>,
    port: u32,
    protocol: Seq<char>,
) -> bool {
    &&& (r.source_runtime_id == source || r.source_runtime_id == "*"@)
    &&& (r.target_runtime_id == target || r.target_runtime_id == "*"@)
    &&& (r.allowed_port matches Some(p) ==> p == port)
    &&& (r.protocol == "*"@ || r.protocol == protocol)
}

/// Rule `i` is the first that applies.
pub open spec fn first_match_at(
    rules: Seq<RuleView>,
    i: int,
    source: Seq<char>,
    target: Seq<char>,
    port: u32,
    protocol: Seq<char>,
) -> bool {
    &&& 0 <= i < rules.len()
    &&& rule_matches(rules[i], source, target, port, protocol)
    &&& forall|j: int| 0 <= j < i ==> !rule_matches(#[trigger] rules[j], source, target, port, protocol)
}

/// No rule applies.
pub open spec fn no_match(
    rules: Seq<RuleView>,
    source: Seq<char>,
    target: Seq<char>,
    port: u32,
    protocol: Seq<char>,
) -> bool {
    forall|j: int| 0 <= j < rules.len() ==> !rule_matches(#[trigger] rules[j], source, target, port, protocol)
}

/// The policy's answer: isolation refuses first, then the first applicable
/// rule decides, and traffic no rule speaks of is allowed.
pub open spec fn decision(
    rts: Map<Seq<char>, ConfigView>,
    rules: Seq<RuleView>,
    source: Seq<char>,
    target: Seq<char>,
    port: u32,
    protocol: Seq<char>,
) -> (bool, Seq<char>) {
    if isolated_pair(rts, source, target) {
        (false, isolated_message())
    } else if exists|i: int| first_match_at(rules, i, source, target, port, protocol) {
        let i = choose|i: int| first_match_at(rules, i, source, target, port, protocol);
        (rules[i].allow, rule_message(rules[i].rule_id))
    } else {
        (true, default_message())
    }
}

/// At most one rule is the first to apply.
pub proof fn lemma_first_match_unique(
    rules: Seq<RuleView>,
    i: int,
    k: int,
    source: Seq<char>,
    target: Seq<char>,
    port: u32,
    protocol: Seq<char>,
)
    requires
        first_match_at(rules, i, source, target, port, protocol),
        first_match_at(rules, k, source, target, port, protocol),
    ensures
        i == k,
{
    if i < k {
        assert(!rule_matches(rules[i], source, target, port, protocol));
    } else if k < i {
        assert(!rule_matches(rules[k], source, target, port, protocol));
    }
}

/// Runtime attachments by runtime identity, and the firewall rules in the
/// order they were added.
pub struct VirtualNetworkManager {
    runtimes: Vec<RuntimeNetworkConfig>,
    rules: Vec<NetworkRule>,
}

/// The pair of identity and attachment a configuration denotes.
pub open spec fn config_pair(c: RuntimeNetworkConfig) -> (Seq<char>, ConfigView) {
    (c.runtime_id@, c@)
}

impl VirtualNetworkManager {
    /// The attachments in registration order.
    pub closed spec fn pairs(&self) -> Seq<(Seq<char>, ConfigView)> {
        self.runtimes@.map_values(|c: RuntimeNetworkConfig| config_pair(c))
    }

    /// Attachments by runtime identity.
    pub open spec fn runtimes(&self) -> Map<Seq<char>, ConfigView> {
        assoc(self.pairs())
    }

    /// The firewall rules in the order they were added.
    pub closed spec fn rules(&self) -> Seq<RuleView> {
        self.rules@.map_values(|r: NetworkRule| r@)
    }

    /// Each runtime is attached once.
    pub closed spec fn wf(&self) -> bool {
        keys(self.pairs()).no_duplicates()
    }

    /// No runtimes and no rules.
    pub fn new() -> (r: Self)
        ensures
            r.wf(),
            r.runtimes() == Map::<Seq<char>, ConfigView>::empty(),
            r.rules() == Seq::<RuleView>::empty(),
    {
        let r = VirtualNetworkManager { runtimes: Vec::new(), rules: Vec::new() };
        assert(r.pairs() =~= Seq::<(Seq<char>, ConfigView)>::empty());
        assert(r.runtimes() =~= Map::<Seq<char>, ConfigView>::empty());
        assert(keys(r.pairs()) =~= Seq::<Seq<char>>::empty());
        assert(r.rules() =~= Seq::<RuleView>::empty());
        r
    }

    fn position(&self, id: &str) -> (r: Option<usize>)
        ensures
            match r {
                Some(i) => i < self.pairs().len() && keys(self.pairs())[i as int] == id@,
                None => !keys(self.pairs()).contains(id@),
            },
    {
        let mut i: usize = 0;
        while i < self.runtimes.len()
            invariant
                i <= self.runtimes.len(),
                forall|k: int| 0 <= k < i ==> keys(self.pairs())[k] != id@,
            decreases self.runtimes.len() - i,
        {
            if str_eq(self.runtimes[i].runtime_id.as_str(), id) {
                return Some(i);
            }
            i += 1;
        }
        None
    }

    /// Attaches a runtime, replacing any attachment under its identity.
    pub fn register_runtime_network(&mut self, config: RuntimeNetworkConfig)
        requires
            old(self).wf(),
        ensures
            final(self).wf(),
            final(self).runtimes() == old(self).runtimes().insert(config.runtime_id@, config@),
            final(self).rules() == old(self).rules(),
    {
        let ghost old_pairs = self.pairs();
        let ghost v = config@;
        match self.position(config.runtime_id.as_str()) {
            Some(i) => {
                proof {
                    lemma_assoc_update(old_pairs, i as int, v);
                }
                self.runtimes.set(i, config);
                assert(self.pairs() =~= old_pairs.update(i as int, (old_pairs[i as int].0, v)));
            },
            None => {
                proof {
                    lemma_assoc_push(old_pairs, v.runtime_id, v);
                }
                self.runtimes.push(config);
                assert(self.pairs() =~= old_pairs.push((v.runtime_id, v)));
            },
        }
        assert(self.rules() =~= old(self).rules());
    }

    /// Adds a rule after all existing ones.
    pub fn add_firewall_rule(&mut self, rule: NetworkRule)
        requires
            old(self).wf(),
        ensures
            final(self).wf(),
            final(self).runtimes() == old(self).runtimes(),
            final(self).rules() == old(self).rules().push(rule@),
    {
        self.rules.push(rule);
        assert(self.rules() =~= old(self).rules().push(rule@));
        assert(self.pairs() =~= old(self).pairs());
    }

    fn attachment(&self, id: &str) -> (r: Option<NetworkMode>)
        requires
            self.wf(),
        ensures
            r is Some <==> self.runtimes().contains_key(id@),
            r matches Some(m) ==> m == self.runtimes()[id@].mode,
    {
        let pos = self.position(id);
        proof {
            lemma_assoc_index(self.pairs(), id@);
        }
        match pos {
            Some(i) => {
                assert(self.pairs()[i as int] == config_pair(self.runtimes@[i as int]));
                Some(self.runtimes[i].mode)
            },
            None => None,
        }
    }

    /// Whether traffic from `source_id` to `target_id` on the port and protocol
    /// is allowed, with the reason.
    pub fn can_communicate(&self, source_id: &str, target_id: &str, port: u32, protocol: &str) -> (r: (
        bool,
        String,
    ))
        requires
            self.wf(),
        ensures
            (r.0, r.1@) == decision(self.runtimes(), self.rules(), source_id@, target_id@, port, protocol@),
    {
        let src = self.attachment(source_id);
        let dst = self.attachment(target_id);
        match (src, dst) {
            (Some(a), Some(b)) => {
                if a == NetworkMode::Isolated || b == NetworkMode::Isolated {
                    return (false, owned("One or both runtimes are in ISOLATED network mode."));
                }
            },
            _ => {},
        }
        let ghost rules = self.rules();
        let mut i: usize = 0;
        while i < self.rules.len()
            invariant
                i <= self.rules.len(),
                rules == self.rules(),
                rules.len() == self.rules.len(),
                !isolated_pair(self.runtimes(), source_id@, target_id@),
                forall|j: int| 0 <= j < i ==> !rule_matches(#[trigger] rules[j], source_id@, target_id@, port, protocol@),
            decreases self.rules.len() - i,
        {
            let rule = &self.rules[i];
            assert(rules[i as int] == rule@);
            let source_ok = str_eq(rule.source_runtime_id.as_str(), source_id) || str_eq(
                rule.source_runtime_id.as_str(),
                "*",
            );
            let target_ok = str_eq(rule.target_runtime_id.as_str(), target_id) || str_eq(
                rule.target_runtime_id.as_str(),
                "*",
            );
            if source_ok && target_ok {
                let port_ok = match rule.allowed_port {
                    Some(p) => p == port,
                    None => true,
                };
                let protocol_ok = str_eq(rule.protocol.as_str(), "*") || str_eq(rule.protocol.as_str(), protocol);
                if port_ok && protocol_ok {
                    proof {
                        assert(first_match_at(rules, i as int, source_id@, target_id@, port, protocol@));
                        let k = choose|k: int| first_match_at(rules, k, source_id@, target_id@, port, protocol@);
                        lemma_first_match_unique(rules, i as int, k, source_id@, target_id@, port, protocol@);
                    }
                    return (rule.allow, concat3("Rule '", rule.rule_id.as_str(), "' applied"));
                }
            }
            i += 1;
        }
        proof {
            assert forall|k: int| !first_match_at(rules, k, source_id@, target_id@, port, protocol@) by {
                if 0 <= k < rules.len() {
                    assert(!rule_matches(rules[k], source_id@, target_id@, port, protocol@));
                }
            }
        }
        (true, owned("Default host network policy allowed communication"))
    }
}

/// An isolated runtime exchanges no traffic with any other attached runtime,
/// whatever the rules say.
pub proof fn law_isolation_overrides_rules(
    rts: Map<Seq<char>, ConfigView>,
    rules: Seq<RuleView>,
    source: Seq<char>,
    target: Seq<char>,
    port: u32,
    protocol: Seq<char>,
)
    requires
        rts.contains_key(source),
        rts.contains_key(target),
        rts[source].mode == NetworkMode::Isolated || rts[target].mode == NetworkMode::Isolated,
    ensures
        !decision(rts, rules, source, target, port, protocol).0,
{
}

/// A rule added later never overrides an earlier rule that applies.
pub proof fn law_earlier_rule_wins(
    rts: Map<Seq<char>, ConfigView>,
    rules: Seq<RuleView>,
    added: RuleView,
    source: Seq<char>,
    target: Seq<char>,
    port: u32,
    protocol: Seq<char>,
)
    requires
        exists|i: int| 0 <= i < rules.len() && rule_matches(#[trigger] rules[i], source, target, port, protocol),
    ensures
        decision(rts, rules.push(added), source, target, port, protocol) == decision(
            rts,
            rules,
            source,
            target,
            port,
            protocol,
        ),
{
    let w = choose|i: int| 0 <= i < rules.len() && rule_matches(#[trigger] rules[i], source, target, port, protocol);
    let first = lemma_least_match(rules, w, source, target, port, protocol);
    let longer = rules.push(added);
    assert(first_match_at(longer, first, source, target, port, protocol)) by {
        assert forall|j: int| 0 <= j < first implies !rule_matches(#[trigger] longer[j], source, target, port, protocol) by {
            assert(longer[j] == rules[j]);
        }
    }
    let a = choose|i: int| first_match_at(rules, i, source, target, port, protocol);
    let b = choose|i: int| first_match_at(longer, i, source, target, port, protocol);
    lemma_first_match_unique(rules, a, first, source, target, port, protocol);
    lemma_first_match_unique(longer, b, first, source, target, port, protocol);
}

/// A rule speaks of traffic when its source is the sender or `*`, its target
/// the receiver or `*`, its port absent or the port used, and its protocol `*`
/// or the protocol used; between runtimes that are not isolated, the first
/// rule that speaks of the traffic decides it, and its identity is given as
/// the reason. In particular a rule with target `*` applies to every target.
pub proof fn law_first_applicable_rule_decides(
    rts: Map<Seq<char>, ConfigView>,
    rules: Seq<RuleView>,
    i: int,
    source: Seq<char>,
    target: Seq<char>,
    port: u32,
    protocol: Seq<char>,
)
    requires
        !isolated_pair(rts, source, target),
        0 <= i < rules.len(),
        rules[i].source_runtime_id == source || rules[i].source_runtime_id == "*"@,
        rules[i].target_runtime_id == target || rules[i].target_runtime_id == "*"@,
        rules[i].allowed_port is None || rules[i].allowed_port == Some(port),
        rules[i].protocol == protocol || rules[i].protocol == "*"@,
        forall|j: int|
            0 <= j < i ==> !{
                &&& (#[trigger] rules[j]).source_runtime_id == source || rules[j].source_runtime_id == "*"@
                &&& rules[j].target_runtime_id == target || rules[j].target_runtime_id == "*"@
                &&& rules[j].allowed_port is None || rules[j].allowed_port == Some(port)
                &&& rules[j].protocol == protocol || rules[j].protocol == "*"@
            },
    ensures
        decision(rts, rules, source, target, port, protocol) == (rules[i].allow, rule_message(rules[i].rule_id)),
{
    assert forall|j: int| 0 <= j < i implies !rule_matches(#[trigger] rules[j], source, target, port, protocol) by {
        if let Some(p) = rules[j].allowed_port {
            if p == port {
                assert(rules[j].allowed_port == Some(port));
            }
        }
    }
    assert(first_match_at(rules, i, source, target, port, protocol));
    let k = choose|k: int| first_match_at(rules, k, source, target, port, protocol);
    lemma_first_match_unique(rules, i, k, source, target, port, protocol);
}

/// Where some rule applies, one of them is the first.
pub proof fn lemma_least_match(
    rules: Seq<RuleView>,
    w: int,
    source: Seq<char>,
    target: Seq<char>,
    port: u32,
    protocol: Seq<char>,
) -> (i: int)
    requires
        0 <= w < rules.len(),
        rule_matches(rules[w], source, target, port, protocol),
    ensures
        first_match_at(rules, i, source, target, port, protocol),
        i <= w,
    decreases w,
{
    if exists|j: int| 0 <= j < w && rule_matches(#[trigger] rules[j], source, target, port, protocol) {
        let j = choose|j: int| 0 <= j < w && rule_matches(#[trigger] rules[j], source, target, port, protocol);
        lemma_least_match(rules, j, source, target, port, protocol)
    } else {
        w
    }
}

/// Traffic that no rule speaks of between runtimes that are not isolated is allowed.
pub proof fn law_default_allow(
    rts: Map<Seq<char>, ConfigView>,
    rules: Seq<RuleView>,
    source: Seq<char>,
    target: Seq<char>,
    port: u32,
    protocol: Seq<char>,
)
    requires
        !isolated_pair(rts, source, target),
        no_match(rules, source, target, port, protocol),
    ensures
        decision(rts, rules, source, target, port, protocol) == (true, default_message()),
{
    assert forall|k: int| !first_match_at(rules, k, source, target, port, protocol) by {
        if 0 <= k < rules.len() {
            assert(!rule_matches(rules[k], source, target, port, protocol));
        }
    }
}

} // verus!
