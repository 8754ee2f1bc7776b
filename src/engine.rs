use vstd::prelude::*;

use crate::ip::IpAddress;
use crate::rule::{contains_ip, contains_string, FirewallRule, RuleSpec};
use crate::store::RuleStore;

verus! {

/// The dimensions of an attempt that its application's rule does not
/// admit; `true` marks a failed dimension.
#[derive(Clone, Copy, Debug, PartialEq, Eq, Structural)]
pub struct Mismatch {
    pub domain: bool,
    pub ip: bool,
    pub protocol: bool,
}

/// Why an attempt was denied.
#[derive(Clone, Copy, Debug, PartialEq, Eq, Structural)]
pub enum DenyReason {
    /// No rule is registered for the application.
    UnknownApp,
    /// The application's rule fails in the marked dimensions.
    RuleMismatch(Mismatch),
}

/// The outcome of one evaluation.
#[derive(Clone, Copy, Debug, PartialEq, Eq, Structural)]
pub enum Verdict {
    Allowed,
    Denied(DenyReason),
}

impl Verdict {
    /// Whether the verdict admits the connection.
    pub fn is_allowed(&self) -> (r: bool)
        ensures
            r == (*self == Verdict::Allowed),
    {
        match self {
            Verdict::Allowed => true,
            Verdict::Denied(_) => false,
        }
    }
}

/// One outgoing connection that asks for a decision.
#[derive(Clone, Debug, PartialEq, Eq)]
pub struct ConnectionAttempt {
    pub app_name: String,
    pub domain: String,
    pub ip: IpAddress,
    pub protocol: String,
}

impl ConnectionAttempt {
    /// An attempt of application `app_name` to reach `domain` at `ip` over
    /// `protocol`.
    pub fn new(app_name: &str, domain: &str, ip: IpAddress, protocol: &str) -> (r: ConnectionAttempt)
        ensures
            r.app_name@ == app_name@,
            r.domain@ == domain@,
            r.ip == ip,
            r.protocol@ == protocol@,
    {
        ConnectionAttempt {
            app_name: app_name.to_owned(),
            domain: domain.to_owned(),
            ip,
            protocol: protocol.to_owned(),
        }
    }
}

/// The verdict of a rule on one attempt: each of the three dimensions is
/// checked by exact membership, and the attempt is allowed only when all
/// three hold.
pub open spec fn verdict_for(rule: RuleSpec, domain: Seq<char>, ip: IpAddress, protocol: Seq<char>) -> Verdict {
    let m = Mismatch {
        domain: !rule.domains.contains(domain),
        ip: !rule.ips.contains(ip),
        protocol: !rule.protocols.contains(protocol),
    };
    if !m.domain && !m.ip && !m.protocol {
        Verdict::Allowed
    } else {
        Verdict::Denied(DenyReason::RuleMismatch(m))
    }
}

/// The verdict for an attempt against a whole rule table: an application
/// without a rule is denied.
pub open spec fn evaluate_spec(
    rules: Map<Seq<char>, RuleSpec>,
    app: Seq<char>,
    domain: Seq<char>,
    ip: IpAddress,
    protocol: Seq<char>,
) -> Verdict {
    if rules.contains_key(app) {
        verdict_for(rules[app], domain, ip, protocol)
    } else {
        Verdict::Denied(DenyReason::UnknownApp)
    }
}

/// Checks `attempt` against one rule, all three dimensions of it.
pub fn check_rule(rule: &FirewallRule, attempt: &ConnectionAttempt) -> (r: Verdict)
    ensures
        r == verdict_for(rule@, attempt.domain@, attempt.ip, attempt.protocol@),
{
    let m = Mismatch {
        domain: !contains_string(&rule.allowed_domains, &attempt.domain),
        ip: !contains_ip(&rule.allowed_ips, attempt.ip),
        protocol: !contains_string(&rule.allowed_protocols, &attempt.protocol),
    };
    if !m.domain && !m.ip && !m.protocol {
        Verdict::Allowed
    } else {
        Verdict::Denied(DenyReason::RuleMismatch(m))
    }
}

/// Decides `attempt` against the rules in `store`.
pub fn evaluate(store: &RuleStore, attempt: &ConnectionAttempt) -> (r: Verdict)
    requires
        store.wf(),
    ensures
        r == evaluate_spec(store@, attempt.app_name@, attempt.domain@, attempt.ip, attempt.protocol@),
{
    match store.lookup(&attempt.app_name) {
        Some(rule) => check_rule(rule, attempt),
        None => Verdict::Denied(DenyReason::UnknownApp),
    }
}

/// An attempt of a registered application is allowed exactly when its
/// domain, its address and its protocol are each in the rule's lists.
pub proof fn lemma_allowed_iff_all_listed(
    rules: Map<Seq<char>, RuleSpec>,
    app: Seq<char>,
    domain: Seq<char>,
    ip: IpAddress,
    protocol: Seq<char>,
)
    requires
        rules.contains_key(app),
    ensures
        (evaluate_spec(rules, app, domain, ip, protocol) == Verdict::Allowed) <==> (
        rules[app].domains.contains(domain) && rules[app].ips.contains(ip)
            && rules[app].protocols.contains(protocol)),
{
}

/// An application without a rule is denied as unknown, whatever it asks.
pub proof fn lemma_unknown_app_denied(
    rules: Map<Seq<char>, RuleSpec>,
    app: Seq<char>,
    domain: Seq<char>,
    ip: IpAddress,
    protocol: Seq<char>,
)
    requires
        !rules.contains_key(app),
    ensures
        evaluate_spec(rules, app, domain, ip, protocol) == Verdict::Denied(DenyReason::UnknownApp),
{
}

/// Replacing a rule is seen whole: after `rule` is stored, every attempt of
/// its application is judged by `rule` alone, and every other application
/// is judged as before.
pub proof fn lemma_replacement_is_whole(
    rules: Map<Seq<char>, RuleSpec>,
    rule: RuleSpec,
    app: Seq<char>,
    domain: Seq<char>,
    ip: IpAddress,
    protocol: Seq<char>,
)
    ensures
        evaluate_spec(rules.insert(rule.app, rule), app, domain, ip, protocol) == if app == rule.app {
            verdict_for(rule, domain, ip, protocol)
        } else {
            evaluate_spec(rules, app, domain, ip, protocol)
        },
{
}

/// A rule with an empty list in some dimension admits nothing in it: there
/// is no implicit wildcard.
pub proof fn lemma_empty_list_denies(rule: RuleSpec, domain: Seq<char>, ip: IpAddress, protocol: Seq<char>)
    requires
        rule.domains.len() == 0 || rule.ips.len() == 0 || rule.protocols.len() == 0,
    ensures
        verdict_for(rule, domain, ip, protocol) is Denied,
{
}

} // verus!
