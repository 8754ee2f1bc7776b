use vstd::prelude::*;

use crate::config::ConfigError;
use crate::engine::{evaluate, evaluate_spec, ConnectionAttempt, Verdict};
use crate::ip::IpAddress;
use crate::log_buffer::{record_spec, BufferState, LogBuffer, LogEvent, DEFAULT_BUFFER_CAPACITY};
use crate::rule::{rule_valid, FirewallRule, RuleSpec};
use crate::store::RuleStore;

verus! {

/// `e` records the attempt of `app` on `domain`, `ip` and `protocol` at
/// `timestamp`, decided as `verdict`.
pub open spec fn event_records(
    e: LogEvent,
    timestamp: u64,
    app: Seq<char>,
    domain: Seq<char>,
    ip: IpAddress,
    protocol: Seq<char>,
    verdict: Verdict,
) -> bool {
    &&& e.timestamp == timestamp
    &&& e.app_name@ == app
    &&& e.domain@ == domain
    &&& e.ip == ip
    &&& e.protocol@ == protocol
    &&& e.verdict == verdict
}

/// Logs the decision `verdict` on `attempt`, made at `timestamp`: a denial
/// always, a permitted attempt only when `log_allowed`.
pub fn log_decision(
    logs: &mut LogBuffer,
    attempt: ConnectionAttempt,
    verdict: Verdict,
    timestamp: u64,
    log_allowed: bool,
)
    requires
        old(logs).wf(),
    ensures
        final(logs).wf(),
        (verdict is Denied || log_allowed) ==> exists|e: LogEvent|
            #![trigger event_records(e, timestamp, attempt.app_name@, attempt.domain@, attempt.ip, attempt.protocol@, verdict)]
            event_records(e, timestamp, attempt.app_name@, attempt.domain@, attempt.ip, attempt.protocol@, verdict)
                && final(logs)@ == record_spec(old(logs)@, e),
        !(verdict is Denied || log_allowed) ==> final(logs)@ == old(logs)@,
{
    if !verdict.is_allowed() || log_allowed {
        let ghost a = attempt;
        let e = LogEvent::new(timestamp, attempt, verdict);
        let ghost before = logs@;
        let ghost logged = e;
        logs.record(e);
        assert(event_records(logged, timestamp, a.app_name@, a.domain@, a.ip, a.protocol@, verdict)
            && logs@ == record_spec(before, logged));
    }
}

/// The rule table and the event log of one host, with the decisions that
/// join them.
pub struct FirewallAgent {
    rules: RuleStore,
    logs: LogBuffer,
    log_allowed: bool,
}

impl FirewallAgent {
    /// The rules by application name.
    pub closed spec fn rules_view(&self) -> Map<Seq<char>, RuleSpec> {
        self.rules@
    }

    /// The event log.
    pub closed spec fn logs_view(&self) -> BufferState {
        self.logs@
    }

    /// Whether allowed attempts are logged too, and not only denials.
    pub closed spec fn logs_allowed(&self) -> bool {
        self.log_allowed
    }

    /// The agent's invariant.
    pub closed spec fn wf(&self) -> bool {
        self.rules.wf() && self.logs.wf()
    }

    /// An agent with no rules, an empty log of the default capacity, and
    /// every decision logged.
    pub fn new() -> (r: FirewallAgent)
        ensures
            r.wf(),
            r.rules_view() == Map::<Seq<char>, RuleSpec>::empty(),
            r.logs_view().events.len() == 0,
            r.logs_view().capacity == DEFAULT_BUFFER_CAPACITY,
            r.logs_view().overflow == 0,
            r.logs_allowed(),
    {
        FirewallAgent { rules: RuleStore::new(), logs: LogBuffer::with_default_capacity(), log_allowed: true }
    }

    /// An agent with no rules and an empty log of `capacity` events, which
    /// logs allowed attempts only when `log_allowed`; a capacity of zero is
    /// refused.
    pub fn with_options(capacity: usize, log_allowed: bool) -> (r: Result<FirewallAgent, ConfigError>)
        ensures
            capacity == 0 ==> r == Err::<FirewallAgent, ConfigError>(ConfigError::ZeroCapacity),
            capacity > 0 ==> (r matches Ok(a) && a.wf() && a.rules_view() == Map::<
                Seq<char>,
                RuleSpec,
            >::empty() && a.logs_view().events.len() == 0 && a.logs_view().capacity == capacity
                && a.logs_view().overflow == 0 && a.logs_allowed() == log_allowed),
    {
        match LogBuffer::new(capacity) {
            Ok(logs) => Ok(FirewallAgent { rules: RuleStore::new(), logs, log_allowed }),
            Err(e) => Err(e),
        }
    }

    /// Decides the attempt of `app_name` to reach `domain` at `ip` over
    /// `protocol`, made at `timestamp`, and logs it (a permitted attempt
    /// only when allowed attempts are logged). Returns the verdict.
    pub fn decide(&mut self, app_name: &str, domain: &str, ip: IpAddress, protocol: &str, timestamp: u64) -> (r:
        Verdict)
        requires
            old(self).wf(),
        ensures
            final(self).wf(),
            r == evaluate_spec(old(self).rules_view(), app_name@, domain@, ip, protocol@),
            final(self).rules_view() == old(self).rules_view(),
            final(self).logs_allowed() == old(self).logs_allowed(),
            (r is Denied || old(self).logs_allowed()) ==> exists|e: LogEvent|
                #![trigger event_records(e, timestamp, app_name@, domain@, ip, protocol@, r)]
                event_records(e, timestamp, app_name@, domain@, ip, protocol@, r) && final(self).logs_view()
                    == record_spec(old(self).logs_view(), e),
            !(r is Denied || old(self).logs_allowed()) ==> final(self).logs_view() == old(self).logs_view(),
    {
        let attempt = ConnectionAttempt::new(app_name, domain, ip, protocol);
        let verdict = evaluate(&self.rules, &attempt);
        log_decision(&mut self.logs, attempt, verdict, timestamp, self.log_allowed);
        verdict
    }

    /// Whether the attempt is allowed; decides and logs it as `decide` does.
    pub fn check_connection(
        &mut self,
        app_name: &str,
        domain: &str,
        ip: IpAddress,
        protocol: &str,
        timestamp: u64,
    ) -> (r: bool)
        requires
            old(self).wf(),
        ensures
            final(self).wf(),
            r == (evaluate_spec(old(self).rules_view(), app_name@, domain@, ip, protocol@) == Verdict::Allowed),
            final(self).rules_view() == old(self).rules_view(),
            final(self).logs_allowed() == old(self).logs_allowed(),
            (!r || old(self).logs_allowed()) ==> exists|e: LogEvent|
                event_records(
                    e,
                    timestamp,
                    app_name@,
                    domain@,
                    ip,
                    protocol@,
                    evaluate_spec(old(self).rules_view(), app_name@, domain@, ip, protocol@),
                ) && final(self).logs_view() == record_spec(old(self).logs_view(), e),
            !(!r || old(self).logs_allowed()) ==> final(self).logs_view() == old(self).logs_view(),
    {
        let v = self.decide(app_name, domain, ip, protocol, timestamp);
        v.is_allowed()
    }

    /// Adds or replaces the rule of `rule`'s application; a rule without an
    /// application name is refused and nothing changes.
    pub fn upsert_rule(&mut self, rule: FirewallRule) -> (r: Result<(), ConfigError>)
        requires
            old(self).wf(),
        ensures
            final(self).wf(),
            final(self).logs_view() == old(self).logs_view(),
            final(self).logs_allowed() == old(self).logs_allowed(),
            rule_valid(rule@) ==> r is Ok && final(self).rules_view() == old(self).rules_view().insert(
                rule@.app,
                rule@,
            ),
            !rule_valid(rule@) ==> r == Err::<(), ConfigError>(ConfigError::EmptyAppName)
                && final(self).rules_view() == old(self).rules_view(),
    {
        self.rules.upsert(rule)
    }

    /// Removes the rule of application `app_name`, if there is one.
    pub fn remove_rule(&mut self, app_name: &str)
        requires
            old(self).wf(),
        ensures
            final(self).wf(),
            final(self).rules_view() == old(self).rules_view().remove(app_name@),
            final(self).logs_view() == old(self).logs_view(),
            final(self).logs_allowed() == old(self).logs_allowed(),
    {
        let key = app_name.to_owned();
        self.rules.remove(&key)
    }

    /// A copy of the rule of application `app_name`.
    pub fn get_rule(&self, app_name: &str) -> (r: Option<FirewallRule>)
        requires
            self.wf(),
        ensures
            match r {
                Some(rule) => self.rules_view().contains_key(app_name@) && rule@ == self.rules_view()[app_name@],
                None => !self.rules_view().contains_key(app_name@),
            },
    {
        let key = app_name.to_owned();
        self.rules.get(&key)
    }

    /// Takes every logged event, oldest first, leaving the log empty.
    pub fn collect_logs(&mut self) -> (r: Vec<LogEvent>)
        requires
            old(self).wf(),
        ensures
            final(self).wf(),
            r@ == old(self).logs_view().events,
            final(self).logs_view().events.len() == 0,
            final(self).logs_view().capacity == old(self).logs_view().capacity,
            final(self).logs_view().overflow == old(self).logs_view().overflow,
            final(self).rules_view() == old(self).rules_view(),
            final(self).logs_allowed() == old(self).logs_allowed(),
    {
        self.logs.drain()
    }
}

} // verus!
