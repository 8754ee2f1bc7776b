use vstd::prelude::*;

use crate::ip::IpAddress;

verus! {

/// The allow-lists of one application. Each list is matched exactly; an
/// empty list admits no value in its dimension.
#[derive(Clone, Debug, PartialEq, Eq)]
pub struct FirewallRule {
    pub app_name: String,
    pub allowed_domains: Vec<String>,
    pub allowed_ips: Vec<IpAddress>,
    pub allowed_protocols: Vec<String>,
}

/// The mathematical content of a rule.
pub struct RuleSpec {
    pub app: Seq<char>,
    pub domains: Seq<Seq<char>>,
    pub ips: Seq<IpAddress>,
    pub protocols: Seq<Seq<char>>,
}

/// The character sequences of a sequence of strings.
pub open spec fn string_views(s: Seq<String>) -> Seq<Seq<char>> {
    s.map_values(|x: String| x@)
}

impl View for FirewallRule {
    type V = RuleSpec;

    open spec fn view(&self) -> RuleSpec {
        RuleSpec {
            app: self.app_name@,
            domains: string_views(self.allowed_domains@),
            ips: self.allowed_ips@,
            protocols: string_views(self.allowed_protocols@),
        }
    }
}

/// A rule is accepted by the store only when it names an application.
pub open spec fn rule_valid(r: RuleSpec) -> bool {
    r.app.len() > 0
}

/// A copy of a list of strings, element by element.
pub fn copy_strings(v: &Vec<String>) -> (r: Vec<String>)
    ensures
        r@ == v@,
{
    let mut r: Vec<String> = Vec::new();
    let mut i: usize = 0;
    while i < v.len()
        invariant
            i <= v@.len(),
            r@ == v@.subrange(0, i as int),
        decreases v@.len() - i,
    {
        r.push(v[i].clone());
        i = i + 1;
    }
    assert(r@ =~= v@);
    r
}

/// A copy of a list of addresses.
pub fn copy_ips(v: &Vec<IpAddress>) -> (r: Vec<IpAddress>)
    ensures
        r@ == v@,
{
    let mut r: Vec<IpAddress> = Vec::new();
    let mut i: usize = 0;
    while i < v.len()
        invariant
            i <= v@.len(),
            r@ == v@.subrange(0, i as int),
        decreases v@.len() - i,
    {
        r.push(v[i]);
        i = i + 1;
    }
    assert(r@ =~= v@);
    r
}

/// Whether `s` is one of the strings of `v`, compared exactly.
pub fn contains_string(v: &Vec<String>, s: &String) -> (r: bool)
    ensures
        r == string_views(v@).contains(s@),
{
    let mut i: usize = 0;
    while i < v.len()
        invariant
            i <= v@.len(),
            forall|j: int| 0 <= j < i ==> v@[j]@ != s@,
        decreases v@.len() - i,
    {
        if v[i] == *s {
            assert(string_views(v@)[i as int] == s@);
            return true;
        }
        i = i + 1;
    }
    proof {
        if string_views(v@).contains(s@) {
            let k = choose|k: int| 0 <= k < string_views(v@).len() && string_views(v@)[k] == s@;
            assert(v@[k]@ == s@);
        }
    }
    false
}

/// Whether `ip` is one of the addresses of `v`.
pub fn contains_ip(v: &Vec<IpAddress>, ip: IpAddress) -> (r: bool)
    ensures
        r == v@.contains(ip),
{
    let mut i: usize = 0;
    while i < v.len()
        invariant
            i <= v@.len(),
            forall|j: int| 0 <= j < i ==> v@[j] != ip,
        decreases v@.len() - i,
    {
        if v[i] == ip {
            return true;
        }
        i = i + 1;
    }
    false
}

impl FirewallRule {
    /// A rule from its four parts.
    pub fn new(
        app_name: String,
        allowed_domains: Vec<String>,
        allowed_ips: Vec<IpAddress>,
        allowed_protocols: Vec<String>,
    ) -> (r: FirewallRule)
        ensures
            r.app_name == app_name,
            r.allowed_domains == allowed_domains,
            r.allowed_ips == allowed_ips,
            r.allowed_protocols == allowed_protocols,
    {
        FirewallRule { app_name, allowed_domains, allowed_ips, allowed_protocols }
    }

    /// An independent copy of this rule, with the same content.
    pub fn snapshot(&self) -> (r: FirewallRule)
        ensures
            r@ == self@,
    {
        FirewallRule {
            app_name: self.app_name.clone(),
            allowed_domains: copy_strings(&self.allowed_domains),
            allowed_ips: copy_ips(&self.allowed_ips),
            allowed_protocols: copy_strings(&self.allowed_protocols),
        }
    }

    /// Whether the store accepts this rule.
    pub fn is_valid(&self) -> (r: bool)
        ensures
            r == rule_valid(self@),
    {
        !self.app_name.as_str().is_empty()
    }
}

} // verus!
