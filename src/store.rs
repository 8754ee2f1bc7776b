use vstd::prelude::*;

use crate::config::ConfigError;
use crate::rule::{rule_valid, FirewallRule, RuleSpec};

verus! {

/// Whether some rule of `s` belongs to application `k`.
pub open spec fn has_app(s: Seq<FirewallRule>, k: Seq<char>) -> bool {
    exists|i: int| 0 <= i < s.len() && s[i].app_name@ == k
}

/// No two rules of `s` belong to the same application.
pub open spec fn keys_unique(s: Seq<FirewallRule>) -> bool {
    forall|i: int, j: int|
        0 <= i < s.len() && 0 <= j < s.len() && s[i].app_name@ == s[j].app_name@ ==> i == j
}

/// The map from application name to rule that a sequence of rules holds.
pub open spec fn rules_map(s: Seq<FirewallRule>) -> Map<Seq<char>, RuleSpec> {
    Map::new(
        |k: Seq<char>| has_app(s, k),
        |k: Seq<char>| s[choose|i: int| 0 <= i < s.len() && s[i].app_name@ == k]@,
    )
}

/// The rule at index `i` is what the map holds for its application.
proof fn lemma_lookup(s: Seq<FirewallRule>, i: int)
    requires
        keys_unique(s),
        0 <= i < s.len(),
    ensures
        rules_map(s).contains_key(s[i].app_name@),
        rules_map(s)[s[i].app_name@] == s[i]@,
{
    let k = s[i].app_name@;
    assert(has_app(s, k));
    let j = choose|j: int| 0 <= j < s.len() && s[j].app_name@ == k;
    assert(j == i);
}

/// The rules of every application, one per application name.
pub struct RuleStore {
    rules: Vec<FirewallRule>,
}

impl View for RuleStore {
    type V = Map<Seq<char>, RuleSpec>;

    closed spec fn view(&self) -> Map<Seq<char>, RuleSpec> {
        rules_map(self.rules@)
    }
}

impl RuleStore {
    /// The store's invariant: application names are unique.
    pub closed spec fn wf(&self) -> bool {
        keys_unique(self.rules@)
    }

    /// An empty store.
    pub fn new() -> (r: RuleStore)
        ensures
            r.wf(),
            r@ == Map::<Seq<char>, RuleSpec>::empty(),
    {
        let r = RuleStore { rules: Vec::new() };
        assert(r@ =~= Map::<Seq<char>, RuleSpec>::empty());
        r
    }

    /// The number of applications that have a rule.
    pub fn len(&self) -> (r: usize)
        requires
            self.wf(),
        ensures
            r == self@.len(),
    {
        proof {
            self.lemma_len();
        }
        self.rules.len()
    }

    proof fn lemma_len(&self)
        requires
            self.wf(),
        ensures
            self@.len() == self.rules@.len(),
        decreases self.rules@.len(),
    {
        let s = self.rules@;
        let keys = Set::new(|i: int| 0 <= i < s.len()).map(|i: int| s[i].app_name@);
        assert(self@.dom() =~= keys) by {
            assert forall|k: Seq<char>| self@.dom().contains(k) implies keys.contains(k) by {
                let i = choose|i: int| 0 <= i < s.len() && s[i].app_name@ == k;
                assert(Set::new(|i: int| 0 <= i < s.len()).contains(i));
            }
        }
        let idx = Set::new(|i: int| 0 <= i < s.len());
        assert(idx =~= vstd::set_lib::set_int_range(0, s.len() as int));
        vstd::set_lib::lemma_int_range(0, s.len() as int);
        assert forall|a: int, b: int|
            idx.contains(a) && idx.contains(b) && #[trigger] s[a].app_name@ == #[trigger] s[b].app_name@
            implies a == b by {}
        vstd::set_lib::lemma_map_size(idx, keys, |i: int| s[i].app_name@);
    }

    /// The index of the rule of application `app`, if there is one.
    fn find(&self, app: &String) -> (r: Option<usize>)
        ensures
            match r {
                Some(i) => i < self.rules@.len() && self.rules@[i as int].app_name@ == app@,
                None => !has_app(self.rules@, app@),
            },
    {
        let mut i: usize = 0;
        while i < self.rules.len()
            invariant
                i <= self.rules@.len(),
                forall|j: int| 0 <= j < i ==> self.rules@[j].app_name@ != app@,
            decreases self.rules@.len() - i,
        {
            if self.rules[i].app_name == *app {
                return Some(i);
            }
            i = i + 1;
        }
        None
    }

    /// A copy of the rule of application `app`, taken whole; later changes to
    /// the store do not reach it.
    pub fn get(&self, app: &String) -> (r: Option<FirewallRule>)
        requires
            self.wf(),
        ensures
            match r {
                Some(rule) => self@.contains_key(app@) && rule@ == self@[app@],
                None => !self@.contains_key(app@),
            },
    {
        match self.find(app) {
            Some(i) => {
                proof {
                    lemma_lookup(self.rules@, i as int);
                }
                Some(self.rules[i].snapshot())
            },
            None => None,
        }
    }

    /// The rule of application `app`, borrowed from the store.
    pub fn lookup(&self, app: &String) -> (r: Option<&FirewallRule>)
        requires
            self.wf(),
        ensures
            match r {
                Some(rule) => self@.contains_key(app@) && rule@ == self@[app@],
                None => !self@.contains_key(app@),
            },
    {
        match self.find(app) {
            Some(i) => {
                proof {
                    lemma_lookup(self.rules@, i as int);
                }
                Some(&self.rules[i])
            },
            None => None,
        }
    }

    /// Whether application `app` has a rule.
    pub fn contains(&self, app: &String) -> (r: bool)
        requires
            self.wf(),
        ensures
            r == self@.contains_key(app@),
    {
        self.find(app).is_some()
    }

    /// Adds `rule`, replacing whole any rule of the same application. A rule
    /// without an application name is refused and the store is unchanged.
    pub fn upsert(&mut self, rule: FirewallRule) -> (r: Result<(), ConfigError>)
        requires
            old(self).wf(),
        ensures
            final(self).wf(),
            rule_valid(rule@) ==> r is Ok && final(self)@ == old(self)@.insert(rule@.app, rule@),
            !rule_valid(rule@) ==> r == Err::<(), ConfigError>(ConfigError::EmptyAppName)
                && final(self)@ == old(self)@,
    {
        if !rule.is_valid() {
            return Err(ConfigError::EmptyAppName);
        }
        let ghost s = self.rules@;
        let ghost k = rule@.app;
        let ghost rv = rule@;
        match self.find(&rule.app_name) {
            Some(i) => {
                self.rules.set(i, rule);
                let ghost t = self.rules@;
                assert(t == s.update(i as int, t[i as int]));
                proof {
                    assert(keys_unique(t));
                    lemma_lookup(t, i as int);
                    assert forall|q: Seq<char>| #[trigger] has_app(t, q) == has_app(s, q) by {
                        if has_app(s, q) {
                            let j = choose|j: int| 0 <= j < s.len() && s[j].app_name@ == q;
                            assert(t[j].app_name@ == q);
                        }
                        if has_app(t, q) {
                            let j = choose|j: int| 0 <= j < t.len() && t[j].app_name@ == q;
                            assert(s[j].app_name@ == q);
                        }
                    }
                    assert forall|q: Seq<char>| q != k && has_app(s, q) implies
                        #[trigger] rules_map(t)[q] == rules_map(s)[q] by {
                        let j = choose|j: int| 0 <= j < s.len() && s[j].app_name@ == q;
                        lemma_lookup(s, j);
                        lemma_lookup(t, j);
                    }
                    assert(rules_map(t) =~= rules_map(s).insert(k, rv));
                }
            },
            None => {
                self.rules.push(rule);
                let ghost t = self.rules@;
                proof {
                    assert(keys_unique(t));
                    lemma_lookup(t, s.len() as int);
                    assert forall|q: Seq<char>| #[trigger] has_app(t, q) == (has_app(s, q) || q == k) by {
                        if has_app(s, q) {
                            let j = choose|j: int| 0 <= j < s.len() && s[j].app_name@ == q;
                            assert(t[j].app_name@ == q);
                        }
                        if q == k {
                            assert(t[s.len() as int].app_name@ == q);
                        }
                        if has_app(t, q) && q != k {
                            let j = choose|j: int| 0 <= j < t.len() && t[j].app_name@ == q;
                            assert(s[j].app_name@ == q);
                        }
                    }
                    assert forall|q: Seq<char>| q != k && has_app(s, q) implies
                        #[trigger] rules_map(t)[q] == rules_map(s)[q] by {
                        let j = choose|j: int| 0 <= j < s.len() && s[j].app_name@ == q;
                        lemma_lookup(s, j);
                        lemma_lookup(t, j);
                    }
                    assert(rules_map(t) =~= rules_map(s).insert(k, rv));
                }
            },
        }
        Ok(())
    }

    /// Removes the rule of application `app`; an unknown name is no error
    /// and leaves the store as it was.
    pub fn remove(&mut self, app: &String)
        requires
            old(self).wf(),
        ensures
            final(self).wf(),
            final(self)@ == old(self)@.remove(app@),
    {
        let ghost s = self.rules@;
        let ghost k = app@;
        match self.find(app) {
            Some(i) => {
                self.rules.remove(i);
                let ghost t = self.rules@;
                assert(t == s.remove(i as int));
                proof {
                    assert forall|a: int, b: int|
                        0 <= a < t.len() && 0 <= b < t.len() && t[a].app_name@ == t[b].app_name@
                        implies a == b by {
                        let a2 = if a < i { a } else { a + 1 };
                        let b2 = if b < i { b } else { b + 1 };
                        assert(s[a2].app_name@ == s[b2].app_name@);
                    }
                    assert forall|q: Seq<char>| #[trigger] has_app(t, q) == (has_app(s, q) && q != k) by {
                        if has_app(s, q) && q != k {
                            let j = choose|j: int| 0 <= j < s.len() && s[j].app_name@ == q;
                            assert(j != i);
                            if j < i {
                                assert(t[j].app_name@ == q);
                            } else {
                                assert(t[j - 1].app_name@ == q);
                            }
                        }
                        if has_app(t, q) {
                            let j = choose|j: int| 0 <= j < t.len() && t[j].app_name@ == q;
                            if j < i {
                                assert(s[j].app_name@ == q);
                            } else {
                                assert(s[j + 1].app_name@ == q);
                                assert(j + 1 != i);
                            }
                        }
                    }
                    assert forall|q: Seq<char>| q != k && has_app(t, q) implies
                        #[trigger] rules_map(t)[q] == rules_map(s)[q] by {
                        let j = choose|j: int| 0 <= j < t.len() && t[j].app_name@ == q;
                        lemma_lookup(t, j);
                        if j < i {
                            lemma_lookup(s, j);
                        } else {
                            lemma_lookup(s, j + 1);
                        }
                    }
                    assert(rules_map(t) =~= rules_map(s).remove(k));
                }
            },
            None => {
                assert(rules_map(s) =~= rules_map(s).remove(k));
            },
        }
    }
}

} // verus!
