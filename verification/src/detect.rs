//! Detection rules and the engine that checks exported flows against them.
use vstd::prelude::*;
use crate::export::{ExportedFlow, string_views};

verus! {

/// The configuration of a detection rule, as far as the engine reads it. A rule's
/// confidence score and threshold parameters are kept with its serialised form.
pub struct RuleConfig {
    /// Rule ID.
    pub id: String,
    /// Rule name.
    pub name: String,
    /// Rule type (static, threshold, baseline).
    pub rule_type: String,
    /// Condition description.
    pub condition: String,
    /// Severity level.
    pub severity: String,
}

/// Whether the flow `flow` triggers the rule with ID `id`. Rules define no matching
/// condition yet, so no flow triggers any rule.
pub open spec fn rule_matches(id: Seq<char>, flow: ExportedFlow) -> bool {
    false
}

/// A detection rule.
pub struct Rule {
    pub config: RuleConfig,
}

impl Rule {
    /// Creates a rule from its configuration.
    pub fn new(config: RuleConfig) -> (r: Self)
        ensures
            r.config == config,
    {
        Rule { config }
    }

    /// Whether `flow` triggers this rule.
    pub fn check(&self, flow: &ExportedFlow) -> (b: bool)
        ensures
            b == rule_matches(self.config.id@, *flow),
    {
        false
    }
}

/// Detection engine for security events.
pub struct DetectionEngine {
    rules: Vec<Rule>,
}

impl DetectionEngine {
    /// The IDs of the engine's rules, in the order they were added.
    pub closed spec fn rule_ids(&self) -> Seq<Seq<char>> {
        self.rules@.map_values(|r: Rule| r.config.id@)
    }

    /// Creates an engine without rules.
    pub fn new() -> (e: Self)
        ensures
            e.rule_ids() == Seq::<Seq<char>>::empty(),
    {
        let e = DetectionEngine { rules: Vec::new() };
        assert(e.rule_ids() =~= Seq::<Seq<char>>::empty());
        e
    }

    /// Adds a rule after the existing ones.
    pub fn add_rule(&mut self, rule: Rule)
        ensures
            final(self).rule_ids() == old(self).rule_ids().push(rule.config.id@),
    {
        let ghost id = rule.config.id@;
        self.rules.push(rule);
        assert(self.rule_ids() =~= old(self).rule_ids().push(id));
    }

    /// The IDs of the rules that `flow` triggers, in the order the rules were added.
    pub fn check_flow(&self, flow: &ExportedFlow) -> (ids: Vec<String>)
        ensures
            string_views(ids@) == self.rule_ids().filter(|id: Seq<char>| rule_matches(id, *flow)),
    {
        let ghost pred = |id: Seq<char>| rule_matches(id, *flow);
        let mut ids: Vec<String> = Vec::new();
        let mut i: usize = 0;
        while i < self.rules.len()
            invariant
                i <= self.rules@.len(),
                pred == (|id: Seq<char>| rule_matches(id, *flow)),
                string_views(ids@) == self.rule_ids().take(i as int).filter(pred),
            decreases self.rules@.len() - i,
        {
            let rule = &self.rules[i];
            let ghost before = ids@;
            proof {
                let all = self.rule_ids();
                assert(all.take(i + 1).drop_last() =~= all.take(i as int));
                assert(all.take(i + 1).last() == rule.config.id@);
                reveal(Seq::filter);
            }
            if rule.check(flow) {
                let id = rule.config.id.clone();
                ids.push(id);
                assert(string_views(ids@) =~= string_views(before).push(id@));
            } else {
                assert(string_views(ids@) =~= string_views(before));
            }
            i = i + 1;
        }
        assert(self.rule_ids().take(self.rules@.len() as int) =~= self.rule_ids());
        ids
    }
}

impl Default for DetectionEngine {
    fn default() -> (e: Self)
        ensures
            e.rule_ids() == Seq::<Seq<char>>::empty(),
    {
        Self::new()
    }
}

} // verus!
