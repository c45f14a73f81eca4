use vstd::prelude::*;

use crate::request::Rule;
use crate::text::{eq_ignore_case, equals_ignore_case};

verus! {

/// A rule with the gateway method it serves.
#[derive(Debug)]
pub struct MethodRule {
    pub method: String,
    pub rule: Rule,
}

/// The rule of the first entry whose method equals `method` without case.
pub open spec fn first_match(s: Seq<MethodRule>, method: Seq<char>) -> Option<Rule>
    decreases s.len(),
{
    if s.len() == 0 {
        None
    } else if eq_ignore_case(s[0].method@, method) {
        Some(s[0].rule)
    } else {
        first_match(s.drop_first(), method)
    }
}

/// The rule table.
pub struct RuleEngine {
    rules: Vec<MethodRule>,
}

impl RuleEngine {
    pub closed spec fn view(&self) -> Seq<MethodRule> {
        self.rules@
    }

    pub fn new(rules: Vec<MethodRule>) -> (r: RuleEngine)
        ensures
            r@ == rules@,
    {
        RuleEngine { rules }
    }

    /// The rule for a gateway method: the first whose method matches without
    /// case.
    pub fn get_rule(&self, method: &str) -> (r: Option<Rule>)
        ensures
            r == first_match(self@, method@),
    {
        let mut i: usize = 0;
        assert(self@.subrange(0, self@.len() as int) =~= self@);
        while i < self.rules.len()
            invariant
                i <= self@.len(),
                first_match(self@, method@) == first_match(
                    self@.subrange(i as int, self@.len() as int),
                    method@,
                ),
            decreases self.rules.len() - i,
        {
            let ghost rest = self@.subrange(i as int, self@.len() as int);
            assert(rest.drop_first() =~= self@.subrange(i + 1, self@.len() as int));
            assert(rest[0] == self@[i as int]);
            if equals_ignore_case(self.rules[i].method.as_str(), method) {
                return Some(self.rules[i].rule.duplicate());
            }
            i = i + 1;
        }
        None
    }
}

} // verus!
