//! Dialplan rules as the administration service manages them.

use vstd::prelude::*;
use crate::text::{str_chars, chars_eq};

verus! {

/// A routing rule: calls matching `pattern` go to a destination, lower priority
/// first.
pub struct DialplanRule {
    pub id: i64,
    pub rule_name: String,
    pub pattern: String,
    pub destination_type: String,
    pub destination_target: String,
    pub priority: i64,
    pub is_active: i64,
}

pub struct CreateDialplanRuleRequest {
    pub rule_name: String,
    pub pattern: String,
    pub destination_type: String,
    pub destination_target: String,
    pub priority: Option<i64>,
}

pub struct UpdateDialplanRuleRequest {
    pub rule_name: Option<String>,
    pub pattern: Option<String>,
    pub destination_type: Option<String>,
    pub destination_target: Option<String>,
    pub priority: Option<i64>,
    pub is_active: Option<bool>,
}

/// The values stored for a new rule.
pub struct NewDialplanRule {
    pub rule_name: String,
    pub pattern: String,
    pub destination_type: String,
    pub destination_target: String,
    pub priority: i64,
}

/// The values stored for a new rule: those requested, priority 1 when none is given.
pub fn new_dialplan_rule_from(payload: CreateDialplanRuleRequest) -> (r: NewDialplanRule)
    ensures
        r.rule_name == payload.rule_name,
        r.pattern == payload.pattern,
        r.destination_type == payload.destination_type,
        r.destination_target == payload.destination_target,
        r.priority == match payload.priority {
            Some(p) => p,
            None => 1,
        },
{
    let priority = match payload.priority {
        Some(p) => p,
        None => 1,
    };
    NewDialplanRule {
        rule_name: payload.rule_name,
        pattern: payload.pattern,
        destination_type: payload.destination_type,
        destination_target: payload.destination_target,
        priority,
    }
}

/// The `is_active` column value an update sets: 1 or 0, or none to keep it.
pub fn active_column(is_active: Option<bool>) -> (r: Option<i64>)
    ensures
        r == match is_active {
            Some(b) => Some(if b { 1i64 } else { 0i64 }),
            None => None::<i64>,
        },
{
    match is_active {
        Some(b) => Some(if b { 1 } else { 0 }),
        None => None,
    }
}

/// Whether `rule` has this name and pattern.
pub open spec fn same_name_and_pattern(rule: DialplanRule, rule_name: Seq<char>, pattern: Seq<char>) -> bool {
    rule.rule_name@ == rule_name && rule.pattern@ == pattern
}

/// No two rules share their name and pattern.
pub open spec fn names_and_patterns_unique(rules: Seq<DialplanRule>) -> bool {
    forall|i: int, j: int|
        0 <= i < rules.len() && 0 <= j < rules.len() && i != j ==> !same_name_and_pattern(
            #[trigger] rules[i],
            (#[trigger] rules[j]).rule_name@,
            rules[j].pattern@,
        )
}

/// Whether a rule with this name and pattern exists already; a new rule that
/// duplicates one is refused.
pub fn rule_exists(rules: &Vec<DialplanRule>, rule_name: &str, pattern: &str) -> (r: bool)
    ensures
        r == exists|i: int| 0 <= i < rules@.len() && same_name_and_pattern(#[trigger] rules@[i], rule_name@, pattern@),
{
    let name = str_chars(rule_name);
    let pat = str_chars(pattern);
    let mut i: usize = 0;
    while i < rules.len()
        invariant
            i <= rules@.len(),
            name@ == rule_name@,
            pat@ == pattern@,
            forall|k: int| 0 <= k < i ==> !same_name_and_pattern(#[trigger] rules@[k], rule_name@, pattern@),
        decreases rules@.len() - i,
    {
        let same = chars_eq(&str_chars(rules[i].rule_name.as_str()), &name) && chars_eq(
            &str_chars(rules[i].pattern.as_str()),
            &pat,
        );
        if same {
            assert(same_name_and_pattern(rules@[i as int], rule_name@, pattern@));
            return true;
        }
        i = i + 1;
    }
    false
}

} // verus!
