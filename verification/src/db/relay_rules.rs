//! The rules that select events for export to the backend relay.

use vstd::prelude::*;

verus! {

/// A rule that selects events for export.
#[derive(Debug, Clone)]
pub struct PublishRule {
    pub id: i64,
    pub enabled: bool,
    pub rule_type: String,
    pub rule_value: String,
    pub kinds_json: Option<String>,
    pub backfill_mode: String,
}

/// A stored rule as the database returns it: id, enabled flag, rule type,
/// rule value, kinds and backfill mode.
pub type RuleRow = (i64, i64, String, String, Option<String>, String);

/// The rule that a stored row holds: enabled when its flag is not zero.
pub open spec fn rule_of_row(rule: PublishRule, row: RuleRow) -> bool {
    &&& rule.id == row.0
    &&& rule.enabled == (row.1 != 0)
    &&& rule.rule_type == row.2
    &&& rule.rule_value == row.3
    &&& rule.kinds_json == row.4
    &&& rule.backfill_mode == row.5
}

fn clone_opt(o: &Option<String>) -> (r: Option<String>)
    ensures
        r == *o,
{
    match o {
        Some(s) => Some(s.clone()),
        None => None,
    }
}

/// The rules that the stored rows hold, in the rows' order.
pub fn rules_from_rows(rows: &Vec<RuleRow>) -> (rules: Vec<PublishRule>)
    ensures
        rules@.len() == rows@.len(),
        forall|i: int| 0 <= i < rows@.len() ==> rule_of_row(#[trigger] rules@[i], rows@[i]),
{
    let mut rules: Vec<PublishRule> = Vec::new();
    let mut i: usize = 0;
    while i < rows.len()
        invariant
            i <= rows@.len(),
            rules@.len() == i,
            forall|j: int| 0 <= j < i ==> rule_of_row(#[trigger] rules@[j], rows@[j]),
        decreases rows.len() - i,
    {
        let row = &rows[i];
        rules.push(PublishRule {
            id: row.0,
            enabled: row.1 != 0,
            rule_type: row.2.clone(),
            rule_value: row.3.clone(),
            kinds_json: clone_opt(&row.4),
            backfill_mode: row.5.clone(),
        });
        i = i + 1;
    }
    rules
}

} // verus!
