//! Fleet policy enforcement: admin-defined rules that decide whether a tool call
//! runs without asking, needs approval, or is refused, and which health
//! categories are checked and healed.
use vstd::prelude::*;

use crate::json::{field_lookup, fields_get, spec_get, str_field, Json};
use crate::text::{chars_of, ends_with, ends_with_exec, starts_with, starts_with_exec, str_eq};

verus! {

/// The effect a safety rule can produce.
#[derive(Debug, Clone, Copy, PartialEq, Eq, Structural)]
pub enum SafetyEffect {
    /// Execute without asking the user.
    AutoApprove,
    /// Show the approval modal.
    RequireApproval,
    /// Refuse to execute.
    Block,
}

/// A single policy rule delivered from the fleet.
#[derive(Debug)]
pub struct PolicyRule {
    /// `"safety"` or `"health"`.
    pub rule_type: String,
    pub selector: String,
    pub effect: String,
    /// Extra conditions, as a JSON object's fields.
    pub condition: Option<Vec<(String, Json)>>,
}

/// The full policy blob from the fleet checkin response.
#[derive(Debug)]
pub struct FleetPolicy {
    pub version: u32,
    pub rules: Vec<PolicyRule>,
}

/// How restrictive an effect is: Block > RequireApproval > AutoApprove.
pub open spec fn spec_restrictiveness(e: SafetyEffect) -> int {
    match e {
        SafetyEffect::AutoApprove => 1,
        SafetyEffect::RequireApproval => 2,
        SafetyEffect::Block => 3,
    }
}

/// The more restrictive of the current effect (if any) and a new one.
pub open spec fn spec_most_restrictive(current: Option<SafetyEffect>, new: SafetyEffect) -> SafetyEffect {
    match current {
        None => new,
        Some(cur) => if spec_restrictiveness(new) > spec_restrictiveness(cur) {
            new
        } else {
            cur
        },
    }
}

/// A selector names a tool: `*`, the exact name, or a prefix followed by `*`.
pub open spec fn spec_selector_matches(selector: Seq<char>, tool_name: Seq<char>) -> bool {
    ||| selector == "*"@
    ||| selector == tool_name
    ||| (ends_with(selector, "*"@) && starts_with(tool_name, selector.drop_last()))
}

/// A command pattern matches a command: with a trailing `*`, the command starts
/// with the pattern's text before the `*`; otherwise they are equal.
pub open spec fn spec_command_glob_match(pattern: Seq<char>, command: Seq<char>) -> bool {
    if ends_with(pattern, "*"@) {
        starts_with(command, pattern.drop_last())
    } else {
        command == pattern
    }
}

/// A rule's condition holds for a tool input. Only a string `command_pattern`
/// constrains the call: it must match the input's string `command`.
pub open spec fn spec_condition_matches(cond: Seq<(String, Json)>, tool_input: Json) -> bool {
    match field_lookup(cond, "command_pattern"@) {
        Some(Json::Str(pattern)) => match str_field(tool_input, "command"@) {
            Some(command) => spec_command_glob_match(pattern@, command),
            None => false,
        },
        _ => true,
    }
}

/// The effect named by a rule's effect string.
pub open spec fn spec_parse_effect(effect: Seq<char>) -> Option<SafetyEffect> {
    if effect == "auto_approve"@ {
        Some(SafetyEffect::AutoApprove)
    } else if effect == "require_approval"@ {
        Some(SafetyEffect::RequireApproval)
    } else if effect == "block"@ {
        Some(SafetyEffect::Block)
    } else {
        None
    }
}

/// The effect one rule contributes to a tool call, if it applies.
pub open spec fn rule_effect(rule: PolicyRule, tool_name: Seq<char>, tool_input: Json) -> Option<
    SafetyEffect,
> {
    if rule.rule_type@ == "safety"@ && spec_selector_matches(rule.selector@, tool_name) && (
    match rule.condition {
        Some(c) => spec_condition_matches(c@, tool_input),
        None => true,
    }) {
        spec_parse_effect(rule.effect@)
    } else {
        None
    }
}

/// The effects of the first `n` rules, combined from left to right.
pub open spec fn combined_effect(rules: Seq<PolicyRule>, tool_name: Seq<char>, tool_input: Json) -> Option<
    SafetyEffect,
>
    decreases rules.len(),
{
    if rules.len() == 0 {
        None
    } else {
        let before = combined_effect(rules.drop_last(), tool_name, tool_input);
        match rule_effect(rules.last(), tool_name, tool_input) {
            Some(e) => Some(spec_most_restrictive(before, e)),
            None => before,
        }
    }
}

/// How restrictive an effect is.
pub fn restrictiveness(e: SafetyEffect) -> (r: u8)
    ensures
        r as int == spec_restrictiveness(e),
{
    match e {
        SafetyEffect::AutoApprove => 1,
        SafetyEffect::RequireApproval => 2,
        SafetyEffect::Block => 3,
    }
}

/// The more restrictive of the current effect (if any) and a new one.
pub fn most_restrictive_safety(current: Option<SafetyEffect>, new: SafetyEffect) -> (r: SafetyEffect)
    ensures
        r == spec_most_restrictive(current, new),
{
    match current {
        None => new,
        Some(SafetyEffect::Block) => SafetyEffect::Block,
        Some(cur) => {
            if restrictiveness(new) > restrictiveness(cur) {
                new
            } else {
                cur
            }
        },
    }
}

fn drop_last_char(v: &Vec<char>) -> (w: Vec<char>)
    requires
        v.len() > 0,
    ensures
        w@ == v@.drop_last(),
{
    let mut w: Vec<char> = Vec::new();
    let mut i: usize = 0;
    while i + 1 < v.len()
        invariant
            v.len() > 0,
            i + 1 <= v.len(),
            w@ == v@.subrange(0, i as int),
        decreases v.len() - i,
    {
        w.push(v[i]);
        i += 1;
        assert(w@ =~= v@.subrange(0, i as int));
    }
    w
}

/// Whether a selector names the tool.
pub fn selector_matches(selector: &str, tool_name: &str) -> (b: bool)
    ensures
        b == spec_selector_matches(selector@, tool_name@),
{
    if str_eq(selector, "*") {
        return true;
    }
    if str_eq(selector, tool_name) {
        return true;
    }
    let sv = chars_of(selector);
    let star = chars_of("*");
    proof {
        reveal_strlit("*");
    }
    if ends_with_exec(&sv, &star) {
        let prefix = drop_last_char(&sv);
        let tv = chars_of(tool_name);
        return starts_with_exec(&tv, &prefix);
    }
    false
}

/// Simple glob: `sudo *` matches any command starting with `sudo `, `ls*`
/// any command starting with `ls`, and a pattern without `*` only itself.
pub fn command_glob_match(pattern: &str, command: &str) -> (b: bool)
    ensures
        b == spec_command_glob_match(pattern@, command@),
{
    let pv = chars_of(pattern);
    let cv = chars_of(command);
    let star = chars_of("*");
    proof {
        reveal_strlit("*");
    }
    if ends_with_exec(&pv, &star) {
        let prefix = drop_last_char(&pv);
        starts_with_exec(&cv, &prefix)
    } else {
        str_eq(command, pattern)
    }
}

/// Whether a rule's condition holds for the tool input.
pub fn condition_matches(cond: &Vec<(String, Json)>, tool_input: &Json) -> (b: bool)
    ensures
        b == spec_condition_matches(cond@, *tool_input),
{
    match fields_get(cond, "command_pattern") {
        Some(Json::Str(pattern)) => match tool_input.str_field("command") {
            Some(command) => command_glob_match(pattern.as_str(), command),
            None => false,
        },
        _ => true,
    }
}

fn parse_effect(effect: &str) -> (r: Option<SafetyEffect>)
    ensures
        r == spec_parse_effect(effect@),
{
    if str_eq(effect, "auto_approve") {
        Some(SafetyEffect::AutoApprove)
    } else if str_eq(effect, "require_approval") {
        Some(SafetyEffect::RequireApproval)
    } else if str_eq(effect, "block") {
        Some(SafetyEffect::Block)
    } else {
        None
    }
}

fn rule_effect_exec(rule: &PolicyRule, tool_name: &str, tool_input: &Json) -> (r: Option<SafetyEffect>)
    ensures
        r == rule_effect(*rule, tool_name@, *tool_input),
{
    if !str_eq(rule.rule_type.as_str(), "safety") {
        return None;
    }
    if !selector_matches(rule.selector.as_str(), tool_name) {
        return None;
    }
    match &rule.condition {
        Some(c) => {
            if !condition_matches(c, tool_input) {
                return None;
            }
        },
        None => {},
    }
    parse_effect(rule.effect.as_str())
}

/// Some rule of the list contributes an effect to the call.
pub open spec fn some_rule_applies(rules: Seq<PolicyRule>, tool_name: Seq<char>, tool_input: Json) -> bool {
    exists|i: int| 0 <= i < rules.len() && rule_effect(#[trigger] rules[i], tool_name, tool_input) is Some
}

/// The combined effect is absent exactly when no rule applies; otherwise it
/// is one of the rules' effects, and no rule's effect is more restrictive.
pub proof fn lemma_combined_effect_is_max(rules: Seq<PolicyRule>, tool_name: Seq<char>, tool_input: Json)
    ensures
        combined_effect(rules, tool_name, tool_input) is None <==> !some_rule_applies(
            rules,
            tool_name,
            tool_input,
        ),
        combined_effect(rules, tool_name, tool_input) matches Some(e) ==> {
            &&& exists|i: int|
                0 <= i < rules.len() && rule_effect(#[trigger] rules[i], tool_name, tool_input)
                    == Some(e)
            &&& forall|i: int|
                0 <= i < rules.len() && rule_effect(#[trigger] rules[i], tool_name, tool_input)
                    is Some ==> spec_restrictiveness(
                    rule_effect(rules[i], tool_name, tool_input).unwrap(),
                ) <= spec_restrictiveness(e)
        },
    decreases rules.len(),
{
    if rules.len() > 0 {
        let init = rules.drop_last();
        lemma_combined_effect_is_max(init, tool_name, tool_input);
        assert forall|i: int| 0 <= i < init.len() implies #[trigger] init[i] == rules[i] by {}
        let last = rules.len() - 1;
        assert(rules[last] == rules.last());
        if some_rule_applies(rules, tool_name, tool_input) {
            let w = choose|i: int|
                0 <= i < rules.len() && rule_effect(#[trigger] rules[i], tool_name, tool_input) is Some;
            if w < last {
                assert(init[w] == rules[w]);
            }
        }
        if some_rule_applies(init, tool_name, tool_input) {
            let w = choose|i: int|
                0 <= i < init.len() && rule_effect(#[trigger] init[i], tool_name, tool_input) is Some;
            assert(rules[w] == init[w]);
        }
        match combined_effect(rules, tool_name, tool_input) {
            Some(e) => {
                match combined_effect(init, tool_name, tool_input) {
                    Some(b) => {
                        let wb = choose|i: int|
                            0 <= i < init.len() && rule_effect(#[trigger] init[i], tool_name, tool_input)
                                == Some(b);
                        assert(rules[wb] == init[wb]);
                    },
                    None => {},
                }
                assert forall|i: int|
                    0 <= i < rules.len() && rule_effect(#[trigger] rules[i], tool_name, tool_input)
                        is Some implies spec_restrictiveness(
                    rule_effect(rules[i], tool_name, tool_input).unwrap(),
                ) <= spec_restrictiveness(e) by {
                    if i < last {
                        assert(init[i] == rules[i]);
                    }
                }
            },
            None => {},
        }
    }
}

/// Resolve the safety effect for a tool call, if any policy rule matches.
///
/// A rule applies when its type is `safety`, its selector names the tool
/// (exact name, `prefix*`, or `*`), its condition (if any) holds for the
/// input, and its effect is one of `auto_approve`, `require_approval`,
/// `block`. When several rules apply, the most restrictive effect wins:
/// Block > RequireApproval > AutoApprove. `None` when no rule applies.
pub fn resolve_safety_effect(policy: &FleetPolicy, tool_name: &str, tool_input: &Json) -> (r: Option<
    SafetyEffect,
>)
    ensures
        r == combined_effect(policy.rules@, tool_name@, *tool_input),
        r is None <==> !some_rule_applies(policy.rules@, tool_name@, *tool_input),
        r matches Some(e) ==> exists|i: int|
            0 <= i < policy.rules@.len() && rule_effect(
                #[trigger] policy.rules@[i],
                tool_name@,
                *tool_input,
            ) == Some(e),
        r matches Some(e) ==> forall|i: int|
            0 <= i < policy.rules@.len() && rule_effect(
                #[trigger] policy.rules@[i],
                tool_name@,
                *tool_input,
            ) is Some ==> spec_restrictiveness(
                rule_effect(policy.rules@[i], tool_name@, *tool_input).unwrap(),
            ) <= spec_restrictiveness(e),
{
    let rules = &policy.rules;
    let mut best: Option<SafetyEffect> = None;
    let mut i: usize = 0;
    while i < rules.len()
        invariant
            i <= rules@.len(),
            best == combined_effect(rules@.subrange(0, i as int), tool_name@, *tool_input),
        decreases rules@.len() - i,
    {
        let ghost prev = rules@.subrange(0, i as int);
        let ghost next = rules@.subrange(0, i + 1);
        assert(next.drop_last() =~= prev);
        assert(next.last() == rules@[i as int]);
        match rule_effect_exec(&rules[i], tool_name, tool_input) {
            Some(effect) => {
                best = Some(most_restrictive_safety(best, effect));
            },
            None => {},
        }
        i += 1;
    }
    assert(rules@.subrange(0, rules@.len() as int) =~= rules@);
    proof {
        lemma_combined_effect_is_max(rules@, tool_name@, *tool_input);
    }
    best
}

/// The first health rule for a category.
pub open spec fn health_rule(rules: Seq<PolicyRule>, category: Seq<char>) -> Option<PolicyRule>
    decreases rules.len(),
{
    if rules.len() == 0 {
        None
    } else if rules[0].rule_type@ == "health"@ && rules[0].selector@ == category {
        Some(rules[0])
    } else {
        health_rule(rules.drop_first(), category)
    }
}

fn find_health_rule<'a>(rules: &'a Vec<PolicyRule>, category: &str) -> (r: Option<&'a PolicyRule>)
    ensures
        r matches Some(rule) ==> health_rule(rules@, category@) == Some(*rule),
        r is None ==> health_rule(rules@, category@) is None,
{
    let mut i: usize = 0;
    assert(rules@.subrange(0, rules@.len() as int) =~= rules@);
    while i < rules.len()
        invariant
            i <= rules@.len(),
            health_rule(rules@, category@) == health_rule(
                rules@.subrange(i as int, rules@.len() as int),
                category@,
            ),
        decreases rules@.len() - i,
    {
        let ghost rest = rules@.subrange(i as int, rules@.len() as int);
        assert(rest[0] == rules@[i as int]);
        if str_eq(rules[i].rule_type.as_str(), "health") && str_eq(
            rules[i].selector.as_str(),
            category,
        ) {
            return Some(&rules[i]);
        }
        assert(rest.drop_first() =~= rules@.subrange(i + 1, rules@.len() as int));
        i += 1;
    }
    None
}

/// Check if a health category is enabled by policy: the first health rule
/// for the category decides (enabled unless its effect is `disable`).
/// `None` when no rule names the category (use the default).
pub fn is_category_enabled(policy: &FleetPolicy, category: &str) -> (r: Option<bool>)
    ensures
        r == (match health_rule(policy.rules@, category@) {
            Some(rule) => Some(rule.effect@ != "disable"@),
            None => None::<bool>,
        }),
{
    match find_health_rule(&policy.rules, category) {
        Some(rule) => Some(!str_eq(rule.effect.as_str(), "disable")),
        None => None,
    }
}

/// Check if auto-heal is enabled for a health category by policy: the first
/// health rule for the category decides (its effect is `auto_heal`).
/// `None` when no rule names the category (use the existing setting).
pub fn should_auto_heal(policy: &FleetPolicy, category: &str) -> (r: Option<bool>)
    ensures
        r == (match health_rule(policy.rules@, category@) {
            Some(rule) => Some(rule.effect@ == "auto_heal"@),
            None => None::<bool>,
        }),
{
    match find_health_rule(&policy.rules, category) {
        Some(rule) => Some(str_eq(rule.effect.as_str(), "auto_heal")),
        None => None,
    }
}

// ── Laws ──

/// The outcome of the most-restrictive choice is the new effect or the
/// current one, and is at least as restrictive as both.
pub proof fn law_most_restrictive_dominates(current: Option<SafetyEffect>, new: SafetyEffect)
    ensures
        spec_restrictiveness(spec_most_restrictive(current, new)) >= spec_restrictiveness(new),
        current matches Some(c) ==> spec_restrictiveness(spec_most_restrictive(current, new))
            >= spec_restrictiveness(c),
        spec_most_restrictive(current, new) == new || Some(spec_most_restrictive(current, new))
            == current,
{
}

/// Block is absorbing: once a Block rule applies, the outcome is Block.
pub proof fn law_block_wins(rules: Seq<PolicyRule>, tool_name: Seq<char>, tool_input: Json, i: int)
    requires
        0 <= i < rules.len(),
        rule_effect(rules[i], tool_name, tool_input) == Some(SafetyEffect::Block),
    ensures
        combined_effect(rules, tool_name, tool_input) == Some(SafetyEffect::Block),
{
    lemma_combined_effect_is_max(rules, tool_name, tool_input);
    assert(some_rule_applies(rules, tool_name, tool_input)) by {
        assert(rule_effect(rules[i], tool_name, tool_input) is Some);
    }
    let e = combined_effect(rules, tool_name, tool_input).unwrap();
    assert(spec_restrictiveness(SafetyEffect::Block) <= spec_restrictiveness(e));
}

/// The outcome does not depend on the order of the rules: two policies with
/// the same rules, in any order, resolve every call alike.
pub proof fn law_order_independent(
    rules1: Seq<PolicyRule>,
    rules2: Seq<PolicyRule>,
    tool_name: Seq<char>,
    tool_input: Json,
)
    requires
        rules1.to_multiset() == rules2.to_multiset(),
    ensures
        combined_effect(rules1, tool_name, tool_input) == combined_effect(rules2, tool_name, tool_input),
{
    lemma_combined_effect_is_max(rules1, tool_name, tool_input);
    lemma_combined_effect_is_max(rules2, tool_name, tool_input);
    rules1.to_multiset_ensures();
    rules2.to_multiset_ensures();
    // Every rule of one list is in the other.
    assert forall|i: int| 0 <= i < rules1.len() implies rules2.contains(#[trigger] rules1[i]) by {
        assert(rules1.to_multiset().count(rules1[i]) > 0);
    }
    assert forall|i: int| 0 <= i < rules2.len() implies rules1.contains(#[trigger] rules2[i]) by {
        assert(rules2.to_multiset().count(rules2[i]) > 0);
    }
    assert(some_rule_applies(rules1, tool_name, tool_input) == some_rule_applies(
        rules2,
        tool_name,
        tool_input,
    )) by {
        if some_rule_applies(rules1, tool_name, tool_input) {
            let w = choose|i: int|
                0 <= i < rules1.len() && rule_effect(#[trigger] rules1[i], tool_name, tool_input) is Some;
            assert(rules2.contains(rules1[w]));
            let j = choose|j: int| 0 <= j < rules2.len() && rules2[j] == rules1[w];
            assert(rule_effect(rules2[j], tool_name, tool_input) is Some);
        }
        if some_rule_applies(rules2, tool_name, tool_input) {
            let w = choose|i: int|
                0 <= i < rules2.len() && rule_effect(#[trigger] rules2[i], tool_name, tool_input) is Some;
            assert(rules1.contains(rules2[w]));
            let j = choose|j: int| 0 <= j < rules1.len() && rules1[j] == rules2[w];
            assert(rule_effect(rules1[j], tool_name, tool_input) is Some);
        }
    }
    if some_rule_applies(rules1, tool_name, tool_input) {
        let e1 = combined_effect(rules1, tool_name, tool_input).unwrap();
        let e2 = combined_effect(rules2, tool_name, tool_input).unwrap();
        let w1 = choose|i: int|
            0 <= i < rules1.len() && rule_effect(#[trigger] rules1[i], tool_name, tool_input) == Some(e1);
        let w2 = choose|i: int|
            0 <= i < rules2.len() && rule_effect(#[trigger] rules2[i], tool_name, tool_input) == Some(e2);
        assert(rules2.contains(rules1[w1]));
        let j1 = choose|j: int| 0 <= j < rules2.len() && rules2[j] == rules1[w1];
        assert(rule_effect(rules2[j1], tool_name, tool_input) == Some(e1));
        assert(rules1.contains(rules2[w2]));
        let j2 = choose|j: int| 0 <= j < rules1.len() && rules1[j] == rules2[w2];
        assert(rule_effect(rules1[j2], tool_name, tool_input) == Some(e2));
        assert(spec_restrictiveness(e1) <= spec_restrictiveness(e2));
        assert(spec_restrictiveness(e2) <= spec_restrictiveness(e1));
    }
}

/// Adding a rule never makes the outcome less restrictive.
pub proof fn law_adding_rule_is_monotone(
    rules: Seq<PolicyRule>,
    extra: PolicyRule,
    tool_name: Seq<char>,
    tool_input: Json,
)
    requires
        combined_effect(rules, tool_name, tool_input) is Some,
    ensures
        combined_effect(rules.push(extra), tool_name, tool_input) is Some,
        spec_restrictiveness(combined_effect(rules.push(extra), tool_name, tool_input).unwrap())
            >= spec_restrictiveness(combined_effect(rules, tool_name, tool_input).unwrap()),
{
    assert(rules.push(extra).drop_last() =~= rules);
}

} // verus!
