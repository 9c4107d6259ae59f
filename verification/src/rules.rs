//! The rule engine: whether a sequence of rules admits its subject on a
//! given platform.

use crate::meta::{Arch, FeatureRule, OsRule, Platform, Rule, RuleAction};
use crate::text::same_text;
use regex::Regex;
use vstd::prelude::*;

verus! {

/// Whether `regex::Regex::new` accepts the pattern.
pub uninterp spec fn regex_compiles(pattern: Seq<char>) -> bool;

/// Whether the regular expression compiled from the pattern matches anywhere
/// in the haystack, as `regex::Regex::is_match` reports it.
pub uninterp spec fn regex_is_match(pattern: Seq<char>, haystack: Seq<char>) -> bool;

/// What matching a release string against a version pattern gives: nothing
/// where the pattern does not compile.
pub open spec fn release_match(pattern: Seq<char>, release: Seq<char>) -> Option<bool> {
    if regex_compiles(pattern) {
        Some(regex_is_match(pattern, release))
    } else {
        None
    }
}

/// Whether a rule's architecture admits the current one. Only `x86` and
/// `arm` constrain; any other text holds everywhere.
pub open spec fn arch_holds(arch: Option<String>, current: Arch) -> bool {
    match arch {
        None => true,
        Some(a) => if a@ == "x86"@ {
            current == Arch::X86 || current == Arch::X64
        } else if a@ == "arm"@ {
            current == Arch::Arm
        } else {
            true
        },
    }
}

/// An operating-system predicate, given what matching the release string
/// gave. A pattern that did not compile constrains nothing.
pub open spec fn os_rule_verdict(
    rule: OsRule,
    platform: Platform,
    version_match: Option<bool>,
) -> bool {
    &&& arch_holds(rule.arch, platform.arch)
    &&& (rule.name matches Some(name) ==> name == platform.os)
    &&& (rule.version is Some ==> version_match != Some(false))
}

/// An operating-system predicate on a platform.
pub open spec fn os_rule_holds(rule: OsRule, platform: Platform) -> bool {
    os_rule_verdict(
        rule,
        platform,
        match rule.version {
            Some(pattern) => release_match(pattern@, platform.release@),
            None => None,
        },
    )
}

/// The truth value of a rule's predicate before its action is applied: the
/// operating-system predicate where there is one; else false where a feature
/// predicate is present; else true.
pub open spec fn rule_predicate(rule: Rule, platform: Platform) -> bool {
    match rule.os {
        Some(os) => os_rule_holds(os, platform),
        None => rule.features is None,
    }
}

/// The outcome of one rule: its predicate under `Allow`, the negation under
/// `Disallow`.
pub open spec fn rule_holds(rule: Rule, platform: Platform) -> bool {
    match rule.action {
        RuleAction::Allow => rule_predicate(rule, platform),
        RuleAction::Disallow => !rule_predicate(rule, platform),
    }
}

/// The outcome of a sequence of rules: every one of them holds.
pub open spec fn rules_hold(rules: Seq<Rule>, platform: Platform) -> bool {
    forall|i: int| 0 <= i < rules.len() ==> rule_holds(#[trigger] rules[i], platform)
}

/// Compiles the pattern with `regex::Regex::new` and, where that succeeds,
/// searches the haystack with `Regex::is_match`. Trusted: the result is
/// `None` exactly where the pattern is refused, and else what the search
/// reports.
#[verifier::external_body]
fn match_pattern(pattern: &str, haystack: &str) -> (r: Option<bool>)
    ensures
        r == (if regex_compiles(pattern@) {
            Some(regex_is_match(pattern@, haystack@))
        } else {
            None::<bool>
        }),
{
    match Regex::new(pattern) {
        Ok(regex) => Some(regex.is_match(haystack)),
        Err(_) => None,
    }
}

/// Whether a rule's architecture admits the current one.
pub fn arch_matches(arch: &Option<String>, current: Arch) -> (r: bool)
    ensures
        r == arch_holds(*arch, current),
{
    match arch {
        None => true,
        Some(a) => {
            if same_text(a.as_str(), "x86") {
                current == Arch::X86 || current == Arch::X64
            } else if same_text(a.as_str(), "arm") {
                current == Arch::Arm
            } else {
                true
            }
        },
    }
}

/// Decides an operating-system predicate once the release string has been
/// matched against the rule's version pattern. `version_match` is `None`
/// where the pattern did not compile, and is not read where the rule has no
/// pattern.
pub fn os_rule_outcome(rule: &OsRule, platform: &Platform, version_match: Option<bool>) -> (r: bool)
    ensures
        r == os_rule_verdict(*rule, *platform, version_match),
{
    if !arch_matches(&rule.arch, platform.arch) {
        return false;
    }
    if let Some(name) = &rule.name {
        if *name != platform.os {
            return false;
        }
    }
    if rule.version.is_some() {
        if let Some(matched) = version_match {
            if !matched {
                return false;
            }
        }
    }
    true
}

/// Evaluates an operating-system predicate on a platform.
pub fn parse_os_rule(rule: &OsRule, platform: &Platform) -> (r: bool)
    ensures
        r == os_rule_holds(*rule, *platform),
{
    let version_match = match &rule.version {
        Some(pattern) => match_pattern(pattern.as_str(), platform.release.as_str()),
        None => None,
    };
    os_rule_outcome(rule, platform, version_match)
}

/// Evaluates one rule on a platform.
pub fn parse_rule(rule: &Rule, platform: &Platform) -> (r: bool)
    ensures
        r == rule_holds(*rule, *platform),
{
    let result = if let Some(os) = &rule.os {
        parse_os_rule(os, platform)
    } else if rule.features.is_some() {
        false
    } else {
        true
    };
    match rule.action {
        RuleAction::Allow => result,
        RuleAction::Disallow => !result,
    }
}

/// Evaluates a sequence of rules on a platform: the conjunction of their
/// outcomes, which is true of no rules at all.
pub fn parse_rules(rules: &[Rule], platform: &Platform) -> (r: bool)
    ensures
        r == rules_hold(rules@, *platform),
        rules@.len() == 0 ==> r,
{
    let mut i: usize = 0;
    while i < rules.len()
        invariant
            i <= rules.len(),
            forall|j: int| 0 <= j < i ==> rule_holds(#[trigger] rules@[j], *platform),
        decreases rules.len() - i,
    {
        if !parse_rule(&rules[i], platform) {
            return false;
        }
        i += 1;
    }
    true
}

/// No rules admit everything.
pub proof fn lemma_no_rules_hold(platform: Platform)
    ensures
        rules_hold(Seq::<Rule>::empty(), platform),
{
}

/// Adding a rule to a sequence conjoins its outcome to the sequence's.
pub proof fn lemma_rules_hold_push(rules: Seq<Rule>, rule: Rule, platform: Platform)
    ensures
        rules_hold(rules.push(rule), platform) == (rules_hold(rules, platform) && rule_holds(
            rule,
            platform,
        )),
{
    let longer = rules.push(rule);
    if rules_hold(longer, platform) {
        assert(longer[rules.len() as int] == rule);
        assert forall|i: int| 0 <= i < rules.len() implies rule_holds(
            #[trigger] rules[i],
            platform,
        ) by {
            assert(longer[i] == rules[i]);
        }
    }
}

/// The rules of two sequences put together hold exactly where both
/// sequences hold.
pub proof fn lemma_rules_hold_concat(first: Seq<Rule>, second: Seq<Rule>, platform: Platform)
    ensures
        rules_hold(first + second, platform) == (rules_hold(first, platform) && rules_hold(
            second,
            platform,
        )),
{
    let both = first + second;
    if rules_hold(both, platform) {
        assert forall|i: int| 0 <= i < first.len() implies rule_holds(
            #[trigger] first[i],
            platform,
        ) by {
            assert(both[i] == first[i]);
        }
        assert forall|i: int| 0 <= i < second.len() implies rule_holds(
            #[trigger] second[i],
            platform,
        ) by {
            assert(both[first.len() + i] == second[i]);
        }
    }
}

/// A `Disallow` rule is the exact negation of the rule with the same
/// predicates under `Allow`, on every platform.
pub proof fn lemma_disallow_negates_allow(
    os: Option<OsRule>,
    features: Option<FeatureRule>,
    platform: Platform,
)
    ensures
        rule_holds(Rule { action: RuleAction::Disallow, os, features }, platform) == !rule_holds(
            Rule { action: RuleAction::Allow, os, features },
            platform,
        ),
{
}

} // verus!
