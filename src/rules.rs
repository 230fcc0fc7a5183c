//! Conditional allow/deny rules and their evaluation against a platform.

use vstd::prelude::*;

use crate::entries::{find_key, lookup};

verus! {

/// What a rule does when it applies.
#[derive(Clone, Copy, Debug, PartialEq, Eq, Structural)]
pub enum RuleAction {
    Allow,
    Deny,
}

/// The operating-system constraint of a rule.
#[derive(Clone, Debug)]
pub struct Platform {
    /// The operating system the rule is about; with none the constraint always holds.
    pub name: Option<String>,
    /// A regular expression searched for in the platform's version string.
    pub version: Option<String>,
}

/// One conditional clause of a rule list.
#[derive(Clone, Debug)]
pub struct Rule {
    pub action: RuleAction,
    pub os: Option<Platform>,
    /// Feature flags that must be set to the given values.
    pub features: Option<Vec<(String, bool)>>,
}

/// The platform a version is resolved for.
#[derive(Clone, Debug)]
pub struct PlatformInfo {
    /// Operating system name, such as `linux`, `windows` or `osx`.
    pub name: String,
    /// Operating system version string.
    pub version: String,
    /// Processor architecture.
    pub arch: String,
}

/// Whether `pattern` is accepted as a regular expression.
pub uninterp spec fn pattern_compiles(pattern: Seq<char>) -> bool;

/// Whether the regular expression `pattern` matches somewhere in `text`.
pub uninterp spec fn pattern_found_in(pattern: Seq<char>, text: Seq<char>) -> bool;

/// Relies on `regex::Regex::new`, which fails on a pattern that is not a valid
/// expression, and on `regex::Regex::is_match`, which tells whether the compiled
/// expression matches anywhere in the text. `None` when the pattern failed.
#[verifier::external_body]
fn search_pattern(pattern: &str, text: &str) -> (r: Option<bool>)
    ensures
        r is Some <==> pattern_compiles(pattern@),
        r matches Some(found) ==> found == pattern_found_in(pattern@, text@),
{
    match regex::Regex::new(pattern) {
        Ok(re) => Some(re.is_match(text)),
        Err(_) => None,
    }
}

/// An OS constraint holds when it names no system, or names the platform's
/// system and, if it has a version pattern, that pattern is valid and found
/// in the platform's version.
pub open spec fn os_matches(os: Option<Platform>, platform: PlatformInfo) -> bool {
    match os {
        None => true,
        Some(p) => match p.name {
            None => true,
            Some(name) => name@ == platform.name@ && match p.version {
                None => true,
                Some(v) => pattern_compiles(v@) && pattern_found_in(v@, platform.version@),
            },
        },
    }
}

/// Every required feature is present in `features` with the required value.
pub open spec fn features_match(
    required: Option<Vec<(String, bool)>>,
    features: Seq<(String, bool)>,
) -> bool {
    match required {
        None => true,
        Some(req) => forall|i: int|
            0 <= i < req.len() ==> lookup(features, #[trigger] req@[i].0@) == Some(req@[i].1),
    }
}

/// A rule applies when both its OS constraint and its feature constraint hold.
pub open spec fn rule_applies(
    rule: Rule,
    platform: PlatformInfo,
    features: Seq<(String, bool)>,
) -> bool {
    os_matches(rule.os, platform) && features_match(rule.features, features)
}

/// The decision after reading `rules` in order, starting from "denied": each
/// rule that applies replaces the decision with its own action, so the last
/// one that applies decides.
pub open spec fn last_decision(
    rules: Seq<Rule>,
    platform: PlatformInfo,
    features: Seq<(String, bool)>,
) -> bool
    decreases rules.len(),
{
    if rules.len() == 0 {
        false
    } else if rule_applies(rules.last(), platform, features) {
        rules.last().action == RuleAction::Allow
    } else {
        last_decision(rules.drop_last(), platform, features)
    }
}

/// An empty rule list allows; a non-empty one allows when its last applying
/// rule is an `Allow`.
pub open spec fn rules_allow(
    rules: Seq<Rule>,
    platform: PlatformInfo,
    features: Seq<(String, bool)>,
) -> bool {
    rules.len() == 0 || last_decision(rules, platform, features)
}

fn os_constraint_holds(os: &Option<Platform>, platform: &PlatformInfo) -> (r: bool)
    ensures
        r == os_matches(*os, *platform),
{
    match os {
        None => true,
        Some(p) => match &p.name {
            None => true,
            Some(name) => {
                if !(*name == platform.name) {
                    false
                } else {
                    match &p.version {
                        None => true,
                        Some(v) => match search_pattern(v.as_str(), platform.version.as_str()) {
                            Some(found) => found,
                            None => false,
                        },
                    }
                }
            },
        },
    }
}

fn feature_constraint_holds(
    required: &Option<Vec<(String, bool)>>,
    features: &Vec<(String, bool)>,
) -> (r: bool)
    ensures
        r == features_match(*required, features@),
{
    match required {
        None => true,
        Some(req) => {
            let n = req.len();
            let mut i: usize = 0;
            while i < n
                invariant
                    *required == Some(*req),
                    n == req.len(),
                    i <= n,
                    forall|j: int|
                        0 <= j < i ==> lookup(features@, #[trigger] req@[j].0@) == Some(
                            req@[j].1,
                        ),
                decreases n - i,
            {
                let holds = match find_key(features, &req[i].0) {
                    Some(k) => features[k].1 == req[i].1,
                    None => false,
                };
                if !holds {
                    assert(lookup(features@, req@[i as int].0@) != Some(req@[i as int].1));
                    return false;
                }
                i = i + 1;
            }
            true
        },
    }
}

/// Whether `rules` allow the platform with the given feature flags set.
pub fn check_allowed(
    rules: &Vec<Rule>,
    platform: &PlatformInfo,
    features: &Vec<(String, bool)>,
) -> (r: bool)
    ensures
        r == rules_allow(rules@, *platform, features@),
{
    let n = rules.len();
    if n == 0 {
        return true;
    }
    let mut allow = false;
    let mut i: usize = 0;
    while i < n
        invariant
            n == rules.len(),
            i <= n,
            allow == last_decision(rules@.take(i as int), *platform, features@),
        decreases n - i,
    {
        let rule = &rules[i];
        let applies = os_constraint_holds(&rule.os, platform) && feature_constraint_holds(
            &rule.features,
            features,
        );
        assert(rules@.take(i + 1).drop_last() =~= rules@.take(i as int));
        if applies {
            allow = rule.action == RuleAction::Allow;
        }
        i = i + 1;
    }
    assert(rules@.take(n as int) =~= rules@);
    allow
}

} // verus!

verus! {

/// An empty rule list allows every platform, whatever the feature flags.
pub proof fn lemma_no_rules_allow(platform: PlatformInfo, features: Seq<(String, bool)>)
    ensures
        rules_allow(Seq::empty(), platform, features),
{
}

} // verus!
