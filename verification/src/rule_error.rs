use vstd::prelude::*;
use vstd::string::*;

verus! {

/// Series of errors encountered when running rules on a file.
#[derive(Debug, Clone, PartialEq, Eq)]
pub enum RuleError {
    /// The rule with the specified name (group, rule) replaced the root of the
    /// file with a node that is not a valid root for that language.
    ReplacedRootWithNonRootError { rule_name: Option<(String, String)> },
}

/// The message of a rule that replaced the root, naming the rule as `group/rule`.
pub open spec fn named_rule_message(group: Seq<char>, rule: Seq<char>) -> Seq<char> {
    "the rule '"@ + group + "/"@ + rule + "' replaced the root of the file with a non-root node."@
}

/// The message of a code action, of no known rule, that replaced the root.
pub open spec fn anonymous_action_message() -> Seq<char> {
    "a code action replaced the root of the file with a non-root node."@
}

/// What the error reads as, for a user.
pub open spec fn rule_error_message(e: RuleError) -> Seq<char> {
    match e {
        RuleError::ReplacedRootWithNonRootError { rule_name: Some((group, rule)) } =>
            named_rule_message(group@, rule@),
        RuleError::ReplacedRootWithNonRootError { rule_name: None } => anonymous_action_message(),
    }
}

impl RuleError {
    /// The human-readable message of this error.
    pub fn message(&self) -> (msg: String)
        ensures
            msg@ == rule_error_message(*self),
    {
        match self {
            RuleError::ReplacedRootWithNonRootError { rule_name: Some((group, rule)) } => {
                let mut msg = String::from_str("the rule '");
                msg.append(group.as_str());
                msg.append("/");
                msg.append(rule.as_str());
                msg.append("' replaced the root of the file with a non-root node.");
                msg
            },
            RuleError::ReplacedRootWithNonRootError { rule_name: None } => {
                String::from_str("a code action replaced the root of the file with a non-root node.")
            },
        }
    }
}

} // verus!
