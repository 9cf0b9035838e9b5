//! Simplification rule sets. They are cumulative: `tensor` includes
//! `algebra`, and `continuum` includes both.

use vstd::prelude::*;
use crate::error::{Error, ErrorModel};
use crate::text::{concat_str, str_eq};

verus! {

#[derive(Debug, Clone, Copy, PartialEq, Eq, PartialOrd, Ord)]
pub enum RuleSet {
    Algebra,
    Tensor,
    Continuum,
}

/// Position of a rule set in the cumulative chain.
pub open spec fn rank(r: RuleSet) -> nat {
    match r {
        RuleSet::Algebra => 0,
        RuleSet::Tensor => 1,
        RuleSet::Continuum => 2,
    }
}

/// The rule set a name denotes, if any.
pub open spec fn rule_set_named(name: Seq<char>) -> Option<RuleSet> {
    if name == "algebra"@ {
        Some(RuleSet::Algebra)
    } else if name == "tensor"@ {
        Some(RuleSet::Tensor)
    } else if name == "continuum"@ {
        Some(RuleSet::Continuum)
    } else {
        None
    }
}

pub open spec fn unknown_rule_set_message(name: Seq<char>) -> Seq<char> {
    "unknown rule set `"@ + name + "` (expected algebra, tensor, or continuum)"@
}

impl RuleSet {
    /// The rule set named `name`; any other name is an error.
    pub fn parse(name: &str) -> (r: Result<RuleSet, Error>)
        ensures
            match r {
                Ok(rs) => rule_set_named(name@) == Some(rs),
                Err(e) => rule_set_named(name@) is None && e@ == (ErrorModel {
                    message: unknown_rule_set_message(name@),
                    line: None,
                }),
            },
    {
        if str_eq(name, "algebra") {
            Ok(RuleSet::Algebra)
        } else if str_eq(name, "tensor") {
            Ok(RuleSet::Tensor)
        } else if str_eq(name, "continuum") {
            Ok(RuleSet::Continuum)
        } else {
            let mut m = concat_str("unknown rule set `", name);
            m.append("` (expected algebra, tensor, or continuum)");
            Err(Error::msg(m))
        }
    }

    /// Whether the rules of `other` are part of `self`.
    pub fn includes(self, other: RuleSet) -> (b: bool)
        ensures
            b == (rank(self) >= rank(other)),
    {
        match (self, other) {
            (RuleSet::Continuum, _) => true,
            (RuleSet::Tensor, RuleSet::Algebra) | (RuleSet::Tensor, RuleSet::Tensor) => true,
            (RuleSet::Algebra, RuleSet::Algebra) => true,
            _ => false,
        }
    }
}

/// Rule sets are cumulative: every set includes itself, inclusion is
/// transitive, `continuum` includes every set and `algebra` is included in
/// every set.
pub proof fn law_rule_sets_cumulative(a: RuleSet, b: RuleSet, c: RuleSet)
    ensures
        rank(a) >= rank(a),
        rank(a) >= rank(b) && rank(b) >= rank(c) ==> rank(a) >= rank(c),
        rank(RuleSet::Continuum) >= rank(a),
        rank(a) >= rank(RuleSet::Algebra),
        rank(a) >= rank(b) && rank(b) >= rank(a) ==> a == b,
{
}

} // verus!
