//! Categories of the errors that the console reports.
use vstd::prelude::*;

use crate::text::{chars_of, contains_lit, contains_seq};

verus! {

#[derive(Debug, Clone, Copy, PartialEq, Eq, Structural)]
pub enum ErrorCategory {
    Collector,
    Helper,
    Policy,
    Config,
    Runtime,
}

impl ErrorCategory {
    pub open spec fn name(self) -> Seq<char> {
        match self {
            ErrorCategory::Collector => "collector"@,
            ErrorCategory::Helper => "helper"@,
            ErrorCategory::Policy => "policy"@,
            ErrorCategory::Config => "config"@,
            ErrorCategory::Runtime => "runtime"@,
        }
    }

    pub fn as_str(self) -> (r: &'static str)
        ensures
            r@ == self.name(),
    {
        match self {
            ErrorCategory::Collector => "collector",
            ErrorCategory::Helper => "helper",
            ErrorCategory::Policy => "policy",
            ErrorCategory::Config => "config",
            ErrorCategory::Runtime => "runtime",
        }
    }
}

/// The category of a failed action, read from its message: a policy
/// denial first, then a helper failure, a collector failure, a profile or
/// configuration problem, and otherwise a runtime error.
pub open spec fn spec_classify(m: Seq<char>) -> ErrorCategory {
    if contains_seq(m, "policy denied"@) {
        ErrorCategory::Policy
    } else if contains_seq(m, "Helper error"@) || contains_seq(m, "helper"@) {
        ErrorCategory::Helper
    } else if contains_seq(m, "Collector error"@) {
        ErrorCategory::Collector
    } else if contains_seq(m, "profile"@) || contains_seq(m, "config"@) {
        ErrorCategory::Config
    } else {
        ErrorCategory::Runtime
    }
}

pub fn classify_action_error(message: &str) -> (r: ErrorCategory)
    ensures
        r == spec_classify(message@),
{
    let m = chars_of(message);
    if contains_lit(&m, "policy denied") {
        ErrorCategory::Policy
    } else if contains_lit(&m, "Helper error") || contains_lit(&m, "helper") {
        ErrorCategory::Helper
    } else if contains_lit(&m, "Collector error") {
        ErrorCategory::Collector
    } else if contains_lit(&m, "profile") || contains_lit(&m, "config") {
        ErrorCategory::Config
    } else {
        ErrorCategory::Runtime
    }
}

} // verus!
