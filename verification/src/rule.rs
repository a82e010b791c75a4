//! The rule language: one line of text names one rule.

use crate::engine::{
    caps_decision, ensure_nocaps, ensure_nonewprivs, ensure_noread, ensure_nowrite, nnp_decision,
    noread_decision, nowrite_decision,
};
use crate::paths::{is_relative, relative_spec};
use crate::probe::AccessOutcome;
use crate::report::{
    is_caps_report, is_nnp_report, is_read_report, is_write_report, report_penalty, EnvError,
    Event, Report,
};
use crate::score::Score;
use crate::text::{has_prefix, starts_with_str, str_eq_str, suffix_from};
use crate::utils::{expand_spec, expand_tilde};
use vstd::prelude::*;

verus! {

/// One audit rule. Paths are stored as given, after tilde expansion;
/// relative paths are kept but flagged at check time.
#[derive(Debug, Clone, PartialEq, Eq, Hash)]
pub enum Rule {
    /// Assert that the capability bounding set is empty.
    Caps,
    /// Assert that the no-new-privileges flag is set.
    NewPrivs,
    /// Emit an informational message; never scored.
    Print(String),
    /// Assert that the path cannot be read.
    Read(String),
    /// Assert that the path cannot be written, nor created.
    Write(String),
}

/// A line that names no rule.
#[derive(Debug, Clone)]
pub struct ParseError {
    /// The offending line, verbatim.
    pub line: String,
}

impl ParseError {
    /// A human-readable description of the error.
    pub fn message(&self) -> (r: String)
        ensures
            r@ == "Invalid rule: "@ + self.line@,
    {
        let mut r = "Invalid rule: ".to_owned();
        r.append(self.line.as_str());
        r
    }
}

/// The lines that parse as a rule.
pub open spec fn line_is_valid(s: Seq<char>) -> bool {
    s == "caps"@ || s == "newprivs"@ || has_prefix(s, "print "@) || has_prefix(s, "read "@)
        || has_prefix(s, "write "@)
}

/// The scoring weight a rule line carries: two for the capability-class
/// rules, one for the path rules, nothing for `print` or an invalid line.
pub open spec fn line_weight(s: Seq<char>) -> int {
    if s == "caps"@ || s == "newprivs"@ {
        2
    } else if has_prefix(s, "read "@) || has_prefix(s, "write "@) {
        1
    } else {
        0
    }
}

impl Rule {
    /// The scoring weight of the rule.
    pub open spec fn weight(self) -> u16 {
        match self {
            Rule::Caps => 2,
            Rule::NewPrivs => 2,
            Rule::Print(_) => 0,
            Rule::Read(_) => 1,
            Rule::Write(_) => 1,
        }
    }

    /// Parses one line into a rule. `home` is the invoking user's home
    /// directory, used for tilde expansion of `read`/`write` arguments.
    ///
    /// Every line yields either the one rule its keyword names or a parse
    /// error carrying the line; no input is rejected in any other way.
    pub fn from_str(s: &str, home: &str) -> (r: Result<Rule, ParseError>)
        ensures
            s@ == "caps"@ ==> r == Ok::<Rule, ParseError>(Rule::Caps),
            s@ == "newprivs"@ ==> r == Ok::<Rule, ParseError>(Rule::NewPrivs),
            has_prefix(s@, "print "@) ==> (r matches Ok(Rule::Print(m)) && m@ == s@.skip(6)),
            has_prefix(s@, "read "@) ==> (r matches Ok(Rule::Read(p)) && p@ == expand_spec(
                s@.skip(5),
                home@,
            )),
            has_prefix(s@, "write "@) ==> (r matches Ok(Rule::Write(p)) && p@ == expand_spec(
                s@.skip(6),
                home@,
            )),
            (r matches Err(_)) <==> !line_is_valid(s@),
            r matches Err(e) ==> e.line@ == s@,
            r matches Ok(rule) ==> rule.weight() as int == line_weight(s@),
    {
        proof {
            lemma_keyword_shapes();
        }
        if str_eq_str(s, "caps") {
            Ok(Rule::Caps)
        } else if str_eq_str(s, "newprivs") {
            proof {
                if has_prefix(s@, "print "@) {
                    lemma_prefix_first_char(s@, "print "@);
                }
                if has_prefix(s@, "read "@) {
                    lemma_prefix_first_char(s@, "read "@);
                }
                if has_prefix(s@, "write "@) {
                    lemma_prefix_first_char(s@, "write "@);
                }
            }
            Ok(Rule::NewPrivs)
        } else if starts_with_str(s, "print ") {
            proof {
                lemma_prefix_first_char(s@, "print "@);
                if has_prefix(s@, "read "@) {
                    lemma_prefix_first_char(s@, "read "@);
                }
                if has_prefix(s@, "write "@) {
                    lemma_prefix_first_char(s@, "write "@);
                }
            }
            let m = suffix_from(s, 6);
            Ok(Rule::Print(m.to_owned()))
        } else if starts_with_str(s, "read ") {
            proof {
                lemma_prefix_first_char(s@, "read "@);
                if has_prefix(s@, "write "@) {
                    lemma_prefix_first_char(s@, "write "@);
                }
            }
            let p = suffix_from(s, 5);
            Ok(Rule::Read(expand_tilde(p, home)))
        } else if starts_with_str(s, "write ") {
            proof {
                lemma_prefix_first_char(s@, "write "@);
            }
            let p = suffix_from(s, 6);
            Ok(Rule::Write(expand_tilde(p, home)))
        } else {
            Err(ParseError { line: s.to_owned() })
        }
    }

    /// Checks the rule against the live process and filesystem state.
    ///
    /// The rule's weight is added to the score before the probe; the
    /// penalty of a non-compliant report is added after it. A `print`
    /// rule only echoes its text and leaves the score untouched. The one
    /// fatal outcome is a capability state that cannot be read or lacks
    /// the bounding-set field.
    pub fn check(&self, score: &mut Score, real_home: bool) -> (r: Result<Event, EnvError>)
        requires
            old(score).wf(),
            old(score).spec_max() + self.weight() <= u16::MAX,
        ensures
            final(score).wf(),
            final(score).spec_max() == old(score).spec_max() + self.weight(),
            self matches Rule::Print(_) ==> *final(score) == *old(score),
            !(self matches Rule::Print(_)) ==> final(score).weights() == old(
                score,
            ).weights().push(self.weight() as int),
            r matches Err(_) ==> final(score).spec_lost() == old(score).spec_lost(),
            r matches Ok(Event::Audited { report, .. }) ==> final(score).spec_lost() == old(
                score,
            ).spec_lost() + report_penalty(report),
            r matches Ok(Event::Announced(_)) ==> final(score).spec_lost() == old(
                score,
            ).spec_lost(),
            !(r matches Ok(Event::ParseFailed(_))),
            self matches Rule::Print(m) ==> (r matches Ok(Event::Announced(t)) && t@ == m@),
            self matches Rule::Caps ==> ((r matches Ok(ev) ==> (ev matches Event::Audited {
                report,
                path,
                warn_relative,
            } && is_caps_report(report) && (exists|st: Seq<char>| caps_decision(st) == Ok::<
                Report,
                EnvError,
            >(report)) && path@ == Seq::<char>::empty() && !warn_relative)) && (r matches Err(e)
                ==> e == EnvError::StatusUnreadable || (exists|st: Seq<char>| caps_decision(st)
                == Err::<Report, EnvError>(e)))),
            self matches Rule::NewPrivs ==> (r matches Ok(Event::Audited {
                report,
                path,
                warn_relative,
            }) && is_nnp_report(report) && (exists|flag: Option<bool>| report == nnp_decision(
                flag,
            )) && path@ == Seq::<char>::empty() && !warn_relative),
            self matches Rule::Read(p) ==> (r matches Ok(Event::Audited {
                report,
                path,
                warn_relative,
            }) && is_read_report(report) && (exists|o: AccessOutcome| report == noread_decision(
                o,
            )) && path@ == p@ && warn_relative == relative_spec(p@)),
            self matches Rule::Write(p) ==> (r matches Ok(Event::Audited {
                report,
                path,
                warn_relative,
            }) && is_write_report(report) && (exists|outs: Seq<AccessOutcome>, owned: bool|
                report == nowrite_decision(outs, true, owned, real_home)) && path@ == p@
                && warn_relative == relative_spec(p@)),
    {
        match self {
            Rule::Caps => {
                match ensure_nocaps(score) {
                    Ok(rep) => Ok(
                        Event::Audited { report: rep, path: String::new(), warn_relative: false },
                    ),
                    Err(e) => Err(e),
                }
            },
            Rule::NewPrivs => {
                let rep = ensure_nonewprivs(score);
                Ok(Event::Audited { report: rep, path: String::new(), warn_relative: false })
            },
            Rule::Print(m) => Ok(Event::Announced(m.clone())),
            Rule::Read(p) => {
                let rep = ensure_noread(p.as_str(), score);
                let warn = is_relative(p.as_str());
                Ok(Event::Audited { report: rep, path: p.clone(), warn_relative: warn })
            },
            Rule::Write(p) => {
                let walked = ensure_nowrite(p.as_str(), score, real_home);
                let warn = is_relative(p.as_str());
                Ok(Event::Audited { report: walked.0, path: p.clone(), warn_relative: warn })
            },
        }
    }
}

/// The lengths and first characters of the five rule keywords.
proof fn lemma_keyword_shapes()
    ensures
        "caps"@.len() == 4,
        "newprivs"@.len() == 8,
        "print "@.len() == 6,
        "read "@.len() == 5,
        "write "@.len() == 6,
        "caps"@[0] == 'c',
        "newprivs"@[0] == 'n',
        "print "@[0] == 'p',
        "read "@[0] == 'r',
        "write "@[0] == 'w',
{
    reveal_strlit("caps");
    reveal_strlit("newprivs");
    reveal_strlit("print ");
    reveal_strlit("read ");
    reveal_strlit("write ");
}

/// A string starts with the first character of any of its prefixes.
proof fn lemma_prefix_first_char(s: Seq<char>, p: Seq<char>)
    requires
        has_prefix(s, p),
        p.len() > 0,
    ensures
        s[0] == p[0],
{
    assert(s.subrange(0, p.len() as int)[0] == s[0]);
}

} // verus!
