//! The audit engine: one check per rule kind, each probing the live
//! process or filesystem state and yielding a report, plus the driver
//! that takes a whole rule script through parsing, checking and scoring.

use crate::paths::{lemma_parent_shorter, parent_of, relative_spec};
use crate::probe::{
    decode_ascii, no_new_privs_flag, owner_matches, probe_access, read_small_file, AccessMode,
    AccessOutcome,
};
use crate::report::{
    is_caps_report, is_nnp_report, is_read_report, is_write_report, penalty_of, report_penalty,
    EnvError, Event, Report,
};
use crate::rule::{line_is_valid, line_weight, Rule};
use crate::score::{lemma_score_invariant, Score};
use crate::text::{has_prefix, starts_with_str, str_eq_str, suffix_from};
use crate::utils::expand_tilde;
use vstd::prelude::*;

verus! {

/// The number of characters before the first line break.
pub open spec fn line_len(s: Seq<char>) -> int
    decreases s.len(),
{
    if s.len() == 0 || s[0] == '\n' {
        0
    } else {
        1 + line_len(s.skip(1))
    }
}

/// A line is never longer than the text it starts.
pub proof fn lemma_line_len_bounds(s: Seq<char>)
    ensures
        0 <= line_len(s) <= s.len(),
    decreases s.len(),
{
    if s.len() != 0 && s[0] != '\n' {
        lemma_line_len_bounds(s.skip(1));
    }
}

/// If no line break lies before position `i`, the first line reaches at
/// least to `i`, and ends exactly there when `i` holds a break or the
/// text ends.
proof fn lemma_line_len_scan(s: Seq<char>, i: int)
    requires
        0 <= i <= s.len(),
        forall|j: int| 0 <= j < i ==> s[j] != '\n',
    ensures
        i == s.len() ==> line_len(s) == s.len(),
        i < s.len() && s[i] == '\n' ==> line_len(s) == i,
    decreases i,
{
    if i > 0 {
        assert forall|j: int| 0 <= j < i - 1 implies s.skip(1)[j] != '\n' by {
            assert(s.skip(1)[j] == s[j + 1]);
        }
        lemma_line_len_scan(s.skip(1), i - 1);
        if i < s.len() {
            assert(s.skip(1)[i - 1] == s[i]);
        }
    }
}

/// The number of characters before the first line break.
pub fn line_len_exec(s: &str) -> (n: usize)
    ensures
        n as int == line_len(s@),
{
    let len = s.unicode_len();
    let mut i: usize = 0;
    while i < len
        invariant
            i <= len,
            len == s@.len(),
            forall|j: int| 0 <= j < i ==> s@[j] != '\n',
        decreases len - i,
    {
        if s.get_char(i) == '\n' {
            proof {
                lemma_line_len_scan(s@, i as int);
            }
            return i;
        }
        i = i + 1;
    }
    proof {
        lemma_line_len_scan(s@, len as int);
    }
    len
}

/// What the capability state text says: the verdict of its first
/// `CapBnd:` line, or an error when no such line exists.
pub open spec fn caps_decision(s: Seq<char>) -> Result<Report, EnvError>
    decreases s.len(),
    via caps_decision_decreases
{
    if has_prefix(s, "CapBnd:"@) {
        if s.take(line_len(s)) == "CapBnd:\t0000000000000000"@ {
            Ok(Report::CapsEmpty)
        } else {
            Ok(Report::CapsNotEmpty)
        }
    } else if line_len(s) == s.len() {
        Err(EnvError::CapBndMissing)
    } else {
        caps_decision(s.skip(line_len(s) + 1))
    }
}

#[via_fn]
proof fn caps_decision_decreases(s: Seq<char>) {
    lemma_line_len_bounds(s);
}

/// A capability decision that succeeds names one of the two capability
/// reports.
pub proof fn lemma_caps_decision_shape(s: Seq<char>)
    ensures
        caps_decision(s) matches Ok(rep) ==> is_caps_report(rep),
    decreases s.len(),
{
    lemma_line_len_bounds(s);
    if !has_prefix(s, "CapBnd:"@) && line_len(s) < s.len() {
        lemma_caps_decision_shape(s.skip(line_len(s) + 1));
    }
}

/// Decides the capability check from the capability state text: the
/// first line naming the bounding set must show it empty.
pub fn caps_verdict(status: &str) -> (r: Result<Report, EnvError>)
    ensures
        r == caps_decision(status@),
    decreases status@.len(),
{
    let e = line_len_exec(status);
    proof {
        lemma_line_len_bounds(status@);
    }
    if starts_with_str(status, "CapBnd:") {
        let line = status.substring_char(0, e);
        proof {
            assert(line@ =~= status@.take(e as int));
        }
        if str_eq_str(line, "CapBnd:\t0000000000000000") {
            Ok(Report::CapsEmpty)
        } else {
            Ok(Report::CapsNotEmpty)
        }
    } else {
        if e == status.unicode_len() {
            Err(EnvError::CapBndMissing)
        } else {
            let rest = suffix_from(status, e + 1);
            caps_verdict(rest)
        }
    }
}

/// Checks that the capability bounding set is empty (major, weight two).
///
/// The weight is recorded before the probe; an unreadable or incomplete
/// capability state is a fatal environment error carrying no verdict.
pub fn ensure_nocaps(score: &mut Score) -> (r: Result<Report, EnvError>)
    requires
        old(score).wf(),
        old(score).spec_max() + 2 <= u16::MAX,
    ensures
        final(score).wf(),
        final(score).spec_max() == old(score).spec_max() + 2,
        final(score).weights() == old(score).weights().push(2),
        r matches Ok(rep) ==> is_caps_report(rep) && (exists|st: Seq<char>|
            caps_decision(st) == Ok::<Report, EnvError>(rep)) && final(score).spec_lost() == old(
            score,
        ).spec_lost() + report_penalty(rep),
        r matches Err(_) ==> final(score).spec_lost() == old(score).spec_lost(),
        r matches Err(e) ==> e == EnvError::StatusUnreadable || (exists|st: Seq<char>|
            caps_decision(st) == Err::<Report, EnvError>(e)),
{
    proof {
        lemma_score_invariant(*score);
    }
    score.add_max(2);
    let bytes = match read_small_file("/proc/self/status") {
        Some(b) => b,
        None => {
            return Err(EnvError::StatusUnreadable);
        },
    };
    let text = decode_ascii(&bytes);
    match caps_verdict(text.as_str()) {
        Ok(rep) => {
            proof {
                lemma_caps_decision_shape(text@);
                assert(caps_decision(text@) == Ok::<Report, EnvError>(rep));
            }
            let p = penalty_of(rep);
            proof {
                assert(report_penalty(rep) <= 2);
            }
            score.add_lost(p);
            Ok(rep)
        },
        Err(e) => {
            proof {
                assert(caps_decision(text@) == Err::<Report, EnvError>(e));
            }
            Err(e)
        },
    }
}

/// The report the no-new-privileges flag state yields.
pub open spec fn nnp_decision(flag: Option<bool>) -> Report {
    match flag {
        Some(true) => Report::NnpSet,
        Some(false) => Report::NnpClear,
        None => Report::NnpUnknown,
    }
}

/// The report the no-new-privileges flag state yields.
pub fn nnp_report(flag: Option<bool>) -> (r: Report)
    ensures
        r == nnp_decision(flag),
{
    match flag {
        Some(true) => Report::NnpSet,
        Some(false) => Report::NnpClear,
        None => Report::NnpUnknown,
    }
}

/// Checks that the no-new-privileges flag is set (major, weight two).
///
/// The weight is recorded before the probe; a failed query yields a
/// report without a verdict, so the weight stays unmatched by design.
pub fn ensure_nonewprivs(score: &mut Score) -> (r: Report)
    requires
        old(score).wf(),
        old(score).spec_max() + 2 <= u16::MAX,
    ensures
        final(score).wf(),
        final(score).spec_max() == old(score).spec_max() + 2,
        final(score).weights() == old(score).weights().push(2),
        final(score).spec_lost() == old(score).spec_lost() + report_penalty(r),
        is_nnp_report(r),
        exists|flag: Option<bool>| r == nnp_decision(flag),
{
    proof {
        lemma_score_invariant(*score);
    }
    score.add_max(2);
    let flag = no_new_privs_flag();
    let rep = nnp_report(flag);
    let p = penalty_of(rep);
    proof {
        assert(report_penalty(rep) <= 2);
    }
    score.add_lost(p);
    rep
}

/// The report a read probe outcome yields.
pub open spec fn noread_decision(o: AccessOutcome) -> Report {
    match o {
        AccessOutcome::Granted => Report::CanRead,
        AccessOutcome::Denied => Report::CannotRead,
        AccessOutcome::NotFound => Report::CannotReadAbsent,
        AccessOutcome::ReadOnlyFs => Report::ReadProbeFailed,
        AccessOutcome::Failed => Report::ReadProbeFailed,
    }
}

/// The report a read probe outcome yields.
pub fn noread_report(o: AccessOutcome) -> (r: Report)
    ensures
        r == noread_decision(o),
{
    match o {
        AccessOutcome::Granted => Report::CanRead,
        AccessOutcome::Denied => Report::CannotRead,
        AccessOutcome::NotFound => Report::CannotReadAbsent,
        AccessOutcome::ReadOnlyFs => Report::ReadProbeFailed,
        AccessOutcome::Failed => Report::ReadProbeFailed,
    }
}

/// Checks that `path` cannot be read (minor, weight one).
///
/// The weight is recorded before the probe; a failed probe yields a
/// report without a verdict, so the weight stays unmatched by design.
pub fn ensure_noread(path: &str, score: &mut Score) -> (r: Report)
    requires
        old(score).wf(),
        old(score).spec_max() + 1 <= u16::MAX,
    ensures
        final(score).wf(),
        final(score).spec_max() == old(score).spec_max() + 1,
        final(score).weights() == old(score).weights().push(1),
        final(score).spec_lost() == old(score).spec_lost() + report_penalty(r),
        is_read_report(r),
        exists|o: AccessOutcome| r == noread_decision(o),
{
    proof {
        lemma_score_invariant(*score);
    }
    score.add_max(1);
    let o = probe_access(path, AccessMode::Read);
    let rep = noread_report(o);
    let p = penalty_of(rep);
    proof {
        assert(report_penalty(rep) <= 1);
    }
    score.add_lost(p);
    rep
}

/// The report a sequence of write probe outcomes along the ancestor
/// chain yields. `first` says whether the next outcome concerns the
/// original path itself; `owned` whether that path exists and belongs to
/// the effective user; only a missing entry moves on to the next
/// ancestor.
pub open spec fn nowrite_decision(
    outs: Seq<AccessOutcome>,
    first: bool,
    owned: bool,
    real_home: bool,
) -> Report
    decreases outs.len(),
{
    if outs.len() == 0 {
        Report::WriteUnresolved
    } else {
        match outs[0] {
            AccessOutcome::NotFound => nowrite_decision(outs.skip(1), false, owned, real_home),
            AccessOutcome::Denied => if first && owned {
                Report::CanWriteAfterChmod
            } else {
                Report::CannotWrite
            },
            AccessOutcome::ReadOnlyFs => Report::CannotWrite,
            AccessOutcome::Granted => if first {
                Report::CanWrite
            } else if real_home {
                Report::CanCreate
            } else {
                Report::CannotWrite
            },
            AccessOutcome::Failed => Report::WriteProbeFailed,
        }
    }
}

/// Outcomes that only skipped missing ancestors leave the decision to
/// whatever follows them.
proof fn lemma_notfound_prefix(
    prefix: Seq<AccessOutcome>,
    tail: Seq<AccessOutcome>,
    first: bool,
    owned: bool,
    real_home: bool,
)
    requires
        forall|j: int| 0 <= j < prefix.len() ==> prefix[j] == AccessOutcome::NotFound,
    ensures
        nowrite_decision(prefix + tail, first, owned, real_home) == nowrite_decision(
            tail,
            first && prefix.len() == 0,
            owned,
            real_home,
        ),
    decreases prefix.len(),
{
    if prefix.len() == 0 {
        assert(prefix + tail =~= tail);
    } else {
        assert((prefix + tail)[0] == AccessOutcome::NotFound);
        assert((prefix + tail).skip(1) =~= prefix.skip(1) + tail);
        lemma_notfound_prefix(prefix.skip(1), tail, false, owned, real_home);
    }
}

/// Walks the ancestor chain of `path`, probing each for write access,
/// and decides the write check as [`nowrite_decision`] says. Beside the
/// report it carries the probe outcomes it made, nearest ancestor
/// first, and whether the path counted as owned by the effective user.
fn nowrite_walk(path: &str, real_home: bool) -> (r: (Report, Ghost<Seq<AccessOutcome>>, Ghost<
    bool,
>))
    ensures
        is_write_report(r.0),
        r.0 == nowrite_decision(r.1@, true, r.2@, real_home),
{
    let mut cur: &str = path;
    let mut first: bool = true;
    let ghost mut probed: Seq<AccessOutcome> = Seq::empty();
    loop
        invariant
            first <==> probed.len() == 0,
            forall|j: int| 0 <= j < probed.len() ==> probed[j] == AccessOutcome::NotFound,
        decreases cur@.len(),
    {
        let o = probe_access(cur, AccessMode::Write);
        match o {
            AccessOutcome::NotFound => {
                proof {
                    probed = probed.push(AccessOutcome::NotFound);
                }
                match parent_of(cur) {
                    Some(q) => {
                        proof {
                            lemma_parent_shorter(cur@);
                        }
                        cur = q;
                        first = false;
                    },
                    None => {
                        proof {
                            lemma_notfound_prefix(
                                probed,
                                Seq::empty(),
                                true,
                                false,
                                real_home,
                            );
                            assert(probed + Seq::<AccessOutcome>::empty() =~= probed);
                            assert(nowrite_decision(probed, true, false, real_home)
                                == Report::WriteUnresolved);
                        }
                        return (Report::WriteUnresolved, Ghost(probed), Ghost(false));
                    },
                }
            },
            AccessOutcome::Denied => {
                let owned = if first {
                    owner_matches(path)
                } else {
                    false
                };
                let rep = if first && owned {
                    Report::CanWriteAfterChmod
                } else {
                    Report::CannotWrite
                };
                proof {
                    lemma_notfound_prefix(
                        probed,
                        seq![AccessOutcome::Denied],
                        true,
                        owned,
                        real_home,
                    );
                    assert(probed + seq![AccessOutcome::Denied] =~= probed.push(
                        AccessOutcome::Denied,
                    ));
                    assert(rep == nowrite_decision(
                        probed.push(AccessOutcome::Denied),
                        true,
                        owned,
                        real_home,
                    ));
                }
                return (rep, Ghost(probed.push(AccessOutcome::Denied)), Ghost(owned));
            },
            AccessOutcome::ReadOnlyFs => {
                proof {
                    lemma_notfound_prefix(
                        probed,
                        seq![AccessOutcome::ReadOnlyFs],
                        true,
                        false,
                        real_home,
                    );
                    assert(probed + seq![AccessOutcome::ReadOnlyFs] =~= probed.push(
                        AccessOutcome::ReadOnlyFs,
                    ));
                    assert(Report::CannotWrite == nowrite_decision(
                        probed.push(AccessOutcome::ReadOnlyFs),
                        true,
                        false,
                        real_home,
                    ));
                }
                return (
                    Report::CannotWrite,
                    Ghost(probed.push(AccessOutcome::ReadOnlyFs)),
                    Ghost(false),
                );
            },
            AccessOutcome::Granted => {
                let rep = if first {
                    Report::CanWrite
                } else if real_home {
                    Report::CanCreate
                } else {
                    Report::CannotWrite
                };
                proof {
                    lemma_notfound_prefix(
                        probed,
                        seq![AccessOutcome::Granted],
                        true,
                        false,
                        real_home,
                    );
                    assert(probed + seq![AccessOutcome::Granted] =~= probed.push(
                        AccessOutcome::Granted,
                    ));
                    assert(rep == nowrite_decision(
                        probed.push(AccessOutcome::Granted),
                        true,
                        false,
                        real_home,
                    ));
                }
                return (rep, Ghost(probed.push(AccessOutcome::Granted)), Ghost(false));
            },
            AccessOutcome::Failed => {
                proof {
                    lemma_notfound_prefix(
                        probed,
                        seq![AccessOutcome::Failed],
                        true,
                        false,
                        real_home,
                    );
                    assert(probed + seq![AccessOutcome::Failed] =~= probed.push(
                        AccessOutcome::Failed,
                    ));
                    assert(Report::WriteProbeFailed == nowrite_decision(
                        probed.push(AccessOutcome::Failed),
                        true,
                        false,
                        real_home,
                    ));
                }
                return (
                    Report::WriteProbeFailed,
                    Ghost(probed.push(AccessOutcome::Failed)),
                    Ghost(false),
                );
            },
        }
    }
}


/// A path the process cannot find is reported compliant, a path the
/// process can read is reported a violation.
pub proof fn lemma_noread_verdicts()
    ensures
        crate::report::report_verdict(noread_decision(AccessOutcome::NotFound)) == Some(
            crate::report::Verdict::Good,
        ),
        crate::report::report_verdict(noread_decision(AccessOutcome::Granted)) == Some(
            crate::report::Verdict::Ugly,
        ),
{
}

/// A missing entry is the only outcome that moves the write walk on to
/// the next ancestor: the decision over the whole outcome sequence is
/// the decision over what the remaining ancestors answered.
pub proof fn lemma_nowrite_walk_continues(
    outs: Seq<AccessOutcome>,
    owned: bool,
    real_home: bool,
)
    requires
        outs.len() >= 1,
        outs[0] == AccessOutcome::NotFound,
    ensures
        nowrite_decision(outs, true, owned, real_home) == nowrite_decision(
            outs.skip(1),
            false,
            owned,
            real_home,
        ),
{
}

/// Checks that `path` cannot be written, nor created (minor, weight
/// one). Write-ability is decided along the ancestor chain, because a
/// path that does not exist yet can still be created under a writable
/// ancestor directory.
///
/// The weight is recorded before the probes; a failed or unresolved
/// walk yields a report without a verdict, so the weight stays
/// unmatched by design.
pub fn ensure_nowrite(path: &str, score: &mut Score, real_home: bool) -> (r: (
    Report,
    Ghost<Seq<AccessOutcome>>,
    Ghost<bool>,
))
    requires
        old(score).wf(),
        old(score).spec_max() + 1 <= u16::MAX,
    ensures
        final(score).wf(),
        final(score).spec_max() == old(score).spec_max() + 1,
        final(score).weights() == old(score).weights().push(1),
        final(score).spec_lost() == old(score).spec_lost() + report_penalty(r.0),
        is_write_report(r.0),
        r.0 == nowrite_decision(r.1@, true, r.2@, real_home),
{
    proof {
        lemma_score_invariant(*score);
    }
    score.add_max(1);
    let walked = nowrite_walk(path, real_home);
    let rep = walked.0;
    let p = penalty_of(rep);
    proof {
        assert(report_penalty(rep) <= 1);
    }
    score.add_lost(p);
    (rep, walked.1, walked.2)
}

/// Counts how many flags are set.
pub open spec fn count_true(s: Seq<bool>) -> int
    decreases s.len(),
{
    if s.len() == 0 {
        0
    } else {
        count_true(s.drop_last()) + if s.last() {
            1int
        } else {
            0int
        }
    }
}

/// The fixed list of per-user paths whose presence suggests a real,
/// unsandboxed home directory: entry `i` of the list, for `i` up to 31.
pub open spec fn home_path_spec(i: int) -> Seq<char> {
    if i == 0 {
        "~/.bash_history"@
    } else if i == 1 {
        "~/.gitconfig"@
    } else if i == 2 {
        "~/.gnupg"@
    } else if i == 3 {
        "~/.lesshst"@
    } else if i == 4 {
        "~/.netrc"@
    } else if i == 5 {
        "~/.pki"@
    } else if i == 6 {
        "~/.ssh"@
    } else if i == 7 {
        "~/.var"@
    } else if i == 8 {
        "~/.viminfo"@
    } else if i == 9 {
        "~/.wget-hsts"@
    } else if i == 10 {
        "~/.cache/dconf"@
    } else if i == 11 {
        "~/.cache/flatpak"@
    } else if i == 12 {
        "~/.cache/gegl-0.4"@
    } else if i == 13 {
        "~/.cache/gnome-software"@
    } else if i == 14 {
        "~/.cache/gstreamer-1.0"@
    } else if i == 15 {
        "~/.cache/ibus"@
    } else if i == 16 {
        "~/.cache/mesa_shader_cache"@
    } else if i == 17 {
        "~/.cache/samba"@
    } else if i == 18 {
        "~/.cache/thumbnails"@
    } else if i == 19 {
        "~/.cache/tracke"@
    } else if i == 20 {
        "~/.cache/tracker3"@
    } else if i == 21 {
        "~/.config/autostart"@
    } else if i == 22 {
        "~/.config/enchant"@
    } else if i == 23 {
        "~/.local/bin"@
    } else if i == 24 {
        "~/.local/share/flatpak"@
    } else if i == 25 {
        "~/.local/share/gstreamer-1.0"@
    } else if i == 26 {
        "~/.local/share/gvfs-metadata"@
    } else if i == 27 {
        "~/.local/share/pki"@
    } else if i == 28 {
        "~/.local/share/recently-used.xbel"@
    } else if i == 29 {
        "~/.local/share/tracker"@
    } else if i == 30 {
        "~/.local/share/Trash"@
    } else {
        "~/.local/share/webkitgtk"@
    }
}

/// Entry `i` of the fixed home-path list.
pub fn home_path_at(i: usize) -> (p: &'static str)
    requires
        i < 32,
    ensures
        p@ == home_path_spec(i as int),
{
    if i == 0 {
        "~/.bash_history"
    } else if i == 1 {
        "~/.gitconfig"
    } else if i == 2 {
        "~/.gnupg"
    } else if i == 3 {
        "~/.lesshst"
    } else if i == 4 {
        "~/.netrc"
    } else if i == 5 {
        "~/.pki"
    } else if i == 6 {
        "~/.ssh"
    } else if i == 7 {
        "~/.var"
    } else if i == 8 {
        "~/.viminfo"
    } else if i == 9 {
        "~/.wget-hsts"
    } else if i == 10 {
        "~/.cache/dconf"
    } else if i == 11 {
        "~/.cache/flatpak"
    } else if i == 12 {
        "~/.cache/gegl-0.4"
    } else if i == 13 {
        "~/.cache/gnome-software"
    } else if i == 14 {
        "~/.cache/gstreamer-1.0"
    } else if i == 15 {
        "~/.cache/ibus"
    } else if i == 16 {
        "~/.cache/mesa_shader_cache"
    } else if i == 17 {
        "~/.cache/samba"
    } else if i == 18 {
        "~/.cache/thumbnails"
    } else if i == 19 {
        "~/.cache/tracke"
    } else if i == 20 {
        "~/.cache/tracker3"
    } else if i == 21 {
        "~/.config/autostart"
    } else if i == 22 {
        "~/.config/enchant"
    } else if i == 23 {
        "~/.local/bin"
    } else if i == 24 {
        "~/.local/share/flatpak"
    } else if i == 25 {
        "~/.local/share/gstreamer-1.0"
    } else if i == 26 {
        "~/.local/share/gvfs-metadata"
    } else if i == 27 {
        "~/.local/share/pki"
    } else if i == 28 {
        "~/.local/share/recently-used.xbel"
    } else if i == 29 {
        "~/.local/share/tracker"
    } else if i == 30 {
        "~/.local/share/Trash"
    } else {
        "~/.local/share/webkitgtk"
    }
}

/// Probes each entry of the fixed home-path list for existence,
/// tilde-expanded against `home`: one flag per listed path, in order.
pub fn probe_home_paths(home: &str) -> (hits: Vec<bool>)
    ensures
        hits@.len() == 32,
{
    let mut hits: Vec<bool> = Vec::new();
    let mut i: usize = 0;
    while i < 32
        invariant
            i <= 32,
            hits@.len() == i,
        decreases 32 - i,
    {
        let expanded = expand_tilde(home_path_at(i), home);
        let o = probe_access(expanded.as_str(), AccessMode::Exists);
        let hit = match o {
            AccessOutcome::Granted => true,
            _ => false,
        };
        hits.push(hit);
        i = i + 1;
    }
    hits
}

/// Decides the heuristic from the probe outcomes: at least five of the
/// listed paths must be present.
pub fn at_least_five_present(hits: &Vec<bool>) -> (b: bool)
    ensures
        b == (count_true(hits@) >= 5),
{
    let mut found: usize = 0;
    let mut i: usize = 0;
    while i < hits.len()
        invariant
            i <= hits@.len(),
            found as int == count_true(hits@.take(i as int)),
            found <= i,
        decreases hits@.len() - i,
    {
        proof {
            assert(hits@.take(i as int + 1).drop_last() =~= hits@.take(i as int));
            assert(hits@.take(i as int + 1).last() == hits@[i as int]);
        }
        if hits[i] {
            found = found + 1;
        }
        i = i + 1;
    }
    proof {
        assert(hits@.take(hits@.len() as int) =~= hits@);
    }
    found >= 5
}

/// Whether the audit runs against what is probably the user's real,
/// unsandboxed home directory: at least five of the fixed list of
/// well-known per-user paths are present. A heuristic, computed once
/// per run; the flags carried beside the answer are the probe outcomes
/// it was decided on.
pub fn real_home(home: &str) -> (r: (bool, Ghost<Seq<bool>>))
    ensures
        r.1@.len() == 32,
        r.0 == (count_true(r.1@) >= 5),
{
    let hits = probe_home_paths(home);
    let b = at_least_five_present(&hits);
    (b, Ghost(hits@))
}

/// More accessible paths never turn the heuristic off: the count of set
/// flags is monotone under pointwise implication, and with it the
/// five-of-the-list threshold.
pub proof fn lemma_real_home_monotone(h1: Seq<bool>, h2: Seq<bool>)
    requires
        h1.len() == h2.len(),
        forall|i: int| 0 <= i < h1.len() ==> (h1[i] ==> h2[i]),
    ensures
        count_true(h1) <= count_true(h2),
        count_true(h1) >= 5 ==> count_true(h2) >= 5,
    decreases h1.len(),
{
    if h1.len() > 0 {
        assert forall|i: int| 0 <= i < h1.drop_last().len() implies (h1.drop_last()[i]
            ==> h2.drop_last()[i]) by {
            assert(h1.drop_last()[i] == h1[i]);
            assert(h2.drop_last()[i] == h2[i]);
        }
        lemma_real_home_monotone(h1.drop_last(), h2.drop_last());
        assert(h1[h1.len() - 1] ==> h2[h1.len() - 1]);
    }
}

/// A rule line takes part in a run when it is neither blank nor a
/// comment.
pub open spec fn effective(l: Seq<char>) -> bool {
    l.len() > 0 && l[0] != '#'
}

/// The maximum score a rule script can attain: the sum of its effective
/// lines' weights.
pub open spec fn total_weight(lines: Seq<Seq<char>>) -> int
    decreases lines.len(),
{
    if lines.len() == 0 {
        0
    } else {
        total_weight(lines.drop_last()) + if effective(lines.last()) {
            line_weight(lines.last())
        } else {
            0
        }
    }
}

/// The lines of a rule script that take part in a run, in order.
pub open spec fn effective_lines(lines: Seq<Seq<char>>) -> Seq<Seq<char>>
    decreases lines.len(),
{
    if lines.len() == 0 {
        Seq::empty()
    } else {
        let rest = effective_lines(lines.drop_last());
        if effective(lines.last()) {
            rest.push(lines.last())
        } else {
            rest
        }
    }
}

/// What the transcript event of one effective line must look like:
/// a parse failure carries the line; a checked rule leaves the report
/// class, the expanded path and the relative-path warning its keyword
/// calls for; a `print` line is announced verbatim.
pub open spec fn event_matches_line(
    e: Event,
    l: Seq<char>,
    home: Seq<char>,
    real_home: bool,
) -> bool {
    &&& (!line_is_valid(l) ==> (e matches Event::ParseFailed(t) && t@ == l))
    &&& (l == "caps"@ ==> (e matches Event::Audited { report, path, warn_relative }
        && is_caps_report(report) && path@ == Seq::<char>::empty() && !warn_relative))
    &&& (l == "newprivs"@ ==> (e matches Event::Audited { report, path, warn_relative }
        && is_nnp_report(report) && path@ == Seq::<char>::empty() && !warn_relative))
    &&& (has_prefix(l, "print "@) ==> (e matches Event::Announced(t) && t@ == l.skip(6)))
    &&& (has_prefix(l, "read "@) ==> (e matches Event::Audited { report, path, warn_relative }
        && is_read_report(report) && path@ == crate::utils::expand_spec(l.skip(5), home)
        && warn_relative == relative_spec(path@)))
    &&& (has_prefix(l, "write "@) ==> (e matches Event::Audited { report, path, warn_relative }
        && is_write_report(report) && path@ == crate::utils::expand_spec(l.skip(6), home)
        && warn_relative == relative_spec(path@)))
}

/// What one whole audit run yields: the transcript, in input order, and
/// the final score.
pub struct RunOutcome {
    pub events: Vec<Event>,
    pub score: Score,
}

/// The character sequences of a script's lines.
pub open spec fn script_views(lines: Seq<String>) -> Seq<Seq<char>> {
    lines.map_values(|l: String| l@)
}

/// The effective lines of a prefix of a script stand unchanged at the
/// front of the whole script's effective lines.
proof fn lemma_effective_lines_prefix(lines: Seq<Seq<char>>, i: int)
    requires
        0 <= i <= lines.len(),
    ensures
        effective_lines(lines.take(i)).len() <= effective_lines(lines).len(),
        forall|k: int| 0 <= k < effective_lines(lines.take(i)).len() ==> effective_lines(
            lines,
        )[k] == effective_lines(lines.take(i))[k],
    decreases lines.len() - i,
{
    if i == lines.len() {
        assert(lines.take(i) =~= lines);
    } else {
        assert(lines.take(i + 1).drop_last() =~= lines.take(i));
        assert(lines.take(i + 1).last() == lines[i]);
        lemma_effective_lines_prefix(lines, i + 1);
    }
}

/// Runs a whole rule script.
///
/// Blank lines and comments are skipped; every other line is parsed
/// and, if it names a rule, checked in arrival order; a line that names
/// none is recorded and skipped. The final maximum is exactly the sum
/// of the effective lines' weights, what is lost never exceeds it, and
/// each effective line leaves exactly one transcript event, in order,
/// of the shape its keyword calls for. The run aborts only on a fatal
/// capability-state error, so only a script with an effective `caps`
/// line can fail.
pub fn run(lines: &Vec<String>, home: &str, real_home: bool) -> (r: Result<RunOutcome, EnvError>)
    requires
        2 * lines@.len() <= u16::MAX,
    ensures
        r matches Ok(out) ==> out.score.wf() && out.score.spec_max() as int == total_weight(
            script_views(lines@),
        ) && out.score.spec_lost() <= out.score.spec_max() && out.events@.len()
            == effective_lines(script_views(lines@)).len() && (forall|k: int|
            0 <= k < out.events@.len() ==> event_matches_line(
                out.events@[k],
                effective_lines(script_views(lines@))[k],
                home@,
                real_home,
            )),
        r matches Err(_) ==> exists|k: int|
            0 <= k < effective_lines(script_views(lines@)).len() && #[trigger] effective_lines(
                script_views(lines@),
            )[k] == "caps"@,
{
    let ghost lv = script_views(lines@);
    let mut score = Score::new();
    let mut events: Vec<Event> = Vec::new();
    let mut i: usize = 0;
    proof {
        assert(lv.take(0) =~= Seq::<Seq<char>>::empty());
    }
    while i < lines.len()
        invariant
            2 * lines@.len() <= u16::MAX,
            i <= lines@.len(),
            lv == script_views(lines@),
            score.wf(),
            score.spec_max() as int == total_weight(lv.take(i as int)),
            score.spec_max() <= 2 * i,
            events@.len() == effective_lines(lv.take(i as int)).len(),
            forall|k: int| 0 <= k < events@.len() ==> event_matches_line(
                events@[k],
                effective_lines(lv.take(i as int))[k],
                home@,
                real_home,
            ),
        decreases lines@.len() - i,
    {
        let line: &String = &lines[i];
        let s = line.as_str();
        let eff = if s.unicode_len() == 0 {
            false
        } else {
            s.get_char(0) != '#'
        };
        proof {
            assert(lv[i as int] == line@);
        }
        if eff {
            match Rule::from_str(s, home) {
                Ok(rule) => {
                    match rule.check(&mut score, real_home) {
                        Ok(ev) => {
                            events.push(ev);
                        },
                        Err(e) => {
                            proof {
                                assert(lv[i as int] == "caps"@);
                                assert(lv.take(i as int + 1).drop_last() =~= lv.take(i as int));
                                assert(lv.take(i as int + 1).last() == lv[i as int]);
                                let ghost k = effective_lines(lv.take(i as int)).len() as int;
                                assert(effective_lines(lv.take(i as int + 1))[k] == "caps"@);
                                lemma_effective_lines_prefix(lv, i as int + 1);
                                assert(effective_lines(lv)[k] == "caps"@);
                                assert(k < effective_lines(lv).len());
                            }
                            return Err(e);
                        },
                    }
                },
                Err(pe) => {
                    events.push(Event::ParseFailed(pe.line));
                },
            }
        }
        proof {
            assert(lv.take(i + 1).drop_last() =~= lv.take(i as int));
            assert(lv.take(i + 1).last() == lv[i as int]);
        }
        i = i + 1;
    }
    proof {
        assert(lv.take(lines@.len() as int) =~= lv);
        lemma_score_invariant(score);
    }
    Ok(RunOutcome { events, score })
}


} // verus!
