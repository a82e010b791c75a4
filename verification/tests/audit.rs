//! Tests of the audit library: the rule parser, tilde expansion, the
//! scoring accounting, the per-check decisions and whole runs.

use raudit::engine::{at_least_five_present, caps_verdict, ensure_nocaps, ensure_noread, ensure_nowrite, home_path_at, nnp_report, noread_report, probe_home_paths, real_home, run};
use raudit::paths::{is_relative, parent_of};
use raudit::probe::AccessOutcome;
use raudit::report::{penalty_of, verdict_of, EnvError, Event, Report, Verdict};
use raudit::rule::Rule;
use raudit::score::Score;
use raudit::utils::{expand_tilde, parse_color_choice, ColorChoice};

const HOME: &str = "/home/user";

#[test]
fn parse_caps() {
    assert_eq!(Rule::from_str("caps", HOME).unwrap(), Rule::Caps);
}

#[test]
fn parse_newprivs() {
    assert_eq!(Rule::from_str("newprivs", HOME).unwrap(), Rule::NewPrivs);
}

#[test]
fn parse_print() {
    assert_eq!(
        Rule::from_str("print hello world", HOME).unwrap(),
        Rule::Print("hello world".to_string())
    );
    assert_eq!(Rule::from_str("print ", HOME).unwrap(), Rule::Print(String::new()));
}

#[test]
fn parse_read() {
    assert_eq!(
        Rule::from_str("read /etc/shadow", HOME).unwrap(),
        Rule::Read("/etc/shadow".to_string())
    );
}

#[test]
fn parse_write_expands_tilde() {
    assert_eq!(
        Rule::from_str("write ~/.ssh", HOME).unwrap(),
        Rule::Write("/home/user/.ssh".to_string())
    );
}

#[test]
fn parse_is_deterministic() {
    let a = Rule::from_str("read ~/x", HOME).unwrap();
    let b = Rule::from_str("read ~/x", HOME).unwrap();
    assert_eq!(a, b);
}

#[test]
fn parse_rejects_unknown_lines() {
    for line in ["foobar", "", "Read /x", "caps ", " caps", "readx /x", "prin t"] {
        let err = Rule::from_str(line, HOME).unwrap_err();
        assert_eq!(err.line, line);
        assert_eq!(err.message(), format!("Invalid rule: {}", line));
    }
}

#[test]
fn expand_tilde_prefix() {
    assert_eq!(expand_tilde("~/.ssh", "/root"), "/root/.ssh");
}

#[test]
fn expand_tilde_inner_tilde_unchanged() {
    assert_eq!(expand_tilde("/root/~/.ssh", "/root"), "/root/~/.ssh");
}

#[test]
fn expand_tilde_relative_unchanged() {
    assert_eq!(expand_tilde("relative", "/root"), "relative");
    assert_eq!(expand_tilde("~x", "/root"), "~x");
}

#[test]
fn color_choice_words() {
    assert_eq!(parse_color_choice("always", false).unwrap(), ColorChoice::Always);
    assert_eq!(parse_color_choice("ansi", false).unwrap(), ColorChoice::AlwaysAnsi);
    assert_eq!(parse_color_choice("auto", true).unwrap(), ColorChoice::Auto);
    assert_eq!(parse_color_choice("auto", false).unwrap(), ColorChoice::Never);
    assert_eq!(parse_color_choice("never", true).unwrap(), ColorChoice::Never);
    let err = parse_color_choice("sometimes", true).unwrap_err();
    assert_eq!(err.input, "sometimes");
    assert_eq!(
        err.message(),
        "Invalid color choice 'sometimes'. Valid choices are 'always', 'ansi', 'auto' and 'never'."
    );
}

#[test]
fn score_starts_empty() {
    let s = Score::new();
    assert_eq!(s.max_points(), 0);
    assert_eq!(s.lost_points(), 0);
    assert_eq!(s.points(), 0);
}

#[test]
fn score_accumulates() {
    let mut s = Score::new();
    s.add_max(2);
    s.add_lost(0);
    s.add_max(2);
    s.add_lost(2);
    s.add_max(1);
    s.add_lost(1);
    s.add_max(1);
    assert_eq!(s.max_points(), 6);
    assert_eq!(s.lost_points(), 3);
    assert_eq!(s.points(), 3);
}

#[test]
fn score_all_compliant_scenario() {
    // caps, newprivs, read, write: all compliant.
    let mut s = Score::new();
    for (w, rep) in [
        (2, Report::CapsEmpty),
        (2, Report::NnpSet),
        (1, Report::CannotRead),
        (1, Report::CannotWrite),
    ] {
        s.add_max(w);
        s.add_lost(penalty_of(rep));
    }
    assert_eq!((s.points(), s.max_points()), (6, 6));
}

#[test]
fn score_capability_failures_scenario() {
    // caps and newprivs non-compliant, both path checks compliant.
    let mut s = Score::new();
    for (w, rep) in [
        (2, Report::CapsNotEmpty),
        (2, Report::NnpClear),
        (1, Report::CannotRead),
        (1, Report::CannotWrite),
    ] {
        s.add_max(w);
        s.add_lost(penalty_of(rep));
    }
    assert_eq!((s.points(), s.max_points()), (2, 6));
}

#[test]
fn verdicts_of_reports() {
    assert_eq!(verdict_of(Report::CapsEmpty), Some(Verdict::Great));
    assert_eq!(verdict_of(Report::CapsNotEmpty), Some(Verdict::Bad));
    assert_eq!(verdict_of(Report::NnpSet), Some(Verdict::Great));
    assert_eq!(verdict_of(Report::NnpClear), Some(Verdict::Bad));
    assert_eq!(verdict_of(Report::NnpUnknown), None);
    assert_eq!(verdict_of(Report::CanRead), Some(Verdict::Ugly));
    assert_eq!(verdict_of(Report::CannotReadAbsent), Some(Verdict::Good));
    assert_eq!(verdict_of(Report::CanCreate), Some(Verdict::Ugly));
    assert_eq!(verdict_of(Report::WriteUnresolved), None);
    assert_eq!(penalty_of(Report::CapsNotEmpty), 2);
    assert_eq!(penalty_of(Report::CanWrite), 1);
    assert_eq!(penalty_of(Report::NnpUnknown), 0);
}

#[test]
fn caps_text_empty_bounding_set() {
    assert_eq!(caps_verdict("CapBnd:\t0000000000000000"), Ok(Report::CapsEmpty));
    assert_eq!(
        caps_verdict("Name:\tcat\nCapBnd:\t0000000000000000\nSeccomp:\t2\n"),
        Ok(Report::CapsEmpty)
    );
}

#[test]
fn caps_text_full_bounding_set() {
    assert_eq!(
        caps_verdict("Name:\tcat\nCapBnd:\t000001ffffffffff\n"),
        Ok(Report::CapsNotEmpty)
    );
}

#[test]
fn caps_text_without_bounding_set() {
    assert_eq!(caps_verdict(""), Err(EnvError::CapBndMissing));
    assert_eq!(caps_verdict("Name:\tcat\nSeccomp:\t2"), Err(EnvError::CapBndMissing));
    assert!(EnvError::CapBndMissing.message().contains("bounding set"));
}

#[test]
fn nnp_flag_reports() {
    assert_eq!(nnp_report(Some(true)), Report::NnpSet);
    assert_eq!(nnp_report(Some(false)), Report::NnpClear);
    assert_eq!(nnp_report(None), Report::NnpUnknown);
}

#[test]
fn noread_outcome_reports() {
    assert_eq!(noread_report(AccessOutcome::Granted), Report::CanRead);
    assert_eq!(noread_report(AccessOutcome::Denied), Report::CannotRead);
    assert_eq!(noread_report(AccessOutcome::NotFound), Report::CannotReadAbsent);
    assert_eq!(noread_report(AccessOutcome::Failed), Report::ReadProbeFailed);
}

#[test]
fn parents_walk_to_the_root() {
    assert_eq!(parent_of("/a/b"), Some("/a"));
    assert_eq!(parent_of("/a"), Some("/"));
    assert_eq!(parent_of("/"), None);
    assert_eq!(parent_of("a/b"), Some("a"));
    assert_eq!(parent_of("a"), Some(""));
    assert_eq!(parent_of(""), None);
}

#[test]
fn relative_paths_are_flagged() {
    assert!(is_relative("a/b"));
    assert!(is_relative(""));
    assert!(!is_relative("/a/b"));
}

#[test]
fn live_capability_state_is_readable() {
    // Whatever the bounding set holds, reading the capability state of
    // this very process must succeed and cost the full weight up front.
    let mut s = Score::new();
    let r = ensure_nocaps(&mut s);
    assert!(r.is_ok());
    assert_eq!(s.max_points(), 2);
}

#[test]
fn read_check_on_missing_path() {
    let mut s = Score::new();
    let rep = ensure_noread("/raudit-definitely-missing-path", &mut s);
    assert_eq!(rep, Report::CannotReadAbsent);
    assert_eq!((s.max_points(), s.lost_points()), (1, 0));
}

#[test]
fn read_check_on_readable_path() {
    let mut s = Score::new();
    let rep = ensure_noread("/", &mut s);
    assert_eq!(rep, Report::CanRead);
    assert_eq!((s.max_points(), s.lost_points()), (1, 1));
}

#[test]
fn write_check_walks_past_missing_ancestors() {
    // The path and its parent do not exist; the walk must go on to the
    // writable /tmp and report that the path could be created there.
    let mut s = Score::new();
    let (rep, _, _) = ensure_nowrite("/tmp/raudit-missing-dir/leaf", &mut s, true);
    assert_eq!(rep, Report::CanCreate);
    assert_eq!((s.max_points(), s.lost_points()), (1, 1));
}

#[test]
fn write_check_outside_home_tolerates_creatable_paths() {
    let mut s = Score::new();
    let (rep, _, _) = ensure_nowrite("/tmp/raudit-missing-dir/leaf", &mut s, false);
    assert_eq!(rep, Report::CannotWrite);
    assert_eq!((s.max_points(), s.lost_points()), (1, 0));
}

#[test]
fn heuristic_rejects_missing_home() {
    let (at_home, _) = real_home("/raudit-no-such-home");
    assert!(!at_home);
}

#[test]
fn heuristic_probes_every_listed_path() {
    let hits = probe_home_paths("/raudit-no-such-home");
    assert_eq!(hits.len(), 32);
    assert!(hits.iter().all(|h| !h));
    assert!(!at_least_five_present(&hits));
}

#[test]
fn heuristic_threshold_is_five() {
    let mut hits = vec![false; 32];
    for i in 0..4 {
        hits[i] = true;
    }
    assert!(!at_least_five_present(&hits));
    hits[10] = true;
    assert!(at_least_five_present(&hits));
}

#[test]
fn listed_paths_start_at_the_home_directory() {
    assert_eq!(home_path_at(0), "~/.bash_history");
    assert_eq!(home_path_at(31), "~/.local/share/webkitgtk");
    for i in 0..32 {
        assert!(home_path_at(i).starts_with("~/"));
    }
}

#[test]
fn run_counts_only_valid_rules() {
    // A malformed line contributes to neither counter; blanks and
    // comments are skipped entirely.
    let lines: Vec<String> = ["print start", "", "# comment", "foobar", "read /raudit-definitely-missing-path"]
        .iter()
        .map(|s| s.to_string())
        .collect();
    let out = run(&lines, "/tmp", false).unwrap();
    assert_eq!(out.score.max_points(), 1);
    assert_eq!(out.score.lost_points(), 0);
    assert_eq!(out.score.points(), 1);
    assert_eq!(out.events.len(), 3);
    assert!(matches!(&out.events[0], Event::Announced(t) if t == "start"));
    assert!(matches!(&out.events[1], Event::ParseFailed(l) if l == "foobar"));
    assert!(matches!(
        &out.events[2],
        Event::Audited { report: Report::CannotReadAbsent, warn_relative: false, .. }
    ));
}

#[test]
fn run_scores_the_full_script() {
    // The classic four-rule script: whatever the verdicts, the maximum
    // is six and the score stays within it.
    let lines: Vec<String> = ["caps", "newprivs", "read /etc/shadow", "write /tmp/definitely-blocked-xyz"]
        .iter()
        .map(|s| s.to_string())
        .collect();
    let out = run(&lines, "/tmp", false).unwrap();
    assert_eq!(out.score.max_points(), 6);
    assert!(out.score.lost_points() <= 6);
    assert_eq!(out.events.len(), 4);
    assert_eq!(out.score.points(), out.score.max_points() - out.score.lost_points());
}

#[test]
fn run_warns_on_relative_paths() {
    let lines: Vec<String> = vec!["read relative/path".to_string()];
    let out = run(&lines, "/tmp", false).unwrap();
    assert!(matches!(
        &out.events[0],
        Event::Audited { warn_relative: true, .. }
    ));
}

#[test]
fn check_print_rule_scores_nothing() {
    let mut s = Score::new();
    let rule = Rule::from_str("print sandbox check", HOME).unwrap();
    let ev = rule.check(&mut s, false).unwrap();
    assert!(matches!(ev, Event::Announced(t) if t == "sandbox check"));
    assert_eq!((s.max_points(), s.lost_points()), (0, 0));
}

#[test]
fn check_read_rule_reports_the_path() {
    let mut s = Score::new();
    let rule = Rule::from_str("read /raudit-definitely-missing-path", HOME).unwrap();
    let ev = rule.check(&mut s, false).unwrap();
    match ev {
        Event::Audited { report, path, warn_relative } => {
            assert_eq!(report, Report::CannotReadAbsent);
            assert_eq!(path, "/raudit-definitely-missing-path");
            assert!(!warn_relative);
        }
        other => panic!("unexpected event: {:?}", other),
    }
    assert_eq!((s.max_points(), s.lost_points()), (1, 0));
}

#[test]
fn check_caps_rule_costs_its_weight_up_front() {
    let mut s = Score::new();
    let rule = Rule::from_str("caps", HOME).unwrap();
    let ev = rule.check(&mut s, false).unwrap();
    assert!(matches!(
        ev,
        Event::Audited { report: Report::CapsEmpty | Report::CapsNotEmpty, .. }
    ));
    assert_eq!(s.max_points(), 2);
}

#[test]
fn write_check_on_writable_path() {
    // /tmp itself is world-writable, so the walk must stop at the path
    // itself and report it writable.
    let mut s = Score::new();
    let (rep, _, _) = ensure_nowrite("/tmp", &mut s, false);
    assert_eq!(rep, Report::CanWrite);
    assert_eq!((s.max_points(), s.lost_points()), (1, 1));
}
