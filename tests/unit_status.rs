use unit_status::emitter::Emitter;
use unit_status::monitor::{Monitor, Notification};
use unit_status::output::{emission_lines, map_status_output, OutputConfig};
use unit_status::unit::{ends_with, is_valid_unit, same_text};

fn up_down() -> OutputConfig {
    OutputConfig::new("UP".to_string(), "DOWN".to_string())
}

fn lines(v: &[&str]) -> Vec<String> {
    v.iter().map(|s| s.to_string()).collect()
}

#[test]
fn valid_unit_suffixes() {
    assert!(is_valid_unit("foo.service"));
    assert!(is_valid_unit("dbus.socket"));
    assert!(is_valid_unit("dev-sda.device"));
    assert!(is_valid_unit(".service"));
}

#[test]
fn invalid_unit_names() {
    assert!(!is_valid_unit(""));
    assert!(!is_valid_unit("foo"));
    assert!(!is_valid_unit("foo.timer"));
    assert!(!is_valid_unit("service"));
    assert!(!is_valid_unit("foo.service.bak"));
    assert!(!is_valid_unit("foo.Service"));
}

#[test]
fn invalid_unit_rejected_before_anything() {
    let r = Monitor::new("foo.timer", up_down(), true, false);
    match r {
        Err(e) => assert_eq!(e.unit, "foo.timer"),
        Ok(_) => panic!("accepted an invalid unit"),
    }
}

#[test]
fn valid_unit_accepted() {
    let m = Monitor::new("foo.service", up_down(), true, false).ok().unwrap();
    assert_eq!(m.unit(), "foo.service");
    assert!(!m.is_streaming());
    assert!(!m.is_finished());
}

#[test]
fn suffix_and_equality_checks() {
    assert!(ends_with("abc", ""));
    assert!(ends_with("abc", "bc"));
    assert!(!ends_with("bc", "abc"));
    assert!(ends_with("état.service", ".service"));
    assert!(ends_with("naïve", "ïve"));
    assert!(same_text("", ""));
    assert!(same_text("active", "active"));
    assert!(!same_text("active", "failed"));
    assert!(!same_text("active", "activ"));
}

#[test]
fn map_only_exact_active_is_up() {
    let cfg = up_down();
    assert_eq!(map_status_output("active", &cfg), "UP");
    for s in ["inactive", "failed", "activating", "deactivating", "Active", "active ", "", "reloading"] {
        assert_eq!(map_status_output(s, &cfg), "DOWN");
    }
}

#[test]
fn map_with_equal_texts() {
    let cfg = OutputConfig::new("same".to_string(), "same".to_string());
    assert_eq!(map_status_output("active", &cfg), "same");
    assert_eq!(map_status_output("failed", &cfg), "same");
}

#[test]
fn emission_lines_by_mode() {
    assert_eq!(emission_lines("UP", false), lines(&["UP"]));
    assert_eq!(emission_lines("UP", true), lines(&["UP", ""]));
    assert_eq!(emission_lines("", false), lines(&[""]));
}

#[test]
fn consecutive_duplicates_suppressed() {
    let mut e = Emitter::new(false);
    let mut written: Vec<String> = Vec::new();
    for o in ["o1", "o2", "o2", "o3", "o3", "o3"] {
        written.extend(e.offer(o));
    }
    assert_eq!(written, lines(&["o1", "o2", "o3"]));
}

#[test]
fn non_consecutive_repeats_written() {
    let mut e = Emitter::new(true);
    let mut written: Vec<String> = Vec::new();
    for o in ["a", "b", "a", "a", "b"] {
        written.extend(e.offer(o));
    }
    assert_eq!(written, lines(&["a", "", "b", "", "a", "", "b", ""]));
    assert!(e.is_streaming());
}

#[test]
fn first_offer_always_written() {
    let mut e = Emitter::new(false);
    assert_eq!(e.offer(""), lines(&[""]));
    assert_eq!(e.offer(""), Vec::<String>::new());
}

#[test]
fn oneshot_emits_single_line() {
    let mut m = Monitor::new("foo.service", up_down(), false, true).ok().unwrap();
    assert_eq!(m.initial_state("active"), lines(&["UP"]));
    assert!(m.is_finished());
    assert!(!m.is_streaming());
}

#[test]
fn oneshot_with_streaming_keeps_blank_line() {
    let mut m = Monitor::new("foo.socket", up_down(), true, true).ok().unwrap();
    assert_eq!(m.initial_state("failed"), lines(&["DOWN", ""]));
    assert!(m.is_finished());
}

#[test]
fn streaming_blank_line_after_each_emission() {
    let mut m = Monitor::new("foo.service", up_down(), true, false).ok().unwrap();
    assert_eq!(m.initial_state("inactive"), lines(&["DOWN", ""]));
    assert!(m.is_streaming());
    assert_eq!(m.notify(Notification::State("active".to_string())), lines(&["UP", ""]));
    assert_eq!(m.notify(Notification::State("failed".to_string())), lines(&["DOWN", ""]));
}

#[test]
fn without_streaming_no_blank_line() {
    let mut m = Monitor::new("foo.service", up_down(), false, false).ok().unwrap();
    assert_eq!(m.initial_state("inactive"), lines(&["DOWN"]));
    assert!(m.is_streaming());
    assert_eq!(m.notify(Notification::State("active".to_string())), lines(&["UP"]));
}

#[test]
fn decode_failure_does_not_end_subscription() {
    let mut m = Monitor::new("foo.service", up_down(), true, false).ok().unwrap();
    assert_eq!(m.initial_state("inactive"), lines(&["DOWN", ""]));
    assert_eq!(m.notify(Notification::Undecodable), Vec::<String>::new());
    assert!(m.is_streaming());
    assert_eq!(m.notify(Notification::State("active".to_string())), lines(&["UP", ""]));
}

#[test]
fn unrelated_notification_ignored() {
    let mut m = Monitor::new("foo.service", up_down(), true, false).ok().unwrap();
    assert_eq!(m.initial_state("active"), lines(&["UP", ""]));
    assert_eq!(m.notify(Notification::Unrelated), Vec::<String>::new());
    assert_eq!(m.notify(Notification::State("inactive".to_string())), lines(&["DOWN", ""]));
}

#[test]
fn state_change_with_same_output_suppressed() {
    let mut m = Monitor::new("foo.service", up_down(), true, false).ok().unwrap();
    assert_eq!(m.initial_state("failed"), lines(&["DOWN", ""]));
    assert_eq!(m.notify(Notification::State("inactive".to_string())), Vec::<String>::new());
    assert_eq!(m.notify(Notification::State("activating".to_string())), Vec::<String>::new());
}

#[test]
fn scenario_up_down_transitions() {
    let cfg = OutputConfig::new("UP".to_string(), "DOWN".to_string());
    let mut m = Monitor::new("foo.service", cfg, true, false).ok().unwrap();
    let mut firsts: Vec<String> = Vec::new();
    let l = m.initial_state("activating");
    assert_eq!(l[0], "DOWN");
    firsts.push(l[0].clone());
    for s in ["active", "deactivating", "deactivating"] {
        let l = m.notify(Notification::State(s.to_string()));
        if !l.is_empty() {
            firsts.push(l[0].clone());
        }
    }
    assert_eq!(firsts, lines(&["DOWN", "UP", "DOWN"]));
}

#[test]
fn close_finishes_run() {
    let mut m = Monitor::new("foo.device", up_down(), true, false).ok().unwrap();
    m.initial_state("active");
    assert!(m.is_streaming());
    m.close();
    assert!(m.is_finished());
    assert!(!m.is_streaming());
}
