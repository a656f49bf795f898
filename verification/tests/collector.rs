use fleet_status::collect::{Collector, ProbeAction, ProbeOutcome};
use fleet_status::report::render_report;

fn probed(in_recovery: bool, timeline_id: i32, replica_attached: bool) -> ProbeOutcome {
    ProbeOutcome::Probed { in_recovery, timeline_id, replica_attached }
}

fn connect_failed(error: &str) -> ProbeOutcome {
    ProbeOutcome::ConnectFailed { error: error.to_string() }
}

fn query_failed(error: &str) -> ProbeOutcome {
    ProbeOutcome::QueryFailed { error: error.to_string() }
}

#[test]
fn three_hosts_one_unreachable() {
    // Hosts db-a, db-b, db-c: db-a is a primary on timeline 7 with a replica
    // attached, db-b is unreachable, db-c is a standby on timeline 7 with no
    // replica attached.
    let mut c = Collector::new();
    let a1 = c.observe("db-a".to_string(), probed(false, 7, true));
    let a2 = c.observe("db-b".to_string(), connect_failed("connection refused"));
    let a3 = c.observe("db-c".to_string(), probed(true, 7, false));
    assert!(matches!(a1, ProbeAction::Continue));
    assert!(matches!(a2, ProbeAction::Continue));
    assert!(matches!(a3, ProbeAction::Continue));

    let diags = c.diagnostics().clone();
    assert_eq!(diags, vec!["Error connecting to host: db-b: connection refused".to_string()]);

    let rows = c.into_rows();
    let lines = render_report(&rows);
    assert_eq!(
        lines,
        vec!["db-a, true, 7, true".to_string(), "db-c, false, 7, false".to_string()]
    );
}

#[test]
fn all_hosts_unreachable() {
    // Every connection fails: no rows, one diagnostic per host, and every
    // action says to go on — the run ends normally.
    let hosts = ["db-a", "db-b", "db-c"];
    let mut c = Collector::new();
    for h in hosts.iter() {
        let action = c.observe(h.to_string(), connect_failed("no route to host"));
        assert!(matches!(action, ProbeAction::Continue));
    }
    assert_eq!(c.diagnostics().len(), 3);
    for (h, d) in hosts.iter().zip(c.diagnostics().iter()) {
        assert_eq!(*d, format!("Error connecting to host: {}: no route to host", h));
    }
    let rows = c.into_rows();
    assert_eq!(render_report(&rows), Vec::<String>::new());
}

#[test]
fn query_failure_aborts_without_a_row() {
    let mut c = Collector::new();
    let first = c.observe("db-a".to_string(), probed(false, 3, false));
    assert!(matches!(first, ProbeAction::Continue));
    let action = c.observe("db-b".to_string(), query_failed("relation does not exist"));
    match action {
        ProbeAction::Abort { message } => {
            assert_eq!(message, "Error querying host: db-b: relation does not exist");
        }
        ProbeAction::Continue => panic!("a failed query must abort the run"),
    }
    assert_eq!(c.diagnostics().len(), 0);
    let rows = c.into_rows();
    assert_eq!(render_report(&rows), vec!["db-a, true, 3, false".to_string()]);
}

#[test]
fn report_no_larger_than_input_and_names_from_input() {
    let input = ["db-a", "db-b", "db-c", "db-d"];
    let mut c = Collector::new();
    c.observe("db-a".to_string(), probed(false, 1, false));
    c.observe("db-b".to_string(), connect_failed("refused"));
    c.observe("db-c".to_string(), probed(true, 2, true));
    c.observe("db-d".to_string(), connect_failed("refused"));
    let rows = c.into_rows();
    assert!(rows.len() <= input.len());
    for row in rows.iter() {
        assert!(input.contains(&row.name.as_str()));
    }
}

#[test]
fn rows_keep_input_order() {
    let mut c = Collector::new();
    c.observe("db-d".to_string(), probed(false, 1, false));
    c.observe("db-a".to_string(), connect_failed("refused"));
    c.observe("db-c".to_string(), probed(false, 2, false));
    c.observe("db-b".to_string(), probed(true, 3, true));
    let rows = c.into_rows();
    let names: Vec<&str> = rows.iter().map(|r| r.name.as_str()).collect();
    assert_eq!(names, vec!["db-d", "db-c", "db-b"]);
}

#[test]
fn collecting_twice_yields_identical_rows() {
    // Against an unchanged, stable set of hosts the collector is idempotent.
    let run = || {
        let mut c = Collector::new();
        c.observe("db-a".to_string(), probed(false, 7, true));
        c.observe("db-b".to_string(), connect_failed("refused"));
        c.observe("db-c".to_string(), probed(true, 7, false));
        render_report(&c.into_rows())
    };
    assert_eq!(run(), run());
}

#[test]
fn unreachable_host_affects_no_other_row() {
    let with_failure = {
        let mut c = Collector::new();
        c.observe("db-a".to_string(), probed(false, 5, true));
        c.observe("db-b".to_string(), connect_failed("refused"));
        c.observe("db-c".to_string(), probed(true, 5, false));
        render_report(&c.into_rows())
    };
    let without_failing_host = {
        let mut c = Collector::new();
        c.observe("db-a".to_string(), probed(false, 5, true));
        c.observe("db-c".to_string(), probed(true, 5, false));
        render_report(&c.into_rows())
    };
    assert_eq!(with_failure, without_failing_host);
}
