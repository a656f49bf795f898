use fleet_status::hosts::{parse_hosts, plan_run};

#[test]
fn hosts_in_file_order() {
    let hosts = parse_hosts("db-a\ndb-b\ndb-c\n");
    assert_eq!(hosts, vec!["db-a".to_string(), "db-b".to_string(), "db-c".to_string()]);
}

#[test]
fn last_line_without_newline_counts() {
    let hosts = parse_hosts("db-a\ndb-b");
    assert_eq!(hosts, vec!["db-a".to_string(), "db-b".to_string()]);
}

#[test]
fn blank_lines_are_skipped() {
    let hosts = parse_hosts("\ndb-a\n\n\ndb-b\n\n");
    assert_eq!(hosts, vec!["db-a".to_string(), "db-b".to_string()]);
}

#[test]
fn carriage_returns_are_stripped() {
    let hosts = parse_hosts("db-a\r\ndb-b\r\n");
    assert_eq!(hosts, vec!["db-a".to_string(), "db-b".to_string()]);
}

#[test]
fn empty_file_yields_no_hosts() {
    assert_eq!(parse_hosts(""), Vec::<String>::new());
}

#[test]
fn successful_read_plans_the_probes() {
    let plan = plan_run(Ok("db-a\ndb-b\n".to_string()));
    assert_eq!(plan, Ok(vec!["db-a".to_string(), "db-b".to_string()]));
}

#[test]
fn missing_hosts_file_aborts_before_any_probe() {
    // A failed read plans no probe at all: the run aborts with the fatal
    // diagnostic instead of yielding a host list.
    let plan = plan_run(Err("No such file or directory (os error 2)".to_string()));
    assert_eq!(
        plan,
        Err("Error reading file: No such file or directory (os error 2)".to_string())
    );
}
