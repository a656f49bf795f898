use fleet_status::config::{probe_database, probe_port, ProbeConfig, TlsMode};
use fleet_status::report::{bool_string, format_row, i32_dec_string, u32_dec_string};
use fleet_status::status::HostStatus;

fn status(name: &str, is_primary: bool, timeline_id: i32, replica_attached: bool) -> HostStatus {
    HostStatus { name: name.to_string(), is_primary, timeline_id, replica_attached }
}

#[test]
fn row_format_is_name_primary_timeline_replica() {
    assert_eq!(format_row(&status("db-a", true, 7, true)), "db-a, true, 7, true");
    assert_eq!(format_row(&status("db-c", false, 7, false)), "db-c, false, 7, false");
}

#[test]
fn unsigned_decimal_rendering() {
    assert_eq!(u32_dec_string(0), "0");
    assert_eq!(u32_dec_string(7), "7");
    assert_eq!(u32_dec_string(107), "107");
    assert_eq!(u32_dec_string(4294967295), "4294967295");
}

#[test]
fn signed_decimal_rendering() {
    assert_eq!(i32_dec_string(0), "0");
    assert_eq!(i32_dec_string(42), "42");
    assert_eq!(i32_dec_string(-1), "-1");
    assert_eq!(i32_dec_string(i32::MAX), "2147483647");
    assert_eq!(i32_dec_string(i32::MIN), "-2147483648");
}

#[test]
fn flags_render_as_words() {
    assert_eq!(bool_string(true), "true");
    assert_eq!(bool_string(false), "false");
}

#[test]
fn fixed_connection_parameters() {
    assert_eq!(probe_port(), 5432);
    assert_eq!(probe_database(), "postgres");
}

#[test]
fn configuration_is_kept_as_given() {
    let cfg = ProbeConfig::new(
        "admin".to_string(),
        "pw".to_string(),
        TlsMode::Cert {
            root_cert: "/etc/ssl/root.crt".to_string(),
            client_cert: "/etc/ssl/client.crt".to_string(),
            client_key: "/etc/ssl/client.key".to_string(),
        },
    );
    assert_eq!(cfg.user, "admin");
    assert_eq!(cfg.password, "pw");
    match cfg.tls {
        TlsMode::Cert { root_cert, client_cert, client_key } => {
            assert_eq!(root_cert, "/etc/ssl/root.crt");
            assert_eq!(client_cert, "/etc/ssl/client.crt");
            assert_eq!(client_key, "/etc/ssl/client.key");
        }
        TlsMode::NoCert => panic!("cert mode was requested"),
    }
}
