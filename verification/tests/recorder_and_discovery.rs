use ceph_monitor::communication::{carbon_address, influx_connection, output_selected, Args, Carbon, Influx};
use ceph_monitor::discovery::{
    monitor_step, next_round, osd_number_from_capture, osd_number_of_socket, osd_numbers_from_socket_names,
};
use ceph_monitor::logging::{hostname_from_output, monitor_record_url, osd_record_url};

fn influx() -> Influx {
    Influx {
        host: "10.0.0.5".to_string(),
        port: "8086".to_string(),
        user: "u".to_string(),
        password: "p".to_string(),
    }
}

fn args_with(influx_on: bool) -> Args {
    Args { outputs: vec!["influx".to_string()], influx: if influx_on { Some(influx()) } else { None }, carbon: None }
}

#[test]
fn hostname_drops_line_breaks() {
    assert_eq!(hostname_from_output(b"ceph-node-1\n".to_vec()), "ceph-node-1");
    assert_eq!(hostname_from_output(b"a\nb\n\n".to_vec()), "ab");
    assert_eq!(hostname_from_output(Vec::new()), "");
    assert_eq!(hostname_from_output("nœud\n".as_bytes().to_vec()), "nœud");
}

#[test]
fn hostname_of_invalid_utf8() {
    assert_eq!(hostname_from_output(vec![0xff, 0xfe, b'\n']), "{}");
}

#[test]
fn monitor_url_needs_influx() {
    assert_eq!(monitor_record_url(&args_with(false), "host"), None);
    assert_eq!(
        monitor_record_url(&args_with(true), "node1").unwrap(),
        "http://10.0.0.5:8086/record_ceph?measurement=monitor&hostname=node1"
    );
}

#[test]
fn osd_url_needs_influx() {
    assert_eq!(osd_record_url(&args_with(false), 3, "sdb", "host"), None);
    assert_eq!(
        osd_record_url(&args_with(true), 3, "/dev/sdb", "node1").unwrap(),
        "http://10.0.0.5:8086/record_ceph?measurement=osd&osd_num=3&drive_name=/dev/sdb&hostname=node1"
    );
}

#[test]
fn influx_connection_fields() {
    let c = influx_connection(&influx());
    assert_eq!(c.host_url, "http://10.0.0.5:8086");
    assert_eq!(c.username, "u");
    assert_eq!(c.password, "p");
    assert_eq!(c.database, "ceph");
}

#[test]
fn carbon_address_joins_host_and_port() {
    let c = Carbon { host: "graphite.local".to_string(), port: "2003".to_string(), root_key: "k".to_string() };
    assert_eq!(carbon_address(&c), "graphite.local:2003");
}

#[test]
fn output_selection_is_exact() {
    let outputs = vec!["stdout".to_string(), "carbon".to_string()];
    assert!(output_selected(&outputs, "stdout"));
    assert!(output_selected(&outputs, "carbon"));
    assert!(!output_selected(&outputs, "influx"));
    assert!(!output_selected(&outputs, "std"));
    assert!(!output_selected(&Vec::new(), "stdout"));
}

#[test]
fn osd_sockets_give_their_numbers() {
    let names: Vec<String> = ["ceph-mon.ip-172-31-22-89.asok", "ceph-osd.1.asok", "notes.txt", "ceph-osd.12.asok"]
        .iter()
        .map(|s| s.to_string())
        .collect();
    assert_eq!(osd_numbers_from_socket_names(&names), Some(vec![1, 12]));
    assert_eq!(osd_numbers_from_socket_names(&Vec::new()), Some(vec![]));
}

#[test]
fn osd_socket_pattern_is_unanchored_and_backtracks() {
    assert_eq!(osd_number_of_socket("xceph-osd.7.asokx"), Some(Some(7)));
    assert_eq!(osd_number_of_socket("ceph-osd.123asok"), Some(Some(12)));
    assert_eq!(osd_number_of_socket("ceph-osd_5_asok"), Some(Some(5)));
    assert_eq!(osd_number_of_socket("ceph-mon.a.asok"), Some(None));
    assert_eq!(osd_number_of_socket("ceph-osd..asok"), Some(None));
}

#[test]
fn unreadable_osd_numbers_stop_discovery() {
    assert_eq!(osd_number_of_socket("ceph-osd.99999999999999999999.asok"), None);
    assert_eq!(osd_number_of_socket("ceph-osd.١.asok"), None);
    let names = vec!["ceph-osd.1.asok".to_string(), "ceph-osd.99999999999999999999.asok".to_string()];
    assert_eq!(osd_numbers_from_socket_names(&names), None);
}

#[test]
fn every_tenth_round_looks_up_again() {
    assert_eq!(next_round(0), (1, false));
    assert_eq!(next_round(9), (10, true));
    assert_eq!(next_round(10), (11, false));
    assert_eq!(next_round(19), (20, true));
    let due: Vec<i32> = (0..40).filter(|r| next_round(*r).1).map(|r| r + 1).collect();
    assert_eq!(due, vec![10, 20, 30, 40]);
}

#[test]
fn record_urls_begin_with_the_influx_server_url() {
    let base = influx_connection(&influx()).host_url;
    assert!(monitor_record_url(&args_with(true), "h").unwrap().starts_with(&base));
    assert!(osd_record_url(&args_with(true), 8, "d", "h").unwrap().starts_with(&base));
}

#[test]
fn capture_to_osd_number() {
    assert_eq!(osd_number_from_capture(None), None);
    assert_eq!(osd_number_from_capture(Some(None)), Some(None));
    assert_eq!(osd_number_from_capture(Some(Some("42".to_string()))), Some(Some(42)));
    assert_eq!(osd_number_from_capture(Some(Some("18446744073709551616".to_string()))), None);
    assert_eq!(osd_number_from_capture(Some(Some("٣".to_string()))), None);
}

#[test]
fn monitor_step_logs_or_rechecks() {
    assert_eq!(monitor_step(true, true), (true, false));
    assert_eq!(monitor_step(true, false), (false, true));
    assert_eq!(monitor_step(false, false), (false, false));
    assert_eq!(monitor_step(false, true), (false, false));
}
