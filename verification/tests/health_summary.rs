use ceph_monitor::health::{CephHealth, Health, Mon, MonMap, OsdMap, PgMap, PgState, SubHealth, SubOsdMap, TimeCheck};

fn sample_health(ops: Option<u64>, write: Option<u64>, read: Option<u64>) -> CephHealth {
    CephHealth {
        election_epoch: 6,
        fsid: [
            0x1b, 0xb1, 0x5a, 0xbc, 0x41, 0x58, 0x11, 0xe5, 0xb4, 0x99, 0x00, 0x15, 0x17, 0x37, 0xcf, 0x98,
        ],
        health: Health {
            detail: vec![],
            health: SubHealth { health_services: vec![] },
            overall_status: "HEALTH_OK".to_string(),
            summary: vec![],
            timechecks: TimeCheck { epoch: 6, mons: vec![], round: 38, round_status: "finished".to_string() },
        },
        quorum: vec![0, 1, 2],
        quorum_names: vec!["a".to_string(), "b".to_string(), "c".to_string()],
        pgmap: PgMap {
            bytes_avail: 424777154560,
            bytes_total: 713334693888,
            bytes_used: 252251439104,
            read_bytes_sec: read,
            write_bytes_sec: write,
            op_per_sec: ops,
            data_bytes: 4970896648,
            num_pgs: 192,
            pgs_by_state: vec![PgState { count: 192, state_name: "active+clean".to_string() }],
            version: 487,
        },
        monmap: MonMap {
            epoch: 2,
            fsid: "1bb15abc-4158-11e5-b499-00151737cf98".to_string(),
            modified: "2015-10-07 10:45:23.255204".to_string(),
            created: "0.000000".to_string(),
            mons: vec![Mon { rank: 0, name: "a".to_string(), addr: "10.0.2.22:6789/0".to_string() }],
        },
        osdmap: OsdMap {
            osdmap: SubOsdMap { epoch: 9, num_osds: 3, num_up_osds: 3, num_in_osds: 3, full: false, nearfull: false },
        },
    }
}

#[test]
fn summary_of_the_sample_report() {
    let json = sample_health(Some(8), Some(26793300), None).to_json(1444220391000);
    assert_eq!(
        json,
        "{\"fsid\":\"1bb15abc-4158-11e5-b499-00151737cf98\",\"ops_per_sec\": \"8\",\"write_bytes_sec\": \"26793300\", \"read_bytes_sec\": \"0\", \"data\":\"4970896648\", \"bytes_used\":252251439104, \"bytes_avail\":424777154560, \"bytes_total\":\"713334693888\", \"postDate\": 1444220391000}"
    );
}

#[test]
fn summary_of_an_idle_cluster_reports_zero_rates() {
    let json = sample_health(None, None, None).to_json(0);
    assert!(json.contains("\"ops_per_sec\": \"0\",\"write_bytes_sec\": \"0\", \"read_bytes_sec\": \"0\""));
    assert!(json.ends_with("\"postDate\": 0}"));
}

#[test]
fn summary_fsid_is_lower_case_hyphenated() {
    let mut h = sample_health(Some(1), Some(2), Some(3));
    h.fsid = [0xAB; 16];
    let json = h.to_json(-5);
    assert!(json.starts_with("{\"fsid\":\"abababab-abab-abab-abab-abababababab\","));
    assert!(json.contains("\"read_bytes_sec\": \"3\""));
    assert!(json.ends_with("\"postDate\": -5}"));
}

#[test]
fn summary_is_valid_json_text_shape() {
    let json = sample_health(Some(u64::MAX), None, Some(0)).to_json(i64::MIN);
    assert!(json.contains("\"ops_per_sec\": \"18446744073709551615\""));
    assert!(json.ends_with("\"postDate\": -9223372036854775808}"));
}
