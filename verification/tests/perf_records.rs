use ceph_monitor::communication::{Args, Carbon, Influx};
use ceph_monitor::perf::{Wbthrottle, FilestoreJournalLatency, FilestoreJournalWrByte, Filestore, Leveldb, MutexFilejournalCompletionsLock, Objecter, Osd, RecoverystatePerf, ThrottleFilestoreByte, OsdPerf};

fn latency(whole: i64, text: &str) -> FilestoreJournalLatency {
    FilestoreJournalLatency { avgcount: 3, sum_as_integer: whole, sum_text: text.to_string() }
}

fn zero_wbthrottle() -> Wbthrottle {
    Wbthrottle {
        bytes_dirtied: 0,
        bytes_wb: 0,
        ios_dirtied: 0,
        ios_wb: 0,
        inodes_dirtied: 0,
        inodes_wb: 0,
    }
}

fn zero_filestorejournalwrbyte() -> FilestoreJournalWrByte {
    FilestoreJournalWrByte {
        avgcount: 0,
        sum: 0,
    }
}

fn zero_filestore() -> Filestore {
    Filestore {
        journal_queue_max_ops: 0,
        journal_queue_ops: 0,
        journal_ops: 0,
        journal_queue_max_bytes: 0,
        journal_queue_bytes: 0,
        journal_bytes: 0,
        journal_latency: latency(0, "0"),
        journal_wr: 0,
        journal_wr_bytes: zero_filestorejournalwrbyte(),
        journal_full: 0,
        committing: 0,
        commitcycle: 0,
        commitcycle_interval: latency(0, "0"),
        commitcycle_latency: latency(0, "0"),
        op_queue_max_ops: 0,
        op_queue_ops: 0,
        ops: 0,
        op_queue_max_bytes: 0,
        op_queue_bytes: 0,
        bytes: 0,
        apply_latency: latency(0, "0"),
        queue_transaction_latency_avg: latency(0, "0"),
    }
}

fn zero_leveldb() -> Leveldb {
    Leveldb {
        leveldb_get: 0,
        leveldb_transaction: 0,
        leveldb_compact: 0,
        leveldb_compact_range: 0,
        leveldb_compact_queue_merge: 0,
        leveldb_compact_queue_len: 0,
    }
}

fn zero_mutexfilejournalcompletionslock() -> MutexFilejournalCompletionsLock {
    MutexFilejournalCompletionsLock {
        wait: latency(0, "0"),
    }
}

fn zero_objecter() -> Objecter {
    Objecter {
        op_active: 0,
        op_laggy: 0,
        op_send: 0,
        op_send_bytes: 0,
        op_resend: 0,
        op_ack: 0,
        op_commit: 0,
        op: 0,
        op_r: 0,
        op_w: 0,
        op_rmw: 0,
        op_pg: 0,
        osdop_stat: 0,
        osdop_create: 0,
        osdop_read: 0,
        osdop_write: 0,
        osdop_writefull: 0,
        osdop_append: 0,
        osdop_zero: 0,
        osdop_truncate: 0,
        osdop_delete: 0,
        osdop_mapext: 0,
        osdop_sparse_read: 0,
        osdop_clonerange: 0,
        osdop_getxattr: 0,
        osdop_setxattr: 0,
        osdop_cmpxattr: 0,
        osdop_rmxattr: 0,
        osdop_resetxattrs: 0,
        osdop_tmap_up: 0,
        osdop_tmap_put: 0,
        osdop_tmap_get: 0,
        osdop_call: 0,
        osdop_watch: 0,
        osdop_notify: 0,
        osdop_src_cmpxattr: 0,
        osdop_pgls: 0,
        osdop_pgls_filter: 0,
        osdop_other: 0,
        linger_active: 0,
        linger_send: 0,
        linger_resend: 0,
        poolop_active: 0,
        poolop_send: 0,
        poolop_resend: 0,
        poolstat_active: 0,
        poolstat_send: 0,
        poolstat_resend: 0,
        statfs_active: 0,
        statfs_send: 0,
        statfs_resend: 0,
        command_active: 0,
        command_send: 0,
        command_resend: 0,
        map_epoch: 0,
        map_full: 0,
        map_inc: 0,
        osd_sessions: 0,
        osd_session_open: 0,
        osd_session_close: 0,
        osd_laggy: 0,
    }
}

fn zero_osd() -> Osd {
    Osd {
        opq: 0,
        op_wip: 0,
        op: 0,
        op_in_bytes: 0,
        op_out_bytes: 0,
        op_latency: latency(0, "0"),
        op_process_latency: latency(0, "0"),
        op_r: 0,
        op_r_out_bytes: 0,
        op_r_latency: latency(0, "0"),
        op_r_process_latency: latency(0, "0"),
        op_w: 0,
        op_w_in_bytes: 0,
        op_w_rlat: latency(0, "0"),
        op_w_latency: latency(0, "0"),
        op_w_process_latency: latency(0, "0"),
        op_rw: 0,
        op_rw_in_bytes: 0,
        op_rw_out_bytes: 0,
        op_rw_rlat: latency(0, "0"),
        op_rw_latency: latency(0, "0"),
        op_rw_process_latency: latency(0, "0"),
        subop: 0,
        subop_in_bytes: 0,
        subop_latency: latency(0, "0"),
        subop_w: 0,
        subop_w_in_bytes: 0,
        subop_w_latency: latency(0, "0"),
        subop_pull: 0,
        subop_pull_latency: latency(0, "0"),
        subop_push: 0,
        subop_push_in_bytes: 0,
        subop_push_latency: latency(0, "0"),
        pull: 0,
        push: 0,
        push_out_bytes: 0,
        push_in: 0,
        push_in_bytes: 0,
        recovery_ops: 0,
        loadavg: 0,
        buffer_bytes: 0,
        numpg: 0,
        numpg_primary: 0,
        numpg_replica: 0,
        numpg_stray: 0,
        heartbeat_to_peers: 0,
        heartbeat_from_peers: 0,
        map_messages: 0,
        map_message_epochs: 0,
        map_message_epoch_dups: 0,
        messages_delayed_for_map: 0,
        stat_bytes: 0,
        stat_bytes_used: 0,
        stat_bytes_avail: 0,
        copyfrom: 0,
        tier_promote: 0,
        tier_flush: 0,
        tier_flush_fail: 0,
        tier_try_flush: 0,
        tier_try_flush_fail: 0,
        tier_evict: 0,
        tier_whiteout: 0,
        tier_dirty: 0,
        tier_clean: 0,
        tier_delay: 0,
        agent_wake: 0,
        agent_skip: 0,
        agent_flush: 0,
        agent_evict: 0,
    }
}

fn zero_recoverystateperf() -> RecoverystatePerf {
    RecoverystatePerf {
        initial_latency: latency(0, "0"),
        started_latency: latency(0, "0"),
        reset_latency: latency(0, "0"),
        start_latency: latency(0, "0"),
        primary_latency: latency(0, "0"),
        peering_latency: latency(0, "0"),
        backfilling_latency: latency(0, "0"),
        waitremotebackfillreserved_latency: latency(0, "0"),
        waitlocalbackfillreserved_latency: latency(0, "0"),
        notbackfilling_latency: latency(0, "0"),
        repnotrecovering_latency: latency(0, "0"),
        repwaitrecoveryreserved_latency: latency(0, "0"),
        repwaitbackfillreserved_latency: latency(0, "0"),
        RepRecovering_latency: latency(0, "0"),
        activating_latency: latency(0, "0"),
        waitlocalrecoveryreserved_latency: latency(0, "0"),
        waitremoterecoveryreserved_latency: latency(0, "0"),
        recovering_latency: latency(0, "0"),
        recovered_latency: latency(0, "0"),
        clean_latency: latency(0, "0"),
        active_latency: latency(0, "0"),
        replicaactive_latency: latency(0, "0"),
        stray_latency: latency(0, "0"),
        getinfo_latency: latency(0, "0"),
        getlog_latency: latency(0, "0"),
        waitactingchange_latency: latency(0, "0"),
        incomplete_latency: latency(0, "0"),
        getmissing_latency: latency(0, "0"),
        waitupthru_latency: latency(0, "0"),
    }
}

fn zero_throttlefilestorebyte() -> ThrottleFilestoreByte {
    ThrottleFilestoreByte {
        val: 0,
        max: 0,
        get: 0,
        get_sum: 0,
        get_or_fail_fail: 0,
        get_or_fail_success: 0,
        take: 0,
        take_sum: 0,
        put: 0,
        put_sum: 0,
        wait: latency(0, "0"),
    }
}

fn zero_osdperf() -> OsdPerf {
    OsdPerf {
        WBThrottle: zero_wbthrottle(),
        filestore: zero_filestore(),
        leveldb: zero_leveldb(),
        mutex_FileJournal_completions_lock: zero_mutexfilejournalcompletionslock(),
        mutex_FileJournal_finisher_lock: zero_mutexfilejournalcompletionslock(),
        mutex_FileJournal_write_lock: zero_mutexfilejournalcompletionslock(),
        mutex_FileJournal_writeq_lock: zero_mutexfilejournalcompletionslock(),
        mutex_JOS_ApplyManager_apply_lock: zero_mutexfilejournalcompletionslock(),
        mutex_JOS_ApplyManager_com_lock: zero_mutexfilejournalcompletionslock(),
        mutex_JOS_SubmitManager_lock: zero_mutexfilejournalcompletionslock(),
        mutex_WBThrottle_lock: zero_mutexfilejournalcompletionslock(),
        objecter: zero_objecter(),
        osd: zero_osd(),
        recoverystate_perf: zero_recoverystateperf(),
        throttle_filestore_bytes: zero_throttlefilestorebyte(),
        throttle_filestore_ops: zero_throttlefilestorebyte(),
        throttle_msgr_dispatch_throttler_client: zero_throttlefilestorebyte(),
        throttle_msgr_dispatch_throttler_cluster: zero_throttlefilestorebyte(),
        throttle_msgr_dispatch_throttler_hb_back_server: zero_throttlefilestorebyte(),
        throttle_msgr_dispatch_throttler_hb_front_server: zero_throttlefilestorebyte(),
        throttle_msgr_dispatch_throttler_hbclient: zero_throttlefilestorebyte(),
        throttle_msgr_dispatch_throttler_ms_objecter: zero_throttlefilestorebyte(),
        throttle_objecter_bytes: zero_throttlefilestorebyte(),
        throttle_objecter_ops: zero_throttlefilestorebyte(),
        throttle_osd_client_bytes: zero_throttlefilestorebyte(),
        throttle_osd_client_messages: zero_throttlefilestorebyte(),
    }
}

fn sample() -> OsdPerf {
    let mut p = zero_osdperf();
    p.osd.loadavg = 12;
    p.osd.op_latency = latency(1, "1.5");
    p.osd.op_r_latency = latency(0, "0.25");
    p.osd.op_w_latency = latency(2, "2.75");
    p.osd.subop_latency = latency(0, "0");
    p.osd.subop_w_latency = latency(3, "3.125");
    p.filestore.journal_latency = latency(4, "4.5");
    p.filestore.apply_latency = latency(5, "5.5");
    p.filestore.queue_transaction_latency_avg = latency(6, "6.5");
    p
}

#[test]
fn counters_that_are_not_reported_do_not_change_the_records() {
    let mut p = sample();
    let carbon = p.to_carbon_string("ceph", 1, 5);
    let point = p.to_influx_point(1).fields;
    p.objecter.op_active = 77;
    p.WBThrottle.bytes_dirtied = -3;
    p.recoverystate_perf.clean_latency = latency(9, "9.75");
    p.osd.numpg = 40;
    assert_eq!(p.to_carbon_string("ceph", 1, 5), carbon);
    assert_eq!(p.to_influx_point(1).fields, point);
}

fn args(outputs: &[&str], influx: bool, carbon: bool) -> Args {
    Args {
        outputs: outputs.iter().map(|s| s.to_string()).collect(),
        influx: if influx {
            Some(Influx {
                host: "db.local".to_string(),
                port: "8086".to_string(),
                user: "admin".to_string(),
                password: "SECRET-REDACTED".to_string(),
            })
        } else {
            None
        },
        carbon: if carbon {
            Some(Carbon {
                host: "graphite".to_string(),
                port: "2003".to_string(),
                root_key: "ceph".to_string(),
            })
        } else {
            None
        },
    }
}

#[test]
fn normalize_dump_renames_counter_keys() {
    assert_eq!(
        OsdPerf::normalize_dump("{\"mutex-FileJournal::completions_lock\":1}"),
        "{\"mutex_FileJournal_completions_lock\":1}"
    );
    assert_eq!(OsdPerf::normalize_dump("throttle-msgr_dispatch_throttler-client"), "throttle_msgr_dispatch_throttler_client");
}

#[test]
fn normalize_dump_odd_colon_runs() {
    assert_eq!(OsdPerf::normalize_dump(":::"), "_:");
    assert_eq!(OsdPerf::normalize_dump("::::"), "__");
    assert_eq!(OsdPerf::normalize_dump("-:"), "_:");
    assert_eq!(OsdPerf::normalize_dump(""), "");
}

#[test]
fn normalize_dump_matches_the_two_replacements() {
    for s in ["a-b::c", "x-::-y", ":-:", "{\"WBThrottle\":{\"bytes-dirtied\":-5}}"] {
        assert_eq!(OsdPerf::normalize_dump(s), s.replace("-", "_").replace("::", "_"));
    }
}

#[test]
fn normalize_dump_twice_changes_nothing_more() {
    for s in ["a--b::::c", ":::-:::", "plain"] {
        let once = OsdPerf::normalize_dump(s);
        assert_eq!(OsdPerf::normalize_dump(&once), once);
        assert!(!once.contains('-') && !once.contains("::"));
    }
}

#[test]
fn carbon_string_has_nine_stamped_lines() {
    let text = sample().to_carbon_string("ceph", 3, 1444220391);
    let expected = "ceph-osd.3.load_avg 12 1444220391\n\
ceph-osd.3.op_latency 1.5 1444220391\n\
ceph-osd.3.op_r_latency 0.25 1444220391\n\
ceph-osd.3.op_w_latency 2.75 1444220391\n\
ceph-osd.3.subop_latency 0 1444220391\n\
ceph-osd.3.subop_w_latency 3.125 1444220391\n\
ceph-osd.3.journal_latency 4.5 1444220391\n\
ceph-osd.3.apply_latency 5.5 1444220391\n\
ceph-osd.3.queue_transaction_latency_avg 6.5 1444220391\n";
    assert_eq!(text, expected);
}

#[test]
fn carbon_string_negative_values() {
    let mut p = sample();
    p.osd.loadavg = -4;
    let text = p.to_carbon_string("root", 0, -7);
    assert!(text.starts_with("root-osd.0.load_avg -4 -7\n"));
}

#[test]
fn influx_point_of_counters() {
    let point = sample().to_influx_point(17);
    assert_eq!(point.measurement, "osd");
    assert_eq!(point.tags, vec![("osd".to_string(), "17".to_string())]);
    let expected: Vec<(String, i64)> = vec![
        ("load_avg", 12),
        ("op_latency", 1),
        ("op_r_latency", 0),
        ("op_w_latency", 2),
        ("subop_latency", 0),
        ("subop_w_latency", 3),
        ("journal_latency", 4),
        ("apply_latency", 5),
        ("queue_transaction_latency_avg", 6),
    ]
    .into_iter()
    .map(|(k, v)| (k.to_string(), v))
    .collect();
    assert_eq!(point.fields, expected);
}

#[test]
fn stdout_only_when_listed() {
    assert!(OsdPerf::stdout_requested(&args(&["carbon", "stdout"], false, false)));
    assert!(!OsdPerf::stdout_requested(&args(&["influx"], true, true)));
    assert!(!OsdPerf::stdout_requested(&args(&[], true, true)));
}

#[test]
fn influx_write_needs_output_and_server() {
    let p = sample();
    assert!(p.influx_write(&args(&["influx"], false, true), 1).is_none());
    assert!(p.influx_write(&args(&["stdout"], true, true), 1).is_none());
    let (conn, point) = p.influx_write(&args(&["stdout", "influx"], true, false), 1).unwrap();
    assert_eq!(conn.host_url, "http://db.local:8086");
    assert_eq!(conn.username, "admin");
    assert_eq!(conn.password, "SECRET-REDACTED");
    assert_eq!(conn.database, "ceph");
    assert_eq!(point.tags[0].1, "1");
}

#[test]
fn carbon_write_needs_output_and_server() {
    let p = sample();
    assert!(p.carbon_write(&args(&["carbon"], true, false), 2, 10).is_none());
    assert!(p.carbon_write(&args(&["influx"], true, true), 2, 10).is_none());
    let (addr, data) = p.carbon_write(&args(&["carbon"], false, true), 2, 10).unwrap();
    assert_eq!(addr, "graphite:2003");
    assert_eq!(data, p.to_carbon_string("ceph", 2, 10));
}

#[test]
fn carbon_lines_name_the_influx_fields_in_order() {
    let p = sample();
    let text = p.to_carbon_string("ceph", 4, 99);
    let point = p.to_influx_point(4);
    let names: Vec<String> = text
        .lines()
        .map(|line| {
            let key = line.split(' ').next().unwrap();
            key.strip_prefix("ceph-osd.4.").unwrap().to_string()
        })
        .collect();
    let fields: Vec<String> = point.fields.iter().map(|(k, _)| k.clone()).collect();
    assert_eq!(names, fields);
}

#[test]
fn normalize_dump_ignores_pre_spelled_underscores() {
    for s in ["{\"mutex-FileJournal::lock\":-1}", ":::--::", "a-b:c::d", ""] {
        let n = OsdPerf::normalize_dump(s);
        assert_eq!(OsdPerf::normalize_dump(&s.replace("-", "_")), n);
        assert_eq!(OsdPerf::normalize_dump(&s.replace("::", "_")), n);
    }
}
