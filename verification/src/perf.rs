//! OSD performance counters: the preparation of a perf dump for decoding,
//! and the Carbon and InfluxDB records built from the counters.

use vstd::prelude::*;
use crate::communication::{
    connection_for, influx_connection, output_listed, output_selected, Args, InfluxConnection,
    carbon_address, carbon_address_text,
};
use crate::decimal::{decimal_text, push_decimal, push_signed_decimal, signed_decimal_text};
use crate::text::{occurs_at, push_str, replace_all};

verus! {

/// Whether `::` stands nowhere in `s`.
pub open spec fn has_no_double_colon(s: Seq<char>) -> bool {
    forall|i: int| 0 <= i < s.len() - 1 ==> !(#[trigger] s[i] == ':' && s[i + 1] == ':')
}

/// A perf dump's text with every `-` turned into `_`, then every `::` into `_`,
/// so that counter names such as `mutex-FileJournal::lock` become field names.
pub open spec fn normalized_dump(s: Seq<char>) -> Seq<char> {
    replace_all(replace_all(s, seq!['-'], seq!['_']), seq![':', ':'], seq!['_'])
}

/// The `WBThrottle` section of a perf dump: the writeback throttle.
#[derive(Clone, Debug)]
pub struct Wbthrottle {
    pub bytes_dirtied: i64,
    pub bytes_wb: i64,
    pub ios_dirtied: i64,
    pub ios_wb: i64,
    pub inodes_dirtied: i64,
    pub inodes_wb: i64,
}

/// A latency counter of a perf dump: how many samples were taken, and their
/// sum in seconds. The sum is a floating-point number in the dump; it is held
/// here as the two things that are reported of it: its integer part (as a cast
/// to a 64-bit integer gives it) and its decimal text.
#[derive(Clone, Debug)]
pub struct FilestoreJournalLatency {
    pub avgcount: i64,
    pub sum_as_integer: i64,
    pub sum_text: String,
}

/// A byte counter of a perf dump: samples and their integer sum.
#[derive(Clone, Debug)]
pub struct FilestoreJournalWrByte {
    pub avgcount: i64,
    pub sum: i64,
}

/// The `filestore` section of a perf dump.
#[derive(Clone, Debug)]
pub struct Filestore {
    pub journal_queue_max_ops: i64,
    pub journal_queue_ops: i64,
    pub journal_ops: i64,
    pub journal_queue_max_bytes: i64,
    pub journal_queue_bytes: i64,
    pub journal_bytes: i64,
    pub journal_latency: FilestoreJournalLatency,
    pub journal_wr: i64,
    pub journal_wr_bytes: FilestoreJournalWrByte,
    pub journal_full: i64,
    pub committing: i64,
    pub commitcycle: i64,
    pub commitcycle_interval: FilestoreJournalLatency,
    pub commitcycle_latency: FilestoreJournalLatency,
    pub op_queue_max_ops: i64,
    pub op_queue_ops: i64,
    pub ops: i64,
    pub op_queue_max_bytes: i64,
    pub op_queue_bytes: i64,
    pub bytes: i64,
    pub apply_latency: FilestoreJournalLatency,
    pub queue_transaction_latency_avg: FilestoreJournalLatency,
}

/// The `leveldb` section of a perf dump.
#[derive(Clone, Debug)]
pub struct Leveldb {
    pub leveldb_get: i64,
    pub leveldb_transaction: i64,
    pub leveldb_compact: i64,
    pub leveldb_compact_range: i64,
    pub leveldb_compact_queue_merge: i64,
    pub leveldb_compact_queue_len: i64,
}

/// A lock section of a perf dump: the time spent waiting for the lock.
#[derive(Clone, Debug)]
pub struct MutexFilejournalCompletionsLock {
    pub wait: FilestoreJournalLatency,
}

/// The `objecter` section of a perf dump.
#[derive(Clone, Debug)]
pub struct Objecter {
    pub op_active: i64,
    pub op_laggy: i64,
    pub op_send: i64,
    pub op_send_bytes: i64,
    pub op_resend: i64,
    pub op_ack: i64,
    pub op_commit: i64,
    pub op: i64,
    pub op_r: i64,
    pub op_w: i64,
    pub op_rmw: i64,
    pub op_pg: i64,
    pub osdop_stat: i64,
    pub osdop_create: i64,
    pub osdop_read: i64,
    pub osdop_write: i64,
    pub osdop_writefull: i64,
    pub osdop_append: i64,
    pub osdop_zero: i64,
    pub osdop_truncate: i64,
    pub osdop_delete: i64,
    pub osdop_mapext: i64,
    pub osdop_sparse_read: i64,
    pub osdop_clonerange: i64,
    pub osdop_getxattr: i64,
    pub osdop_setxattr: i64,
    pub osdop_cmpxattr: i64,
    pub osdop_rmxattr: i64,
    pub osdop_resetxattrs: i64,
    pub osdop_tmap_up: i64,
    pub osdop_tmap_put: i64,
    pub osdop_tmap_get: i64,
    pub osdop_call: i64,
    pub osdop_watch: i64,
    pub osdop_notify: i64,
    pub osdop_src_cmpxattr: i64,
    pub osdop_pgls: i64,
    pub osdop_pgls_filter: i64,
    pub osdop_other: i64,
    pub linger_active: i64,
    pub linger_send: i64,
    pub linger_resend: i64,
    pub poolop_active: i64,
    pub poolop_send: i64,
    pub poolop_resend: i64,
    pub poolstat_active: i64,
    pub poolstat_send: i64,
    pub poolstat_resend: i64,
    pub statfs_active: i64,
    pub statfs_send: i64,
    pub statfs_resend: i64,
    pub command_active: i64,
    pub command_send: i64,
    pub command_resend: i64,
    pub map_epoch: i64,
    pub map_full: i64,
    pub map_inc: i64,
    pub osd_sessions: i64,
    pub osd_session_open: i64,
    pub osd_session_close: i64,
    pub osd_laggy: i64,
}

/// The `osd` section of a perf dump.
#[derive(Clone, Debug)]
pub struct Osd {
    pub opq: i64,
    pub op_wip: i64,
    pub op: i64,
    pub op_in_bytes: i64,
    pub op_out_bytes: i64,
    pub op_latency: FilestoreJournalLatency,
    pub op_process_latency: FilestoreJournalLatency,
    pub op_r: i64,
    pub op_r_out_bytes: i64,
    pub op_r_latency: FilestoreJournalLatency,
    pub op_r_process_latency: FilestoreJournalLatency,
    pub op_w: i64,
    pub op_w_in_bytes: i64,
    pub op_w_rlat: FilestoreJournalLatency,
    pub op_w_latency: FilestoreJournalLatency,
    pub op_w_process_latency: FilestoreJournalLatency,
    pub op_rw: i64,
    pub op_rw_in_bytes: i64,
    pub op_rw_out_bytes: i64,
    pub op_rw_rlat: FilestoreJournalLatency,
    pub op_rw_latency: FilestoreJournalLatency,
    pub op_rw_process_latency: FilestoreJournalLatency,
    pub subop: i64,
    pub subop_in_bytes: i64,
    pub subop_latency: FilestoreJournalLatency,
    pub subop_w: i64,
    pub subop_w_in_bytes: i64,
    pub subop_w_latency: FilestoreJournalLatency,
    pub subop_pull: i64,
    pub subop_pull_latency: FilestoreJournalLatency,
    pub subop_push: i64,
    pub subop_push_in_bytes: i64,
    pub subop_push_latency: FilestoreJournalLatency,
    pub pull: i64,
    pub push: i64,
    pub push_out_bytes: i64,
    pub push_in: i64,
    pub push_in_bytes: i64,
    pub recovery_ops: i64,
    pub loadavg: i64,
    pub buffer_bytes: i64,
    pub numpg: i64,
    pub numpg_primary: i64,
    pub numpg_replica: i64,
    pub numpg_stray: i64,
    pub heartbeat_to_peers: i64,
    pub heartbeat_from_peers: i64,
    pub map_messages: i64,
    pub map_message_epochs: i64,
    pub map_message_epoch_dups: i64,
    pub messages_delayed_for_map: i64,
    pub stat_bytes: i64,
    pub stat_bytes_used: i64,
    pub stat_bytes_avail: i64,
    pub copyfrom: i64,
    pub tier_promote: i64,
    pub tier_flush: i64,
    pub tier_flush_fail: i64,
    pub tier_try_flush: i64,
    pub tier_try_flush_fail: i64,
    pub tier_evict: i64,
    pub tier_whiteout: i64,
    pub tier_dirty: i64,
    pub tier_clean: i64,
    pub tier_delay: i64,
    pub agent_wake: i64,
    pub agent_skip: i64,
    pub agent_flush: i64,
    pub agent_evict: i64,
}

/// The `recoverystate_perf` section of a perf dump: the time spent in each recovery state.
#[allow(non_snake_case)]
#[derive(Clone, Debug)]
pub struct RecoverystatePerf {
    pub initial_latency: FilestoreJournalLatency,
    pub started_latency: FilestoreJournalLatency,
    pub reset_latency: FilestoreJournalLatency,
    pub start_latency: FilestoreJournalLatency,
    pub primary_latency: FilestoreJournalLatency,
    pub peering_latency: FilestoreJournalLatency,
    pub backfilling_latency: FilestoreJournalLatency,
    pub waitremotebackfillreserved_latency: FilestoreJournalLatency,
    pub waitlocalbackfillreserved_latency: FilestoreJournalLatency,
    pub notbackfilling_latency: FilestoreJournalLatency,
    pub repnotrecovering_latency: FilestoreJournalLatency,
    pub repwaitrecoveryreserved_latency: FilestoreJournalLatency,
    pub repwaitbackfillreserved_latency: FilestoreJournalLatency,
    pub RepRecovering_latency: FilestoreJournalLatency,
    pub activating_latency: FilestoreJournalLatency,
    pub waitlocalrecoveryreserved_latency: FilestoreJournalLatency,
    pub waitremoterecoveryreserved_latency: FilestoreJournalLatency,
    pub recovering_latency: FilestoreJournalLatency,
    pub recovered_latency: FilestoreJournalLatency,
    pub clean_latency: FilestoreJournalLatency,
    pub active_latency: FilestoreJournalLatency,
    pub replicaactive_latency: FilestoreJournalLatency,
    pub stray_latency: FilestoreJournalLatency,
    pub getinfo_latency: FilestoreJournalLatency,
    pub getlog_latency: FilestoreJournalLatency,
    pub waitactingchange_latency: FilestoreJournalLatency,
    pub incomplete_latency: FilestoreJournalLatency,
    pub getmissing_latency: FilestoreJournalLatency,
    pub waitupthru_latency: FilestoreJournalLatency,
}

/// A throttle section of a perf dump.
#[derive(Clone, Debug)]
pub struct ThrottleFilestoreByte {
    pub val: i64,
    pub max: i64,
    pub get: i64,
    pub get_sum: i64,
    pub get_or_fail_fail: i64,
    pub get_or_fail_success: i64,
    pub take: i64,
    pub take_sum: i64,
    pub put: i64,
    pub put_sum: i64,
    pub wait: FilestoreJournalLatency,
}

/// The performance counters of one OSD: every section of its perf dump, its
/// keys normalized (see `OsdPerf::normalize_dump`).
#[allow(non_snake_case)]
#[derive(Clone, Debug)]
pub struct OsdPerf {
    pub WBThrottle: Wbthrottle,
    pub filestore: Filestore,
    pub leveldb: Leveldb,
    pub mutex_FileJournal_completions_lock: MutexFilejournalCompletionsLock,
    pub mutex_FileJournal_finisher_lock: MutexFilejournalCompletionsLock,
    pub mutex_FileJournal_write_lock: MutexFilejournalCompletionsLock,
    pub mutex_FileJournal_writeq_lock: MutexFilejournalCompletionsLock,
    pub mutex_JOS_ApplyManager_apply_lock: MutexFilejournalCompletionsLock,
    pub mutex_JOS_ApplyManager_com_lock: MutexFilejournalCompletionsLock,
    pub mutex_JOS_SubmitManager_lock: MutexFilejournalCompletionsLock,
    pub mutex_WBThrottle_lock: MutexFilejournalCompletionsLock,
    pub objecter: Objecter,
    pub osd: Osd,
    pub recoverystate_perf: RecoverystatePerf,
    pub throttle_filestore_bytes: ThrottleFilestoreByte,
    pub throttle_filestore_ops: ThrottleFilestoreByte,
    pub throttle_msgr_dispatch_throttler_client: ThrottleFilestoreByte,
    pub throttle_msgr_dispatch_throttler_cluster: ThrottleFilestoreByte,
    pub throttle_msgr_dispatch_throttler_hb_back_server: ThrottleFilestoreByte,
    pub throttle_msgr_dispatch_throttler_hb_front_server: ThrottleFilestoreByte,
    pub throttle_msgr_dispatch_throttler_hbclient: ThrottleFilestoreByte,
    pub throttle_msgr_dispatch_throttler_ms_objecter: ThrottleFilestoreByte,
    pub throttle_objecter_bytes: ThrottleFilestoreByte,
    pub throttle_objecter_ops: ThrottleFilestoreByte,
    pub throttle_osd_client_bytes: ThrottleFilestoreByte,
    pub throttle_osd_client_messages: ThrottleFilestoreByte,
}

/// A point written to InfluxDB: its measurement, its tags and its integer fields.
#[derive(Clone, Debug)]
pub struct InfluxPoint {
    pub measurement: String,
    pub tags: Vec<(String, String)>,
    pub fields: Vec<(String, i64)>,
}

/// The nine reported values of a perf dump, with the names they are reported under:
/// the load average, then the sums of the eight latency counters.
pub open spec fn reported_values(p: OsdPerf) -> Seq<(Seq<char>, i64)> {
    seq![
        ("load_avg"@, p.osd.loadavg),
        ("op_latency"@, p.osd.op_latency.sum_as_integer),
        ("op_r_latency"@, p.osd.op_r_latency.sum_as_integer),
        ("op_w_latency"@, p.osd.op_w_latency.sum_as_integer),
        ("subop_latency"@, p.osd.subop_latency.sum_as_integer),
        ("subop_w_latency"@, p.osd.subop_w_latency.sum_as_integer),
        ("journal_latency"@, p.filestore.journal_latency.sum_as_integer),
        ("apply_latency"@, p.filestore.apply_latency.sum_as_integer),
        ("queue_transaction_latency_avg"@, p.filestore.queue_transaction_latency_avg.sum_as_integer),
    ]
}

/// Whether `point` is the InfluxDB point of the counters `p` of OSD `osd_num`:
/// measurement `osd`, the one tag `osd` set to the OSD number, and the nine
/// reported values as integer fields.
pub open spec fn osd_point(point: InfluxPoint, p: OsdPerf, osd_num: u32) -> bool {
    &&& point.measurement@ == "osd"@
    &&& point.tags@.len() == 1
    &&& point.tags@[0].0@ == "osd"@
    &&& point.tags@[0].1@ == decimal_text(osd_num as nat)
    &&& point.fields@.len() == reported_values(p).len()
    &&& forall|i: int|
        0 <= i < point.fields@.len() ==> (#[trigger] point.fields@[i]).0@ == reported_values(p)[i].0
            && point.fields@[i].1 == reported_values(p)[i].1
}

/// One line of Carbon data: `<root>.<metric> <value> <timestamp>` and a newline.
pub open spec fn carbon_line(
    root: Seq<char>,
    metric: Seq<char>,
    value: Seq<char>,
    timestamp: Seq<char>,
) -> Seq<char> {
    root + seq!['.'] + metric + seq![' '] + value + seq![' '] + timestamp + seq!['\n']
}

/// The Carbon data of the counters `p` of OSD `osd_num`: nine lines under the
/// root `<root_key>-osd.<osd_num>`, the load average as an integer and the
/// latency sums as their decimal text, each stamped with `timestamp` (seconds).
pub open spec fn carbon_text(p: OsdPerf, root_key: Seq<char>, osd_num: u32, timestamp: i64) -> Seq<
    char,
> {
    let root = root_key + "-osd."@ + decimal_text(osd_num as nat);
    let ts = signed_decimal_text(timestamp as int);
    carbon_line(root, "load_avg"@, signed_decimal_text(p.osd.loadavg as int), ts) + carbon_line(
        root,
        "op_latency"@,
        p.osd.op_latency.sum_text@,
        ts,
    ) + carbon_line(root, "op_r_latency"@, p.osd.op_r_latency.sum_text@, ts) + carbon_line(
        root,
        "op_w_latency"@,
        p.osd.op_w_latency.sum_text@,
        ts,
    ) + carbon_line(root, "subop_latency"@, p.osd.subop_latency.sum_text@, ts) + carbon_line(
        root,
        "subop_w_latency"@,
        p.osd.subop_w_latency.sum_text@,
        ts,
    ) + carbon_line(root, "journal_latency"@, p.filestore.journal_latency.sum_text@, ts)
        + carbon_line(root, "apply_latency"@, p.filestore.apply_latency.sum_text@, ts)
        + carbon_line(
        root,
        "queue_transaction_latency_avg"@,
        p.filestore.queue_transaction_latency_avg.sum_text@,
        ts,
    )
}

/// The text of each reported value in the Carbon data, in the order of
/// `reported_values`: the load average as an integer, then the decimal text of
/// each latency sum.
pub open spec fn carbon_values(p: OsdPerf) -> Seq<Seq<char>> {
    seq![
        signed_decimal_text(p.osd.loadavg as int),
        p.osd.op_latency.sum_text@,
        p.osd.op_r_latency.sum_text@,
        p.osd.op_w_latency.sum_text@,
        p.osd.subop_latency.sum_text@,
        p.osd.subop_w_latency.sum_text@,
        p.filestore.journal_latency.sum_text@,
        p.filestore.apply_latency.sum_text@,
        p.filestore.queue_transaction_latency_avg.sum_text@,
    ]
}

/// One Carbon line per metric name, with the value of the same index.
pub open spec fn carbon_lines(
    root: Seq<char>,
    names: Seq<Seq<char>>,
    values: Seq<Seq<char>>,
    timestamp: Seq<char>,
) -> Seq<char>
    decreases names.len(),
{
    if names.len() == 0 {
        seq![]
    } else {
        carbon_lines(root, names.drop_last(), values.drop_last(), timestamp) + carbon_line(
            root,
            names.last(),
            values.last(),
            timestamp,
        )
    }
}

/// Carbon and InfluxDB get the same metrics: the Carbon data is one line per
/// field of the InfluxDB point, in the same order and under the same names.
pub proof fn carbon_lines_follow_influx_fields(
    p: OsdPerf,
    root_key: Seq<char>,
    osd_num: u32,
    timestamp: i64,
)
    ensures
        carbon_text(p, root_key, osd_num, timestamp) == carbon_lines(
            root_key + "-osd."@ + decimal_text(osd_num as nat),
            reported_values(p).map_values(|v: (Seq<char>, i64)| v.0),
            carbon_values(p),
            signed_decimal_text(timestamp as int),
        ),
{
    let root = root_key + "-osd."@ + decimal_text(osd_num as nat);
    let ts = signed_decimal_text(timestamp as int);
    let names = reported_values(p).map_values(|v: (Seq<char>, i64)| v.0);
    let values = carbon_values(p);
    reveal_with_fuel(carbon_lines, 10);
    assert(carbon_lines(root, names, values, ts) =~= carbon_text(p, root_key, osd_num, timestamp));
}

fn push_carbon_line(
    out: &mut Vec<char>,
    root: &Vec<char>,
    metric: &str,
    value: &str,
    timestamp: &Vec<char>,
)
    ensures
        final(out)@ == old(out)@ + carbon_line(root@, metric@, value@, timestamp@),
{
    let ghost start = out@;
    let mut r = root.clone();
    out.append(&mut r);
    out.push('.');
    push_str(out, metric);
    out.push(' ');
    push_str(out, value);
    out.push(' ');
    let mut t = timestamp.clone();
    out.append(&mut t);
    out.push('\n');
    assert(out@ =~= start + carbon_line(root@, metric@, value@, timestamp@));
}

fn push_point_field(fields: &mut Vec<(String, i64)>, name: &str, value: i64)
    ensures
        final(fields)@.len() == old(fields)@.len() + 1,
        forall|i: int| 0 <= i < old(fields)@.len() ==> final(fields)@[i] == old(fields)@[i],
        final(fields)@.last().0@ == name@,
        final(fields)@.last().1 == value,
{
    fields.push((name.to_owned(), value));
}

impl OsdPerf {
    /// The text of a perf dump as it is decoded: each `-` replaced by `_`,
    /// then each `::` replaced by `_`; every other character is kept.
    pub fn normalize_dump(json_data: &str) -> (r: String)
        ensures
            r@ == normalized_dump(json_data@),
            free_of_separators(json_data@) ==> r@ == json_data@,
            r@.filter(outside_separators()) == json_data@.filter(outside_separators()),
    {
        proof {
            if free_of_separators(json_data@) {
                normalize_keeps_dump_without_separators(json_data@);
            }
            normalize_keeps_other_characters(json_data@);
        }
        let chars = crate::text::chars_of(json_data);
        let dash = vec!['-'];
        let colons = vec![':', ':'];
        let underscore = vec!['_'];
        let step = crate::text::replace_all_chars(&chars, &dash, &underscore);
        let done = crate::text::replace_all_chars(&step, &colons, &underscore);
        assert(dash@ =~= seq!['-']);
        assert(colons@ =~= seq![':', ':']);
        assert(underscore@ =~= seq!['_']);
        crate::text::string_of(&done)
    }

    /// The Carbon data of these counters for OSD `osd_num`, stamped with
    /// `timestamp` (seconds since the epoch).
    pub fn to_carbon_string(&self, root_key: &str, osd_num: u32, timestamp: i64) -> (r: String)
        ensures
            r@ == carbon_text(*self, root_key@, osd_num, timestamp),
    {
        let mut root: Vec<char> = Vec::new();
        push_str(&mut root, root_key);
        push_str(&mut root, "-osd.");
        push_decimal(&mut root, osd_num as u64);
        let mut ts: Vec<char> = Vec::new();
        push_signed_decimal(&mut ts, timestamp);
        let mut load: Vec<char> = Vec::new();
        push_signed_decimal(&mut load, self.osd.loadavg);
        let load_text = crate::text::string_of(&load);
        let mut out: Vec<char> = Vec::new();
        push_carbon_line(&mut out, &root, "load_avg", load_text.as_str(), &ts);
        push_carbon_line(&mut out, &root, "op_latency", self.osd.op_latency.sum_text.as_str(), &ts);
        push_carbon_line(
            &mut out,
            &root,
            "op_r_latency",
            self.osd.op_r_latency.sum_text.as_str(),
            &ts,
        );
        push_carbon_line(
            &mut out,
            &root,
            "op_w_latency",
            self.osd.op_w_latency.sum_text.as_str(),
            &ts,
        );
        push_carbon_line(
            &mut out,
            &root,
            "subop_latency",
            self.osd.subop_latency.sum_text.as_str(),
            &ts,
        );
        push_carbon_line(
            &mut out,
            &root,
            "subop_w_latency",
            self.osd.subop_w_latency.sum_text.as_str(),
            &ts,
        );
        push_carbon_line(
            &mut out,
            &root,
            "journal_latency",
            self.filestore.journal_latency.sum_text.as_str(),
            &ts,
        );
        push_carbon_line(
            &mut out,
            &root,
            "apply_latency",
            self.filestore.apply_latency.sum_text.as_str(),
            &ts,
        );
        push_carbon_line(
            &mut out,
            &root,
            "queue_transaction_latency_avg",
            self.filestore.queue_transaction_latency_avg.sum_text.as_str(),
            &ts,
        );
        assert(out@ =~= carbon_text(*self, root_key@, osd_num, timestamp));
        crate::text::string_of(&out)
    }

    /// The InfluxDB point of these counters for OSD `osd_num`.
    pub fn to_influx_point(&self, osd_num: u32) -> (point: InfluxPoint)
        ensures
            osd_point(point, *self, osd_num),
    {
        let mut tags: Vec<(String, String)> = Vec::new();
        tags.push(("osd".to_owned(), crate::decimal::u64_to_decimal(osd_num as u64)));
        let mut fields: Vec<(String, i64)> = Vec::new();
        push_point_field(&mut fields, "load_avg", self.osd.loadavg);
        push_point_field(&mut fields, "op_latency", self.osd.op_latency.sum_as_integer);
        push_point_field(&mut fields, "op_r_latency", self.osd.op_r_latency.sum_as_integer);
        push_point_field(&mut fields, "op_w_latency", self.osd.op_w_latency.sum_as_integer);
        push_point_field(&mut fields, "subop_latency", self.osd.subop_latency.sum_as_integer);
        push_point_field(&mut fields, "subop_w_latency", self.osd.subop_w_latency.sum_as_integer);
        push_point_field(
            &mut fields,
            "journal_latency",
            self.filestore.journal_latency.sum_as_integer,
        );
        push_point_field(&mut fields, "apply_latency", self.filestore.apply_latency.sum_as_integer);
        push_point_field(
            &mut fields,
            "queue_transaction_latency_avg",
            self.filestore.queue_transaction_latency_avg.sum_as_integer,
        );
        let point = InfluxPoint { measurement: "osd".to_owned(), tags, fields };
        assert forall|i: int| 0 <= i < point.fields@.len() implies (#[trigger] point.fields@[
            i
        ]).0@ == reported_values(*self)[i].0 && point.fields@[i].1 == reported_values(
            *self,
        )[i].1 by {
            assert(0 <= i < 9);
        }
        point
    }

    /// Whether these counters are printed: the output `stdout` is turned on.
    pub fn stdout_requested(args: &Args) -> (b: bool)
        ensures
            b == output_listed(args.outputs@, "stdout"@),
    {
        output_selected(&args.outputs, "stdout")
    }

    /// What is written to InfluxDB for these counters of OSD `osd_num`:
    /// nothing unless the output `influx` is turned on and a server is given;
    /// else the connection to that server and the point of these counters.
    pub fn influx_write(&self, args: &Args, osd_num: u32) -> (r: Option<
        (InfluxConnection, InfluxPoint),
    >)
        ensures
            r is Some <==> output_listed(args.outputs@, "influx"@) && args.influx is Some,
            r matches Some(w) ==> connection_for(w.0, args.influx->0) && osd_point(
                w.1,
                *self,
                osd_num,
            ),
    {
        if output_selected(&args.outputs, "influx") {
            match &args.influx {
                Some(influx) => Some((influx_connection(influx), self.to_influx_point(osd_num))),
                None => None,
            }
        } else {
            None
        }
    }

    /// What is written to Carbon for these counters of OSD `osd_num`, stamped
    /// with `timestamp` (seconds): nothing unless the output `carbon` is turned
    /// on and a server is given; else the server's address and the Carbon data
    /// under the server's root key.
    pub fn carbon_write(&self, args: &Args, osd_num: u32, timestamp: i64) -> (r: Option<
        (String, String),
    >)
        ensures
            r is Some <==> output_listed(args.outputs@, "carbon"@) && args.carbon is Some,
            r matches Some(w) ==> w.0@ == carbon_address_text(
                args.carbon->0.host@,
                args.carbon->0.port@,
            ) && w.1@ == carbon_text(*self, args.carbon->0.root_key@, osd_num, timestamp),
    {
        if output_selected(&args.outputs, "carbon") {
            match &args.carbon {
                Some(carbon) => Some(
                    (
                        carbon_address(carbon),
                        self.to_carbon_string(carbon.root_key.as_str(), osd_num, timestamp),
                    ),
                ),
                None => None,
            }
        } else {
            None
        }
    }
}

proof fn lemma_colons_collapsed(s: Seq<char>)
    ensures
        has_no_double_colon(replace_all(s, seq![':', ':'], seq!['_'])),
        replace_all(s, seq![':', ':'], seq!['_']).len() > 0 && replace_all(
            s,
            seq![':', ':'],
            seq!['_'],
        )[0] == ':' ==> s.len() > 0 && s[0] == ':' && !(s.len() >= 2 && s[1] == ':'),
    decreases s.len(),
{
    let pat = seq![':', ':'];
    let rep = seq!['_'];
    let r = replace_all(s, pat, rep);
    if s.len() < 2 {
    } else if s.take(2) == pat {
        let u = s.skip(2);
        lemma_colons_collapsed(u);
        let t = replace_all(u, pat, rep);
        assert(r == rep + t);
        assert forall|i: int| 0 <= i < r.len() - 1 implies !(#[trigger] r[i] == ':' && r[i + 1]
            == ':') by {
            if i > 0 {
                assert(r[i] == t[i - 1] && r[i + 1] == t[i]);
            }
        }
    } else {
        let u = s.skip(1);
        lemma_colons_collapsed(u);
        let t = replace_all(u, pat, rep);
        assert(r == seq![s[0]] + t);
        if s[0] == ':' {
            assert(s[1] != ':') by {
                if s[1] == ':' {
                    assert(s.take(2) =~= pat);
                }
            }
        }
        assert forall|i: int| 0 <= i < r.len() - 1 implies !(#[trigger] r[i] == ':' && r[i + 1]
            == ':') by {
            if i > 0 {
                assert(r[i] == t[i - 1] && r[i + 1] == t[i]);
            } else {
                assert(r[1] == t[0]);
            }
        }
    }
}

/// A normalized perf dump holds no `-` and no `::`.
pub proof fn normalized_dump_has_no_dash_or_double_colon(s: Seq<char>)
    ensures
        !normalized_dump(s).contains('-'),
        has_no_double_colon(normalized_dump(s)),
{
    let step = replace_all(s, seq!['-'], seq!['_']);
    crate::text::lemma_replace_char_gone(s, '-', seq!['_']);
    crate::text::lemma_replace_chars_from(step, seq![':', ':'], seq!['_']);
    lemma_colons_collapsed(step);
    let r = normalized_dump(s);
    if r.contains('-') {
        let i = choose|i: int| 0 <= i < r.len() && r[i] == '-';
        if step.contains(r[i]) {
            let k = choose|k: int| 0 <= k < step.len() && step[k] == r[i];
            assert(seq!['_'].contains('-'));
        } else {
            assert(seq!['_'].contains(r[i]));
            assert(seq!['_'][0] == '_');
        }
    }
}

/// Spelling each `-` as `_` beforehand changes nothing in the normalized dump.
pub proof fn normalize_ignores_dashes_written_as_underscores(s: Seq<char>)
    ensures
        normalized_dump(replace_all(s, seq!['-'], seq!['_'])) == normalized_dump(s),
{
    let r1 = replace_all(s, seq!['-'], seq!['_']);
    lemma_dashes_absent_after(s);
    crate::text::lemma_replace_absent(r1, seq!['-'], seq!['_']);
}

/// Spelling each `::` as `_` beforehand changes nothing in the normalized dump.
pub proof fn normalize_ignores_double_colons_written_as_underscores(s: Seq<char>)
    ensures
        normalized_dump(replace_all(s, seq![':', ':'], seq!['_'])) == normalized_dump(s),
{
    let pat = seq![':', ':'];
    let rep = seq!['_'];
    let r2 = replace_all(s, pat, rep);
    let r1 = replace_all(s, seq!['-'], seq!['_']);
    lemma_dashes_commute_with_colons(s);
    // Dashes and double colons do not interact, and collapsing colons twice is collapsing once.
    lemma_colons_collapsed(r1);
    let x = replace_all(r1, pat, rep);
    assert forall|i: int| !occurs_at(x, pat, i) by {
        if occurs_at(x, pat, i) {
            assert(x.subrange(i, i + 2)[0] == x[i]);
            assert(x.subrange(i, i + 2)[1] == x[i + 1]);
        }
    }
    crate::text::lemma_replace_absent(x, pat, rep);
}

/// The dash replacement turns each `-` into `_` and keeps every other character.
proof fn lemma_dashes_mapped(s: Seq<char>)
    ensures
        replace_all(s, seq!['-'], seq!['_']) == s.map_values(
            |c: char|
                if c == '-' {
                    '_'
                } else {
                    c
                },
        ),
    decreases s.len(),
{
    let f = |c: char|
        if c == '-' {
            '_'
        } else {
            c
        };
    if s.len() == 0 {
        assert(s.map_values(f) =~= s);
    } else {
        lemma_dashes_mapped(s.skip(1));
        assert(s.take(1) =~= seq![s[0]]);
        assert(s.map_values(f) =~= seq![f(s[0])] + s.skip(1).map_values(f));
    }
}

proof fn lemma_dashes_absent_after(s: Seq<char>)
    ensures
        forall|i: int| !occurs_at(replace_all(s, seq!['-'], seq!['_']), seq!['-'], i),
{
    let r1 = replace_all(s, seq!['-'], seq!['_']);
    lemma_dashes_mapped(s);
    assert forall|i: int| !occurs_at(r1, seq!['-'], i) by {
        if occurs_at(r1, seq!['-'], i) {
            assert(r1.subrange(i, i + 1)[0] == r1[i]);
        }
    }
}

/// Replacing dashes and collapsing double colons can be done in either order.
proof fn lemma_dashes_commute_with_colons(s: Seq<char>)
    ensures
        replace_all(replace_all(s, seq![':', ':'], seq!['_']), seq!['-'], seq!['_']) == replace_all(
            replace_all(s, seq!['-'], seq!['_']),
            seq![':', ':'],
            seq!['_'],
        ),
    decreases s.len(),
{
    let pat = seq![':', ':'];
    let rep = seq!['_'];
    let f = |c: char|
        if c == '-' {
            '_'
        } else {
            c
        };
    let m = s.map_values(f);
    let r2 = replace_all(s, pat, rep);
    lemma_dashes_mapped(s);
    lemma_dashes_mapped(r2);
    if s.len() < 2 {
    } else if s.take(2) == pat {
        assert(m.take(2) =~= s.take(2).map_values(f));
        assert(m.take(2) =~= pat);
        assert(m.skip(2) =~= s.skip(2).map_values(f));
        lemma_dashes_commute_with_colons(s.skip(2));
        lemma_dashes_mapped(s.skip(2));
        lemma_dashes_mapped(replace_all(s.skip(2), pat, rep));
        assert(r2.map_values(f) =~= rep + replace_all(s.skip(2), pat, rep).map_values(f));
    } else {
        assert(m.take(2) != pat) by {
            if m.take(2) == pat {
                assert(s.take(2) =~= pat);
            }
        }
        assert(m.skip(1) =~= s.skip(1).map_values(f));
        lemma_dashes_commute_with_colons(s.skip(1));
        lemma_dashes_mapped(s.skip(1));
        lemma_dashes_mapped(replace_all(s.skip(1), pat, rep));
        assert(r2.map_values(f) =~= seq![f(s[0])] + replace_all(s.skip(1), pat, rep).map_values(
            f,
        ));
    }
}

/// Normalizing a perf dump twice gives what normalizing it once gives.
pub proof fn normalize_dump_idempotent(s: Seq<char>)
    ensures
        normalized_dump(normalized_dump(s)) == normalized_dump(s),
{
    let n = normalized_dump(s);
    normalized_dump_has_no_dash_or_double_colon(s);
    assert forall|i: int| !occurs_at(n, seq!['-'], i) by {
        if occurs_at(n, seq!['-'], i) {
            assert(n.subrange(i, i + 1)[0] == n[i]);
            assert(n[i] == '-');
        }
    }
    crate::text::lemma_replace_absent(n, seq!['-'], seq!['_']);
    assert forall|i: int| !occurs_at(n, seq![':', ':'], i) by {
        if occurs_at(n, seq![':', ':'], i) {
            assert(n.subrange(i, i + 2)[0] == n[i]);
            assert(n.subrange(i, i + 2)[1] == n[i + 1]);
            assert(n[i] == ':' && n[i + 1] == ':');
        }
    }
    crate::text::lemma_replace_absent(n, seq![':', ':'], seq!['_']);
}

/// The characters of a dump that take no part in the spelling of its keys'
/// separators: all but `-`, `:` and `_`.
pub open spec fn outside_separators() -> spec_fn(char) -> bool {
    |c: char| c != '-' && c != ':' && c != '_'
}

/// Whether `s` holds no `-` and no `::`.
pub open spec fn free_of_separators(s: Seq<char>) -> bool {
    &&& forall|i: int| 0 <= i < s.len() ==> #[trigger] s[i] != '-'
    &&& forall|i: int| 0 <= i < s.len() - 1 ==> !(#[trigger] s[i] == ':' && s[i + 1] == ':')
}

/// Normalization only rewrites `-` and `::`: a dump that holds neither comes
/// out as it went in.
pub proof fn normalize_keeps_dump_without_separators(s: Seq<char>)
    requires
        free_of_separators(s),
    ensures
        normalized_dump(s) == s,
{
    assert forall|i: int| !occurs_at(s, seq!['-'], i) by {
        if occurs_at(s, seq!['-'], i) {
            assert(s.subrange(i, i + 1)[0] == s[i]);
        }
    }
    crate::text::lemma_replace_absent(s, seq!['-'], seq!['_']);
    lemma_free_has_no_double_colon(s);
    crate::text::lemma_replace_absent(s, seq![':', ':'], seq!['_']);
}

/// Normalization keeps every other character: the characters of a dump other
/// than `-`, `:` and `_` come out unchanged, in the same order, and no other
/// such character is added. Numbers such as `1.5` pass through as they are.
pub proof fn normalize_keeps_other_characters(s: Seq<char>)
    ensures
        normalized_dump(s).filter(outside_separators()) == s.filter(outside_separators()),
{
    let keep = outside_separators();
    reveal_with_fuel(Seq::filter, 3);
    assert(seq!['-'].drop_last() =~= Seq::<char>::empty());
    assert(seq![':', ':'].drop_last() =~= seq![':']);
    assert(seq![':'].drop_last() =~= Seq::<char>::empty());
    assert(seq!['_'].drop_last() =~= Seq::<char>::empty());
    assert(seq!['-'].filter(keep) =~= Seq::<char>::empty());
    assert(seq![':', ':'].filter(keep) =~= Seq::<char>::empty());
    assert(seq!['_'].filter(keep) =~= Seq::<char>::empty());
    let step = replace_all(s, seq!['-'], seq!['_']);
    crate::text::lemma_replace_keeps_selected(s, seq!['-'], seq!['_'], keep);
    crate::text::lemma_replace_keeps_selected(step, seq![':', ':'], seq!['_'], keep);
}

/// Whether `fields` carries `value` under the name `name`: a field of that
/// name is there, and every field of that name holds `value`.
pub open spec fn carries_field(fields: Seq<(String, i64)>, name: Seq<char>, value: i64) -> bool {
    &&& exists|i: int| 0 <= i < fields.len() && (#[trigger] fields[i]).0@ == name
    &&& forall|i: int|
        0 <= i < fields.len() && (#[trigger] fields[i]).0@ == name ==> fields[i].1 == value
}

proof fn lemma_point_carries(point: InfluxPoint, p: OsdPerf, osd_num: u32, k: int)
    requires
        osd_point(point, p, osd_num),
        0 <= k < reported_values(p).len(),
        forall|i: int|
            0 <= i < reported_values(p).len() && i != k ==> #[trigger] reported_values(p)[i].0
                != reported_values(p)[k].0,
    ensures
        carries_field(point.fields@, reported_values(p)[k].0, reported_values(p)[k].1),
{
    assert(point.fields@[k].0@ == reported_values(p)[k].0);
}

/// Each field of an OSD's InfluxDB point is named after the counter whose
/// value it carries: `load_avg` carries the load average, and each latency
/// field the integer part of the sum of the latency counter of the same name
/// (`journal_latency`, `apply_latency` and `queue_transaction_latency_avg`
/// those of the `filestore` section, the others those of the `osd` section).
/// No other counter, such as the processing latencies, reaches the point.
pub proof fn influx_fields_carry_named_counters(point: InfluxPoint, p: OsdPerf, osd_num: u32)
    requires
        osd_point(point, p, osd_num),
    ensures
        point.fields@.len() == 9,
        carries_field(point.fields@, "load_avg"@, p.osd.loadavg),
        carries_field(point.fields@, "op_latency"@, p.osd.op_latency.sum_as_integer),
        carries_field(point.fields@, "op_r_latency"@, p.osd.op_r_latency.sum_as_integer),
        carries_field(point.fields@, "op_w_latency"@, p.osd.op_w_latency.sum_as_integer),
        carries_field(point.fields@, "subop_latency"@, p.osd.subop_latency.sum_as_integer),
        carries_field(point.fields@, "subop_w_latency"@, p.osd.subop_w_latency.sum_as_integer),
        carries_field(
            point.fields@,
            "journal_latency"@,
            p.filestore.journal_latency.sum_as_integer,
        ),
        carries_field(point.fields@, "apply_latency"@, p.filestore.apply_latency.sum_as_integer),
        carries_field(
            point.fields@,
            "queue_transaction_latency_avg"@,
            p.filestore.queue_transaction_latency_avg.sum_as_integer,
        ),
{
    reveal_strlit("load_avg");
    reveal_strlit("op_latency");
    reveal_strlit("op_r_latency");
    reveal_strlit("op_w_latency");
    reveal_strlit("subop_latency");
    reveal_strlit("subop_w_latency");
    reveal_strlit("journal_latency");
    reveal_strlit("apply_latency");
    reveal_strlit("queue_transaction_latency_avg");
    let v = reported_values(p);
    assert(v[2].0[3] != v[3].0[3]);
    assert(v[4].0[0] != v[7].0[0]);
    assert(v[5].0[0] != v[6].0[0]);
    assert forall|i: int, j: int| 0 <= i < 9 && 0 <= j < 9 && i != j implies #[trigger] v[i].0
        != #[trigger] v[j].0 by {
        if v[i].0 == v[j].0 {
            assert(v[i].0.len() == v[j].0.len());
        }
    }
    lemma_point_carries(point, p, osd_num, 0);
    lemma_point_carries(point, p, osd_num, 1);
    lemma_point_carries(point, p, osd_num, 2);
    lemma_point_carries(point, p, osd_num, 3);
    lemma_point_carries(point, p, osd_num, 4);
    lemma_point_carries(point, p, osd_num, 5);
    lemma_point_carries(point, p, osd_num, 6);
    lemma_point_carries(point, p, osd_num, 7);
    lemma_point_carries(point, p, osd_num, 8);
}

/// Whether `p` and `q` agree on every counter that is reported: the load
/// average, and the integer part and the text of the sum of each of the eight
/// reported latency counters.
pub open spec fn same_reported_counters(p: OsdPerf, q: OsdPerf) -> bool {
    &&& p.osd.loadavg == q.osd.loadavg
    &&& p.osd.op_latency.sum_as_integer == q.osd.op_latency.sum_as_integer
    &&& p.osd.op_latency.sum_text@ == q.osd.op_latency.sum_text@
    &&& p.osd.op_r_latency.sum_as_integer == q.osd.op_r_latency.sum_as_integer
    &&& p.osd.op_r_latency.sum_text@ == q.osd.op_r_latency.sum_text@
    &&& p.osd.op_w_latency.sum_as_integer == q.osd.op_w_latency.sum_as_integer
    &&& p.osd.op_w_latency.sum_text@ == q.osd.op_w_latency.sum_text@
    &&& p.osd.subop_latency.sum_as_integer == q.osd.subop_latency.sum_as_integer
    &&& p.osd.subop_latency.sum_text@ == q.osd.subop_latency.sum_text@
    &&& p.osd.subop_w_latency.sum_as_integer == q.osd.subop_w_latency.sum_as_integer
    &&& p.osd.subop_w_latency.sum_text@ == q.osd.subop_w_latency.sum_text@
    &&& p.filestore.journal_latency.sum_as_integer == q.filestore.journal_latency.sum_as_integer
    &&& p.filestore.journal_latency.sum_text@ == q.filestore.journal_latency.sum_text@
    &&& p.filestore.apply_latency.sum_as_integer == q.filestore.apply_latency.sum_as_integer
    &&& p.filestore.apply_latency.sum_text@ == q.filestore.apply_latency.sum_text@
    &&& p.filestore.queue_transaction_latency_avg.sum_as_integer
        == q.filestore.queue_transaction_latency_avg.sum_as_integer
    &&& p.filestore.queue_transaction_latency_avg.sum_text@
        == q.filestore.queue_transaction_latency_avg.sum_text@
}

/// The InfluxDB point of an OSD depends on the reported counters alone: two
/// sets of counters that differ only elsewhere (in a processing latency, a
/// push latency, a throttle...) give the same point.
pub proof fn influx_point_depends_only_on_reported_counters(
    point: InfluxPoint,
    p: OsdPerf,
    q: OsdPerf,
    osd_num: u32,
)
    requires
        same_reported_counters(p, q),
        osd_point(point, p, osd_num),
    ensures
        osd_point(point, q, osd_num),
{
    assert(reported_values(p) =~= reported_values(q));
}

/// The Carbon data of an OSD depends on the reported counters alone: two sets
/// of counters that differ only elsewhere give the same text.
pub proof fn carbon_text_depends_only_on_reported_counters(
    p: OsdPerf,
    q: OsdPerf,
    root_key: Seq<char>,
    osd_num: u32,
    timestamp: i64,
)
    requires
        same_reported_counters(p, q),
    ensures
        carbon_text(p, root_key, osd_num, timestamp) == carbon_text(q, root_key, osd_num, timestamp),
{
}

/// Whether `line` stands in `text`.
pub open spec fn has_line(text: Seq<char>, line: Seq<char>) -> bool {
    exists|a: Seq<char>, b: Seq<char>| text == a + line + b
}

/// Each line of an OSD's Carbon data carries the value of the counter it is
/// named after: under the root `<root_key>-osd.<osd_num>` and stamped with the
/// timestamp, `load_avg` carries the load average in decimal, and each latency
/// metric the text of the sum of the latency counter of the same name
/// (`journal_latency`, `apply_latency` and `queue_transaction_latency_avg`
/// from the `filestore` section, the others from the `osd` section).
pub proof fn carbon_lines_carry_named_counters(
    p: OsdPerf,
    root_key: Seq<char>,
    osd_num: u32,
    timestamp: i64,
)
    ensures
        ({
            let text = carbon_text(p, root_key, osd_num, timestamp);
            let root = root_key + "-osd."@ + decimal_text(osd_num as nat);
            let ts = signed_decimal_text(timestamp as int);
            &&& has_line(
                text,
                carbon_line(root, "load_avg"@, signed_decimal_text(p.osd.loadavg as int), ts),
            )
            &&& has_line(text, carbon_line(root, "op_latency"@, p.osd.op_latency.sum_text@, ts))
            &&& has_line(
                text,
                carbon_line(root, "op_r_latency"@, p.osd.op_r_latency.sum_text@, ts),
            )
            &&& has_line(
                text,
                carbon_line(root, "op_w_latency"@, p.osd.op_w_latency.sum_text@, ts),
            )
            &&& has_line(
                text,
                carbon_line(root, "subop_latency"@, p.osd.subop_latency.sum_text@, ts),
            )
            &&& has_line(
                text,
                carbon_line(root, "subop_w_latency"@, p.osd.subop_w_latency.sum_text@, ts),
            )
            &&& has_line(
                text,
                carbon_line(root, "journal_latency"@, p.filestore.journal_latency.sum_text@, ts),
            )
            &&& has_line(
                text,
                carbon_line(root, "apply_latency"@, p.filestore.apply_latency.sum_text@, ts),
            )
            &&& has_line(
                text,
                carbon_line(
                    root,
                    "queue_transaction_latency_avg"@,
                    p.filestore.queue_transaction_latency_avg.sum_text@,
                    ts,
                ),
            )
        }),
{
    let root = root_key + "-osd."@ + decimal_text(osd_num as nat);
    let ts = signed_decimal_text(timestamp as int);
    let names = reported_values(p).map_values(|v: (Seq<char>, i64)| v.0);
    let values = carbon_values(p);
    carbon_lines_follow_influx_fields(p, root_key, osd_num, timestamp);
    lemma_carbon_lines_have_line(root, names, values, ts, 0);
    lemma_carbon_lines_have_line(root, names, values, ts, 1);
    lemma_carbon_lines_have_line(root, names, values, ts, 2);
    lemma_carbon_lines_have_line(root, names, values, ts, 3);
    lemma_carbon_lines_have_line(root, names, values, ts, 4);
    lemma_carbon_lines_have_line(root, names, values, ts, 5);
    lemma_carbon_lines_have_line(root, names, values, ts, 6);
    lemma_carbon_lines_have_line(root, names, values, ts, 7);
    lemma_carbon_lines_have_line(root, names, values, ts, 8);
}

proof fn lemma_carbon_lines_have_line(
    root: Seq<char>,
    names: Seq<Seq<char>>,
    values: Seq<Seq<char>>,
    timestamp: Seq<char>,
    k: int,
)
    requires
        0 <= k < names.len(),
        values.len() == names.len(),
    ensures
        has_line(
            carbon_lines(root, names, values, timestamp),
            carbon_line(root, names[k], values[k], timestamp),
        ),
    decreases names.len(),
{
    let rest = carbon_lines(root, names.drop_last(), values.drop_last(), timestamp);
    let last = carbon_line(root, names.last(), values.last(), timestamp);
    let line = carbon_line(root, names[k], values[k], timestamp);
    if k == names.len() - 1 {
        assert(rest + last =~= rest + line + Seq::<char>::empty());
    } else {
        lemma_carbon_lines_have_line(root, names.drop_last(), values.drop_last(), timestamp, k);
        assert(names.drop_last()[k] == names[k]);
        assert(values.drop_last()[k] == values[k]);
        let (a, b) = choose|a: Seq<char>, b: Seq<char>| rest == a + line + b;
        assert(rest + last =~= a + line + (b + last));
    }
}

proof fn lemma_no_double_colon_at(s: Seq<char>, i: int)
    requires
        occurs_at(s, seq![':', ':'], i),
    ensures
        0 <= i && i + 1 < s.len() && s[i] == ':' && s[i + 1] == ':',
{
    assert(s.subrange(i, i + 2)[0] == s[i]);
    assert(s.subrange(i, i + 2)[1] == s[i + 1]);
}

proof fn lemma_free_has_no_double_colon(s: Seq<char>)
    requires
        free_of_separators(s),
    ensures
        forall|i: int| !occurs_at(s, seq![':', ':'], i),
{
    assert forall|i: int| !occurs_at(s, seq![':', ':'], i) by {
        if occurs_at(s, seq![':', ':'], i) {
            lemma_no_double_colon_at(s, i);
        }
    }
}

/// A `-` between two texts that hold no `-` and no `::` comes out of
/// normalization as one `_`, and the two texts as they are.
pub proof fn normalize_turns_dash_into_underscore(a: Seq<char>, b: Seq<char>)
    requires
        free_of_separators(a),
        free_of_separators(b),
    ensures
        normalized_dump(a + seq!['-'] + b) == a + seq!['_'] + b,
{
    let s = a + seq!['-'] + b;
    let x = a + seq!['_'];
    let m = x + b;
    lemma_dashes_mapped(s);
    assert(replace_all(s, seq!['-'], seq!['_']) =~= m);
    assert forall|i: int| 0 <= i < x.len() implies !occurs_at(m, seq![':', ':'], i) by {
        if occurs_at(m, seq![':', ':'], i) {
            lemma_no_double_colon_at(m, i);
            if i < a.len() - 1 {
                assert(m[i] == a[i] && m[i + 1] == a[i + 1]);
            } else if i == a.len() - 1 {
                assert(m[i + 1] == '_');
            } else {
                assert(m[i] == '_');
            }
        }
    }
    crate::text::lemma_replace_after_clean_prefix(x, b, seq![':', ':'], seq!['_']);
    lemma_free_has_no_double_colon(b);
    crate::text::lemma_replace_absent(b, seq![':', ':'], seq!['_']);
}

/// A `::` between two texts that hold no `-` and no `::`, the first of which
/// does not end with `:`, comes out of normalization as one `_`, and the two
/// texts as they are.
pub proof fn normalize_turns_double_colon_into_underscore(a: Seq<char>, b: Seq<char>)
    requires
        free_of_separators(a),
        free_of_separators(b),
        a.len() > 0 ==> a.last() != ':',
    ensures
        normalized_dump(a + seq![':', ':'] + b) == a + seq!['_'] + b,
{
    let pat = seq![':', ':'];
    let rep = seq!['_'];
    let s = a + pat + b;
    let y = pat + b;
    assert forall|i: int| !occurs_at(s, seq!['-'], i) by {
        if occurs_at(s, seq!['-'], i) {
            assert(s.subrange(i, i + 1)[0] == s[i]);
            if i < a.len() {
                assert(s[i] == a[i]);
            } else if i >= a.len() + 2 {
                assert(s[i] == b[i - a.len() - 2]);
            }
        }
    }
    crate::text::lemma_replace_absent(s, seq!['-'], seq!['_']);
    assert(s =~= a + y);
    assert forall|i: int| 0 <= i < a.len() implies !occurs_at(a + y, pat, i) by {
        if occurs_at(a + y, pat, i) {
            lemma_no_double_colon_at(a + y, i);
            if i < a.len() - 1 {
                assert((a + y)[i] == a[i] && (a + y)[i + 1] == a[i + 1]);
            } else {
                assert((a + y)[i] == a.last());
            }
        }
    }
    crate::text::lemma_replace_after_clean_prefix(a, y, pat, rep);
    assert(y.take(2) =~= pat);
    assert(y.skip(2) =~= b);
    lemma_free_has_no_double_colon(b);
    crate::text::lemma_replace_absent(b, pat, rep);
    assert(a + (rep + b) =~= a + rep + b);
}

} // verus!
