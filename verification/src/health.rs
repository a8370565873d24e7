//! The cluster health report (`ceph status` in JSON) and the summary of it
//! that is sent to the recorder.

use vstd::prelude::*;
use crate::decimal::{decimal_text, push_decimal, push_signed_decimal, signed_decimal_text};
use crate::text::push_str;

verus! {

/// The cluster's health report.
#[derive(Clone, Debug)]
pub struct CephHealth {
    pub election_epoch: u64,
    /// The cluster id, as the sixteen bytes of its UUID.
    pub fsid: [u8; 16],
    pub health: Health,
    pub quorum: Vec<u64>,
    pub quorum_names: Vec<String>,
    pub pgmap: PgMap,
    pub monmap: MonMap,
    pub osdmap: OsdMap,
}

#[derive(Clone, Debug)]
pub struct Health {
    pub detail: Vec<String>,
    pub health: SubHealth,
    pub overall_status: String,
    pub summary: Vec<SummaryDetail>,
    pub timechecks: TimeCheck,
}

#[derive(Clone, Debug)]
pub struct SummaryDetail {
    pub severity: String,
    pub summary: String,
}

#[derive(Clone, Debug)]
pub struct SubHealth {
    pub health_services: Vec<HealthService>,
}

#[derive(Clone, Debug)]
pub struct HealthService {
    pub mons: Vec<MonHealthDetails>,
}

#[derive(Clone, Debug)]
pub struct TimeCheck {
    pub epoch: u64,
    pub mons: Vec<MonHealth>,
    pub round: u64,
    pub round_status: String,
}

#[derive(Clone, Debug)]
pub struct MonHealthDetails {
    pub avail_percent: u64,
    pub health: String,
    pub kb_avail: u64,
    pub kb_total: u64,
    pub kb_used: u64,
    pub last_updated: String,
    pub name: String,
    pub store_stats: MonStoreStat,
}

#[derive(Clone, Debug)]
pub struct MonStoreStat {
    pub bytes_log: u64,
    pub bytes_misc: u64,
    pub bytes_sst: u64,
    pub bytes_total: u64,
    pub last_updated: String,
}

#[derive(Clone, Debug)]
pub struct MonHealth {
    pub health: String,
    pub latency: String,
    pub name: String,
    pub skew: String,
}

/// The metadata server map; `in_map` is the map's `in` count.
#[derive(Clone, Debug)]
pub struct MdsMap {
    pub epoch: u64,
    pub by_rank: Vec<String>,
    pub in_map: u64,
    pub max: u64,
    pub up: u64,
}

#[derive(Clone, Debug)]
pub struct MonMap {
    pub epoch: u64,
    pub fsid: String,
    pub modified: String,
    pub created: String,
    pub mons: Vec<Mon>,
}

/// The placement group map; the three rates are absent from the report
/// while the cluster is idle.
#[derive(Clone, Debug)]
pub struct PgMap {
    pub bytes_avail: u64,
    pub bytes_total: u64,
    pub bytes_used: u64,
    pub read_bytes_sec: Option<u64>,
    pub write_bytes_sec: Option<u64>,
    pub op_per_sec: Option<u64>,
    pub data_bytes: u64,
    pub num_pgs: u64,
    pub pgs_by_state: Vec<PgState>,
    pub version: u64,
}

#[derive(Clone, Debug)]
pub struct OsdMap {
    pub osdmap: SubOsdMap,
}

#[derive(Clone, Debug)]
pub struct SubOsdMap {
    pub epoch: u64,
    pub num_osds: u64,
    pub num_up_osds: u64,
    pub num_in_osds: u64,
    pub full: bool,
    pub nearfull: bool,
}

#[derive(Clone, Debug)]
pub struct PgState {
    pub count: u64,
    pub state_name: String,
}

#[derive(Clone, Debug)]
pub struct Mon {
    pub rank: u64,
    pub name: String,
    pub addr: String,
}

/// The lower-case hexadecimal digit of `v` (for `v < 16`).
pub open spec fn hex_digit(v: nat) -> char {
    if v < 10 {
        (48 + v) as char
    } else {
        (87 + v) as char
    }
}

/// Two lower-case hexadecimal digits per byte, most significant first.
pub open spec fn hex_text(bytes: Seq<u8>) -> Seq<char>
    decreases bytes.len(),
{
    if bytes.len() == 0 {
        seq![]
    } else {
        hex_text(bytes.drop_last()) + seq![
            hex_digit((bytes.last() / 16) as nat),
            hex_digit((bytes.last() % 16) as nat),
        ]
    }
}

/// The hyphenated text of a UUID's sixteen bytes: lower-case hexadecimal in
/// groups of 4, 2, 2, 2 and 6 bytes separated by `-`.
pub open spec fn hyphenated_text(b: Seq<u8>) -> Seq<char> {
    hex_text(b.subrange(0, 4)) + seq!['-'] + hex_text(b.subrange(4, 6)) + seq!['-'] + hex_text(
        b.subrange(6, 8),
    ) + seq!['-'] + hex_text(b.subrange(8, 10)) + seq!['-'] + hex_text(b.subrange(10, 16))
}

/// The hyphenated text of the UUID with the bytes `bytes`, as
/// `uuid::Uuid::from_bytes(..).hyphenated()` writes it. Trusted: the uuid
/// crate documents this format (`67e55044-10b1-426f-9247-bb680e5fe0c8`) and
/// writes lower-case digits in it.
#[verifier::external_body]
fn hyphenated_uuid(bytes: [u8; 16]) -> (r: String)
    ensures
        r@ == hyphenated_text(bytes@),
{
    uuid::Uuid::from_bytes(bytes).hyphenated().to_string()
}

/// A rate of the report, or 0 where the report leaves it out.
pub open spec fn rate_or_zero(rate: Option<u64>) -> nat {
    match rate {
        Some(r) => r as nat,
        None => 0,
    }
}

/// The summary of the report `h` that is sent to the recorder, posted at
/// `post_date` (milliseconds since the epoch).
pub open spec fn health_json(h: CephHealth, post_date: i64) -> Seq<char> {
    "{\"fsid\":\""@ + hyphenated_text(h.fsid@) + "\",\"ops_per_sec\": \""@ + decimal_text(
        rate_or_zero(h.pgmap.op_per_sec),
    ) + "\",\"write_bytes_sec\": \""@ + decimal_text(rate_or_zero(h.pgmap.write_bytes_sec))
        + "\", \"read_bytes_sec\": \""@ + decimal_text(rate_or_zero(h.pgmap.read_bytes_sec))
        + "\", \"data\":\""@ + decimal_text(h.pgmap.data_bytes as nat) + "\", \"bytes_used\":"@
        + decimal_text(h.pgmap.bytes_used as nat) + ", \"bytes_avail\":"@ + decimal_text(
        h.pgmap.bytes_avail as nat,
    ) + ", \"bytes_total\":\""@ + decimal_text(h.pgmap.bytes_total as nat)
        + "\", \"postDate\": "@ + signed_decimal_text(post_date as int) + "}"@
}

fn rate_value(rate: Option<u64>) -> (r: u64)
    ensures
        r as nat == rate_or_zero(rate),
{
    match rate {
        Some(r) => r,
        None => 0,
    }
}

impl CephHealth {
    /// The summary of this report that is sent to the recorder: the cluster
    /// id, the three rates (0 where absent), the data, used, available and
    /// total bytes, and `post_date` (milliseconds since the epoch).
    pub fn to_json(&self, post_date: i64) -> (r: String)
        ensures
            r@ == health_json(*self, post_date),
    {
        let mut out: Vec<char> = Vec::new();
        push_str(&mut out, "{\"fsid\":\"");
        let fsid = hyphenated_uuid(self.fsid);
        push_str(&mut out, fsid.as_str());
        push_str(&mut out, "\",\"ops_per_sec\": \"");
        push_decimal(&mut out, rate_value(self.pgmap.op_per_sec));
        push_str(&mut out, "\",\"write_bytes_sec\": \"");
        push_decimal(&mut out, rate_value(self.pgmap.write_bytes_sec));
        push_str(&mut out, "\", \"read_bytes_sec\": \"");
        push_decimal(&mut out, rate_value(self.pgmap.read_bytes_sec));
        push_str(&mut out, "\", \"data\":\"");
        push_decimal(&mut out, self.pgmap.data_bytes);
        push_str(&mut out, "\", \"bytes_used\":");
        push_decimal(&mut out, self.pgmap.bytes_used);
        push_str(&mut out, ", \"bytes_avail\":");
        push_decimal(&mut out, self.pgmap.bytes_avail);
        push_str(&mut out, ", \"bytes_total\":\"");
        push_decimal(&mut out, self.pgmap.bytes_total);
        push_str(&mut out, "\", \"postDate\": ");
        push_signed_decimal(&mut out, post_date);
        push_str(&mut out, "}");
        assert(out@ =~= health_json(*self, post_date));
        crate::text::string_of(&out)
    }
}

/// The text of a rate in the summary: its decimal digits, or `0` when the
/// report leaves the rate out.
pub open spec fn rate_text(rate: Option<u64>) -> Seq<char> {
    match rate {
        Some(r) => decimal_text(r as nat),
        None => seq!['0'],
    }
}

/// The summary up to the read rate's value.
spec fn summary_head(h: CephHealth) -> Seq<char> {
    "{\"fsid\":\""@ + hyphenated_text(h.fsid@) + "\",\"ops_per_sec\": \""@ + decimal_text(
        rate_or_zero(h.pgmap.op_per_sec),
    ) + "\",\"write_bytes_sec\": \""@ + decimal_text(rate_or_zero(h.pgmap.write_bytes_sec))
        + "\", \"read_bytes_sec\": \""@
}

/// The summary after the read rate's value, without its first key.
spec fn summary_rest(h: CephHealth, post_date: i64) -> Seq<char> {
    decimal_text(h.pgmap.data_bytes as nat) + "\", \"bytes_used\":"@ + decimal_text(
        h.pgmap.bytes_used as nat,
    ) + ", \"bytes_avail\":"@ + decimal_text(h.pgmap.bytes_avail as nat) + ", \"bytes_total\":\""@
        + decimal_text(h.pgmap.bytes_total as nat) + "\", \"postDate\": "@ + signed_decimal_text(
        post_date as int,
    ) + "}"@
}

proof fn lemma_rate_text(rate: Option<u64>)
    ensures
        decimal_text(rate_or_zero(rate)) == rate_text(rate),
{
    assert(decimal_text(0) =~= seq!['0']);
}

proof fn lemma_summary_split(h: CephHealth, post_date: i64)
    ensures
        health_json(h, post_date) == summary_head(h) + decimal_text(
            rate_or_zero(h.pgmap.read_bytes_sec),
        ) + ("\", \"data\":\""@ + summary_rest(h, post_date)),
{
    assert(health_json(h, post_date) =~= summary_head(h) + decimal_text(
        rate_or_zero(h.pgmap.read_bytes_sec),
    ) + ("\", \"data\":\""@ + summary_rest(h, post_date)));
}

/// In the summary, each rate of the report stands right after its own key, in
/// the order `ops_per_sec`, `write_bytes_sec`, `read_bytes_sec`: the decimal
/// text of that rate, or `0` when the report leaves it out.
pub proof fn health_json_rates_under_their_keys(h: CephHealth, post_date: i64)
    ensures
        exists|a: Seq<char>, b: Seq<char>|
            health_json(h, post_date) == a + "\",\"ops_per_sec\": \""@ + rate_text(h.pgmap.op_per_sec)
                + "\",\"write_bytes_sec\": \""@ + rate_text(h.pgmap.write_bytes_sec)
                + "\", \"read_bytes_sec\": \""@ + rate_text(h.pgmap.read_bytes_sec)
                + "\", \"data\":\""@ + b,
{
    lemma_summary_split(h, post_date);
    lemma_rate_text(h.pgmap.op_per_sec);
    lemma_rate_text(h.pgmap.write_bytes_sec);
    lemma_rate_text(h.pgmap.read_bytes_sec);
    let a = "{\"fsid\":\""@ + hyphenated_text(h.fsid@);
    let b = summary_rest(h, post_date);
    let x = a + "\",\"ops_per_sec\": \""@ + rate_text(h.pgmap.op_per_sec)
        + "\",\"write_bytes_sec\": \""@ + rate_text(h.pgmap.write_bytes_sec)
        + "\", \"read_bytes_sec\": \""@ + rate_text(h.pgmap.read_bytes_sec);
    assert(summary_head(h) + decimal_text(rate_or_zero(h.pgmap.read_bytes_sec)) == x);
    assert(x + ("\", \"data\":\""@ + b) =~= x + "\", \"data\":\""@ + b);
}

/// Two reports that agree on everything the summary shows but the read rate
/// give summaries that differ only in the read rate's value: the write rate,
/// and every other value, does not follow the read rate.
pub proof fn health_json_read_rate_stands_alone(h: CephHealth, g: CephHealth, post_date: i64)
    requires
        g.fsid == h.fsid,
        g.pgmap.op_per_sec == h.pgmap.op_per_sec,
        g.pgmap.write_bytes_sec == h.pgmap.write_bytes_sec,
        g.pgmap.data_bytes == h.pgmap.data_bytes,
        g.pgmap.bytes_used == h.pgmap.bytes_used,
        g.pgmap.bytes_avail == h.pgmap.bytes_avail,
        g.pgmap.bytes_total == h.pgmap.bytes_total,
    ensures
        exists|a: Seq<char>, b: Seq<char>|
            health_json(h, post_date) == a + rate_text(h.pgmap.read_bytes_sec) + b
                && health_json(g, post_date) == a + rate_text(g.pgmap.read_bytes_sec) + b,
{
    lemma_summary_split(h, post_date);
    lemma_summary_split(g, post_date);
    lemma_rate_text(h.pgmap.read_bytes_sec);
    lemma_rate_text(g.pgmap.read_bytes_sec);
    assert(summary_head(g) == summary_head(h));
    assert(summary_rest(g, post_date) == summary_rest(h, post_date));
    let a = summary_head(h);
    let b = "\", \"data\":\""@ + summary_rest(h, post_date);
    assert(health_json(h, post_date) == a + rate_text(h.pgmap.read_bytes_sec) + b);
    assert(health_json(g, post_date) == a + rate_text(g.pgmap.read_bytes_sec) + b);
}

} // verus!
