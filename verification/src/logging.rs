//! The HTTP recorder: the host name that reports are filed under, and the
//! URLs that monitor and OSD reports are posted to.

use vstd::prelude::*;
use vstd::utf8::{decode_utf8, valid_utf8};
use crate::communication::{
    connection_for, influx_base_url, push_base_url, Args, Influx, InfluxConnection,
};
use crate::decimal::{decimal_text, push_decimal};
use crate::text::{push_str, replace_all};

verus! {

/// `String::from_utf8`: the text that `bytes` encode in UTF-8, or nothing when
/// they are not valid UTF-8. Trusted: this is what the standard library
/// documents of `String::from_utf8`, over vstd's own model of UTF-8.
#[verifier::external_body]
fn utf8_string(bytes: Vec<u8>) -> (r: Option<String>)
    ensures
        r is Some <==> valid_utf8(bytes@),
        r matches Some(s) ==> s@ == decode_utf8(bytes@),
{
    String::from_utf8(bytes).ok()
}

/// The host name given by the output of the `hostname` command: the output
/// as text with every line break removed, or `{}` when it is not valid UTF-8.
pub open spec fn hostname_text(output: Seq<u8>) -> Seq<char> {
    if valid_utf8(output) {
        replace_all(decode_utf8(output), seq!['\n'], seq![])
    } else {
        "{}"@
    }
}

/// The host name given by `output`, the bytes that `hostname` printed.
pub fn hostname_from_output(output: Vec<u8>) -> (r: String)
    ensures
        r@ == hostname_text(output@),
        !r@.contains('\n'),
{
    match utf8_string(output) {
        Some(text) => {
            let chars = crate::text::chars_of(text.as_str());
            let newline = vec!['\n'];
            let nothing: Vec<char> = Vec::new();
            let kept = crate::text::replace_all_chars(&chars, &newline, &nothing);
            assert(newline@ =~= seq!['\n']);
            assert(nothing@ =~= Seq::<char>::empty());
            proof {
                crate::text::lemma_replace_char_gone(chars@, '\n', seq![]);
                if kept@.contains('\n') {
                    let i = choose|i: int| 0 <= i < kept@.len() && kept@[i] == '\n';
                    assert(kept@[i] == '\n');
                }
            }
            crate::text::string_of(&kept)
        },
        None => {
            let text = "{}".to_owned();
            proof {
                reveal_strlit("{}");
                assert(text@[0] == '{' && text@[1] == '}');
            }
            text
        },
    }
}

/// The URL that a monitor report is posted to, for InfluxDB server `host`:`port`
/// and host name `hostname`.
pub open spec fn monitor_url_text(host: Seq<char>, port: Seq<char>, hostname: Seq<char>) -> Seq<
    char,
> {
    influx_base_url(host, port) + "/record_ceph?measurement=monitor&hostname="@ + hostname
}

/// The URL that an OSD report is posted to, for InfluxDB server `host`:`port`,
/// OSD `osd_num` on drive `drive_name`, and host name `hostname`.
pub open spec fn osd_url_text(
    host: Seq<char>,
    port: Seq<char>,
    osd_num: u64,
    drive_name: Seq<char>,
    hostname: Seq<char>,
) -> Seq<char> {
    influx_base_url(host, port) + "/record_ceph?measurement=osd&osd_num="@ + decimal_text(
        osd_num as nat,
    ) + "&drive_name="@ + drive_name + "&hostname="@ + hostname
}

/// Reports are posted to the server that the InfluxDB client writes to: both
/// recorder URLs begin with the base URL of the connection to that server.
pub proof fn record_urls_start_with_connection_url(
    c: InfluxConnection,
    influx: Influx,
    osd_num: u64,
    drive_name: Seq<char>,
    hostname: Seq<char>,
)
    requires
        connection_for(c, influx),
    ensures
        c.host_url@.is_prefix_of(monitor_url_text(influx.host@, influx.port@, hostname)),
        c.host_url@.is_prefix_of(
            osd_url_text(influx.host@, influx.port@, osd_num, drive_name, hostname),
        ),
{
    let base = influx_base_url(influx.host@, influx.port@);
    let m = monitor_url_text(influx.host@, influx.port@, hostname);
    let o = osd_url_text(influx.host@, influx.port@, osd_num, drive_name, hostname);
    assert(m.subrange(0, base.len() as int) =~= base);
    assert(o.subrange(0, base.len() as int) =~= base);
}

/// Where a monitor report is posted: nothing when no InfluxDB server is given.
pub fn monitor_record_url(args: &Args, hostname: &str) -> (r: Option<String>)
    ensures
        r is Some <==> args.influx is Some,
        r matches Some(url) ==> url@ == monitor_url_text(
            args.influx->0.host@,
            args.influx->0.port@,
            hostname@,
        ),
{
    match &args.influx {
        None => None,
        Some(influx) => {
            let mut out: Vec<char> = Vec::new();
            push_base_url(&mut out, influx.host.as_str(), influx.port.as_str());
            push_str(&mut out, "/record_ceph?measurement=monitor&hostname=");
            push_str(&mut out, hostname);
            assert(out@ =~= monitor_url_text(influx.host@, influx.port@, hostname@));
            Some(crate::text::string_of(&out))
        },
    }
}

/// Where the report of OSD `osd_num` on drive `drive_name` is posted: nothing
/// when no InfluxDB server is given.
pub fn osd_record_url(args: &Args, osd_num: u64, drive_name: &str, hostname: &str) -> (r: Option<
    String,
>)
    ensures
        r is Some <==> args.influx is Some,
        r matches Some(url) ==> url@ == osd_url_text(
            args.influx->0.host@,
            args.influx->0.port@,
            osd_num,
            drive_name@,
            hostname@,
        ),
{
    match &args.influx {
        None => None,
        Some(influx) => {
            let mut out: Vec<char> = Vec::new();
            push_base_url(&mut out, influx.host.as_str(), influx.port.as_str());
            push_str(&mut out, "/record_ceph?measurement=osd&osd_num=");
            push_decimal(&mut out, osd_num);
            push_str(&mut out, "&drive_name=");
            push_str(&mut out, drive_name);
            push_str(&mut out, "&hostname=");
            push_str(&mut out, hostname);
            assert(out@ =~= osd_url_text(
                influx.host@,
                influx.port@,
                osd_num,
                drive_name@,
                hostname@,
            ));
            Some(crate::text::string_of(&out))
        },
    }
}

} // verus!
