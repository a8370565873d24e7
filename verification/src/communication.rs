//! Where the reports go: the output settings, the InfluxDB connection and
//! the Carbon (graphite) address.

use vstd::prelude::*;
use crate::text::push_str;

verus! {

/// The InfluxDB server that reports are written to.
#[derive(Clone, Debug)]
pub struct Influx {
    pub host: String,
    pub port: String,
    pub user: String,
    pub password: String,
}

/// The Carbon server that reports are written to, and the root of the metric names.
#[derive(Clone, Debug)]
pub struct Carbon {
    pub host: String,
    pub port: String,
    pub root_key: String,
}

/// The output settings: the names of the outputs that are turned on
/// (`stdout`, `influx`, `carbon`) and the servers, where given.
#[derive(Clone, Debug)]
pub struct Args {
    pub outputs: Vec<String>,
    pub influx: Option<Influx>,
    pub carbon: Option<Carbon>,
}

/// Whether `name` is one of `outputs`.
pub open spec fn output_listed(outputs: Seq<String>, name: Seq<char>) -> bool {
    exists|i: int| 0 <= i < outputs.len() && #[trigger] outputs[i]@ == name
}

/// The base URL of an InfluxDB server: `http://<host>:<port>`.
pub open spec fn influx_base_url(host: Seq<char>, port: Seq<char>) -> Seq<char> {
    "http://"@ + host + seq![':'] + port
}

/// The address of a Carbon server: `<host>:<port>`.
pub open spec fn carbon_address_text(host: Seq<char>, port: Seq<char>) -> Seq<char> {
    host + seq![':'] + port
}

/// What a client of an InfluxDB server is made from.
#[derive(Clone, Debug)]
pub struct InfluxConnection {
    pub host_url: String,
    pub username: String,
    pub password: String,
    pub database: String,
}

/// Whether `c` is the connection to `influx`: its base URL, its user and
/// password, and the database `ceph`.
pub open spec fn connection_for(c: InfluxConnection, influx: Influx) -> bool {
    &&& c.host_url@ == influx_base_url(influx.host@, influx.port@)
    &&& c.username@ == influx.user@
    &&& c.password@ == influx.password@
    &&& c.database@ == "ceph"@
}

/// Appends the base URL of the InfluxDB server `host`:`port` to `out`.
pub(crate) fn push_base_url(out: &mut Vec<char>, host: &str, port: &str)
    ensures
        final(out)@ == old(out)@ + influx_base_url(host@, port@),
{
    let ghost start = out@;
    push_str(out, "http://");
    push_str(out, host);
    out.push(':');
    push_str(out, port);
    assert(out@ =~= start + influx_base_url(host@, port@));
}

/// Whether the output named `name` is turned on.
pub fn output_selected(outputs: &Vec<String>, name: &str) -> (b: bool)
    ensures
        b == output_listed(outputs@, name@),
{
    let wanted: String = name.to_owned();
    let mut i: usize = 0;
    while i < outputs.len()
        invariant
            i <= outputs@.len(),
            wanted@ == name@,
            forall|k: int| 0 <= k < i ==> outputs@[k]@ != name@,
        decreases outputs@.len() - i,
    {
        if outputs[i] == wanted {
            assert(outputs@[i as int]@ == name@);
            return true;
        }
        i = i + 1;
    }
    false
}

/// The connection to the InfluxDB server `influx`, in the database `ceph`.
pub fn influx_connection(influx: &Influx) -> (c: InfluxConnection)
    ensures
        connection_for(c, *influx),
{
    let mut url: Vec<char> = Vec::new();
    push_base_url(&mut url, influx.host.as_str(), influx.port.as_str());
    assert(url@ =~= influx_base_url(influx.host@, influx.port@));
    InfluxConnection {
        host_url: crate::text::string_of(&url),
        username: influx.user.clone(),
        password: influx.password.clone(),
        database: "ceph".to_owned(),
    }
}

/// The address that Carbon data is written to: `<host>:<port>`.
pub fn carbon_address(carbon: &Carbon) -> (r: String)
    ensures
        r@ == carbon_address_text(carbon.host@, carbon.port@),
{
    let mut out: Vec<char> = Vec::new();
    push_str(&mut out, carbon.host.as_str());
    out.push(':');
    push_str(&mut out, carbon.port.as_str());
    assert(out@ =~= carbon_address_text(carbon.host@, carbon.port@));
    crate::text::string_of(&out)
}

} // verus!
