//! The texts a probe task produces: the metrics payload pushed to the
//! collector, the collector address it is pushed to, and the log lines.
use vstd::prelude::*;
use vstd::string::*;
use crate::decimal::{dec, decimal};

verus! {

/// The exposition payload for one successful measurement: a `ping_time`
/// gauge with its `HELP` and `TYPE` lines, labelled by client and endpoint,
/// valued at the round-trip time in milliseconds.
pub open spec fn payload_text(client: Seq<char>, endpoint: Seq<char>, rtt_ms: nat) -> Seq<char> {
    "# HELP ping_time Round Trip Time to Endpoint\n"@ + "# TYPE ping_time gauge\n"@
        + "ping_time{client=\""@ + client + "\", endpoint=\""@ + endpoint + "\"} "@ + dec(rtt_ms)
        + "\n"@
}

/// The collector address that a task with job identifier `identity` pushes to.
pub open spec fn push_url_text(host: Seq<char>, port: Seq<char>, identity: Seq<char>) -> Seq<char> {
    "http://"@ + host + ":"@ + port + "/metrics/job/"@ + identity
}

/// The log line of a successful measurement taken at `at_millis` (Unix epoch).
pub open spec fn success_line_text(at_millis: nat, target: Seq<char>, rtt_ms: nat) -> Seq<char> {
    dec(at_millis) + " || Ping time to "@ + target + ": "@ + dec(rtt_ms) + "ms"@
}

/// The log line of a failed measurement taken at `at_millis` (Unix epoch).
pub open spec fn failure_line_text(at_millis: nat, target: Seq<char>, reason: Seq<char>) -> Seq<char> {
    dec(at_millis) + " || Error pinging "@ + target + ": "@ + reason
}

/// Builds the exposition payload for one successful measurement.
pub fn render_payload(client: &str, endpoint: &str, rtt_ms: u32) -> (r: String)
    ensures
        r@ == payload_text(client@, endpoint@, rtt_ms as nat),
{
    let mut s = String::from_str("# HELP ping_time Round Trip Time to Endpoint\n");
    s.append("# TYPE ping_time gauge\n");
    s.append("ping_time{client=\"");
    s.append(client);
    s.append("\", endpoint=\"");
    s.append(endpoint);
    s.append("\"} ");
    let v = decimal(rtt_ms as u64);
    s.append(v.as_str());
    s.append("\n");
    s
}

/// Builds the collector address `http://{host}:{port}/metrics/job/{identity}`.
pub fn push_url(host: &str, port: &str, identity: &str) -> (r: String)
    ensures
        r@ == push_url_text(host@, port@, identity@),
{
    let mut s = String::from_str("http://");
    s.append(host);
    s.append(":");
    s.append(port);
    s.append("/metrics/job/");
    s.append(identity);
    s
}

/// Builds `{at_millis} || Ping time to {target}: {rtt_ms}ms`.
pub fn success_line(at_millis: u64, target: &str, rtt_ms: u32) -> (r: String)
    ensures
        r@ == success_line_text(at_millis as nat, target@, rtt_ms as nat),
{
    let mut s = decimal(at_millis);
    s.append(" || Ping time to ");
    s.append(target);
    s.append(": ");
    let v = decimal(rtt_ms as u64);
    s.append(v.as_str());
    s.append("ms");
    s
}

/// Builds `{at_millis} || Error pinging {target}: {reason}`.
pub fn failure_line(at_millis: u64, target: &str, reason: &str) -> (r: String)
    ensures
        r@ == failure_line_text(at_millis as nat, target@, reason@),
{
    let mut s = decimal(at_millis);
    s.append(" || Error pinging ");
    s.append(target);
    s.append(": ");
    s.append(reason);
    s
}

} // verus!
