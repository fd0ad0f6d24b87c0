//! The two JSON endpoints' payloads: the health report and the echo
//! envelopes. Serialization to JSON happens in the runtime layer; the values
//! themselves, and what they must hold, are fixed here.

use vstd::prelude::*;
use crate::assets::HttpResponse;
use vstd::string::StringExecFns;

verus! {

/// The health report: a constant-shaped record, built fresh per call.
pub struct HealthStatus {
    pub status: String,
    pub message: String,
    pub port: u16,
}

/// The reply of the echo endpoint at `/api/echo`.
pub struct EchoReply {
    pub echo: String,
}

/// The reply shape of the endpoints of the reduced server: `/echo` and its
/// health report.
pub struct MessageReply {
    pub message: String,
}

/// What every health report holds: the one value the endpoint may answer.
pub open spec fn health_report(h: HealthStatus) -> bool {
    &&& h.status@ == "ok"@
    &&& h.message@ == "Rust server is running"@
    &&& h.port == 3000u16
}

/// Builds the health report.
pub fn health_status() -> (r: HealthStatus)
    ensures
        health_report(r),
{
    HealthStatus {
        status: "ok".to_owned(),
        message: "Rust server is running".to_owned(),
        port: 3000,
    }
}

/// Every two health reports agree: the endpoint is deterministic for the
/// life of the process, since each call may only answer the one value.
pub proof fn lemma_health_deterministic(a: HealthStatus, b: HealthStatus)
    requires
        health_report(a),
        health_report(b),
    ensures
        a.status@ == b.status@,
        a.message@ == b.message@,
        a.port == b.port,
{
}

/// Echoes a submitted message back unchanged in the `echo` field.
pub fn echo_reply(message: String) -> (r: EchoReply)
    ensures
        r.echo@ == message@,
{
    EchoReply { echo: message }
}

/// The reduced server's echo: the `text` field comes back unchanged as the
/// `message` field.
pub fn echo_text_reply(text: String) -> (r: MessageReply)
    ensures
        r.message@ == text@,
{
    MessageReply { message: text }
}

/// The reduced server's health report.
pub fn basic_health_reply() -> (r: MessageReply)
    ensures
        r.message@ == "OK"@,
{
    MessageReply { message: "OK".to_owned() }
}

/// The reduced server's greeting at its root path.
pub fn hello_message() -> (r: String)
    ensures
        r@ == "Hello from Rust!"@,
{
    "Hello from Rust!".to_owned()
}

/// Wraps an already-serialized JSON body into the envelope the JSON
/// endpoints send: status 200, a JSON content type, and the permissive
/// cross-origin header.
pub fn ok_json_envelope(body: String) -> (r: HttpResponse)
    ensures
        r.status == 200,
        r.content_type matches Some(t) && t@ == "application/json"@,
        r.cors == true,
        r.body@ == body@,
{
    HttpResponse {
        status: 200,
        content_type: Some("application/json".to_owned()),
        cors: true,
        body,
    }
}

} // verus!
