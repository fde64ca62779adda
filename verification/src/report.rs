//! The result record and its delivery form: serializing a record to the JSON
//! payload the collector expects and building the collector URL.

use vstd::prelude::*;
use crate::config::EndpointConfig;
use crate::json::escape_string;
use crate::text::append_str;
use crate::text::chars_of;
use crate::text::dec_digits;
use crate::text::push_dec_u64;
use crate::text::string_of;
use crate::json::append_escaped;

verus! {

/// One cycle's result: the command that ran, its captured standard output
/// and the identity of this device. Built fresh each cycle and handed to the
/// reporter.
pub struct ResultRecord {
    pub command: String,
    pub output: String,
    pub device_id: String,
}

/// The characters `String::from_utf8_lossy` decodes from `bytes`: a function
/// of the bytes alone.
pub uninterp spec fn lossy_of(bytes: Seq<u8>) -> Seq<char>;

/// Relies on `String::from_utf8_lossy`: the decoding depends on the bytes
/// alone (invalid sequences are replaced with the replacement character,
/// never an error), and an empty input decodes to the empty string.
#[verifier::external_body]
pub(crate) fn decode_lossy(bytes: &Vec<u8>) -> (r: String)
    ensures
        r@ == lossy_of(bytes@),
        bytes@.len() == 0 ==> r@.len() == 0,
{
    String::from_utf8_lossy(bytes).into_owned()
}

/// Builds the record for one cycle: the command line as configured, the raw
/// captured standard output decoded lossily, and the device identity.
pub fn build_record(command: &str, stdout: &Vec<u8>, device_id: &str) -> (r: ResultRecord)
    ensures
        r.command@ == command@,
        r.output@ == lossy_of(stdout@),
        r.device_id@ == device_id@,
{
    ResultRecord {
        command: command.to_owned(),
        output: decode_lossy(stdout),
        device_id: device_id.to_owned(),
    }
}

/// The JSON text of a record: a flat object with exactly the three string
/// fields, in the order command, output, device_id.
pub open spec fn record_json(command: Seq<char>, output: Seq<char>, device_id: Seq<char>) -> Seq<
    char,
> {
    "{\"command\":\""@ + escape_string(command) + "\",\"output\":\""@ + escape_string(output)
        + "\",\"device_id\":\""@ + escape_string(device_id) + "\"}"@
}

/// Serializes a record to its JSON payload.
pub fn serialize_record(r: &ResultRecord) -> (s: String)
    ensures
        s@ == record_json(r.command@, r.output@, r.device_id@),
{
    let mut out: Vec<char> = Vec::new();
    append_str(&mut out, "{\"command\":\"");
    let command_chars = chars_of(r.command.as_str());
    append_escaped(&mut out, &command_chars);
    append_str(&mut out, "\",\"output\":\"");
    let output_chars = chars_of(r.output.as_str());
    append_escaped(&mut out, &output_chars);
    append_str(&mut out, "\",\"device_id\":\"");
    let device_chars = chars_of(r.device_id.as_str());
    append_escaped(&mut out, &device_chars);
    append_str(&mut out, "\"}");
    proof {
        assert(out@ =~= record_json(r.command@, r.output@, r.device_id@));
    }
    string_of(&out)
}

/// The collector URL for an endpoint: `http://{host}:{port}/api/commands`.
pub open spec fn url_of(host: Seq<char>, port: u16) -> Seq<char> {
    "http://"@ + host + ":"@ + dec_digits(port as nat) + "/api/commands"@
}

/// Builds the collector URL for an endpoint.
pub fn endpoint_url(endpoint: &EndpointConfig) -> (u: String)
    ensures
        u@ == url_of(endpoint.host@, endpoint.port),
{
    let mut out: Vec<char> = Vec::new();
    append_str(&mut out, "http://");
    append_str(&mut out, endpoint.host.as_str());
    append_str(&mut out, ":");
    push_dec_u64(&mut out, endpoint.port as u64);
    append_str(&mut out, "/api/commands");
    proof {
        assert(out@ =~= url_of(endpoint.host@, endpoint.port));
    }
    string_of(&out)
}

/// Whether an HTTP status code counts as success for delivery: the 2xx
/// class.
pub fn status_is_success(status: u16) -> (r: bool)
    ensures
        r <==> 200 <= status < 300,
{
    200 <= status && status < 300
}

} // verus!
