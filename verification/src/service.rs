//! The decision layer of the REST surface: parsing the `/finish` status,
//! choosing status codes, and building the exact reply bodies.
//!
//! The HTTP server itself is plumbing and stays outside the crate; it hands
//! the decoded request records in and sends these replies out unchanged.

use vstd::prelude::*;
use crate::numfmt::{dec_nat, u16_to_dec, u64_to_dec};
use crate::rollup_error::{RollupError, RollupErrorKind};
use crate::types::{
    AdvanceMetadata, AdvanceRequest, FinishRequest, GIOResponse, InspectRequest, RollupRequest,
    RollupResponse,
};

verus! {

/// An HTTP reply as the decision layer determines it: the status code and
/// the exact body.
#[derive(Debug, Clone, PartialEq, Eq)]
pub struct HttpReply {
    pub status_code: u16,
    pub body: String,
}

/// Parses the status of a `/finish` call: `"accept"` and `"reject"` and
/// nothing else.
pub fn parse_finish_status(request: &FinishRequest) -> (r: Result<bool, RollupError>)
    ensures
        request.status@ == "accept"@ ==> r == Ok::<bool, RollupError>(true),
        request.status@ == "reject"@ ==> r == Ok::<bool, RollupError>(false),
        request.status@ != "accept"@ && request.status@ != "reject"@ ==> (r matches Err(e)
            && e.spec_kind() == RollupErrorKind::Validation && e.spec_message()
            == "status must be 'accept' or 'reject'"@),
{
    proof {
        reveal_strlit("accept");
        reveal_strlit("reject");
        assert("accept"@.len() == 6 && "reject"@.len() == 6);
        assert("accept"@[0] == 'a' && "reject"@[0] == 'r');
    }
    if request.status == String::from_str("accept") {
        Ok(true)
    } else if request.status == String::from_str("reject") {
        Ok(false)
    } else {
        Err(RollupError::validation("status must be 'accept' or 'reject'"))
    }
}

/// The status string a client submits for the outcome it reports:
/// `"accept"` for a processed request, `"reject"` otherwise.
pub fn finish_status_string(response: &RollupResponse) -> (s: String)
    ensures
        response == RollupResponse::Finish(true) ==> s@ == "accept"@,
        response == RollupResponse::Finish(false) ==> s@ == "reject"@,
{
    match response {
        RollupResponse::Finish(true) => String::from_str("accept"),
        RollupResponse::Finish(false) => String::from_str("reject"),
    }
}

/// The tag naming a request kind on the wire.
pub fn request_type_tag(request: &RollupRequest) -> (s: &'static str)
    ensures
        request is Advance ==> s@ == "advance_state"@,
        request is Inspect ==> s@ == "inspect_state"@,
{
    match request {
        RollupRequest::Advance(_) => "advance_state",
        RollupRequest::Inspect(_) => "inspect_state",
    }
}

/// The JSON body carrying an assigned output index.
pub open spec fn json_index_body(index: u64) -> Seq<char> {
    "{\"index\":"@ + dec_nat(index as nat) + "}"@
}

/// Builds the JSON body carrying an assigned output index.
pub fn index_response_body(index: u64) -> (s: String)
    ensures
        s@ == json_index_body(index),
{
    let mut s = String::from_str("{\"index\":");
    let digits = u64_to_dec(index);
    s.append(digits.as_str());
    s.append("}");
    s
}

/// The JSON object for advance metadata, fields in wire order.
pub open spec fn json_advance_metadata(m: AdvanceMetadata) -> Seq<char> {
    "{\"chain_id\":"@ + dec_nat(m.chain_id as nat) + ",\"app_contract\":\""@ + m.app_contract@
        + "\",\"msg_sender\":\""@ + m.msg_sender@ + "\",\"block_number\":"@ + dec_nat(
        m.block_number as nat,
    ) + ",\"block_timestamp\":"@ + dec_nat(m.block_timestamp as nat) + ",\"prev_randao\":\""@
        + m.prev_randao@ + "\",\"input_index\":"@ + dec_nat(m.input_index as nat) + "}"@
}

/// The JSON object for an advance request.
pub open spec fn json_advance_request(r: AdvanceRequest) -> Seq<char> {
    "{\"metadata\":"@ + json_advance_metadata(r.metadata) + ",\"payload\":\""@ + r.payload@
        + "\"}"@
}

/// The JSON object for an inspect request.
pub open spec fn json_inspect_request(r: InspectRequest) -> Seq<char> {
    "{\"payload\":\""@ + r.payload@ + "\"}"@
}

/// The tagged JSON object answering a `/finish` call: the kind of the next
/// request and its decoded body.
pub open spec fn json_finish_response(r: RollupRequest) -> Seq<char> {
    match r {
        RollupRequest::Advance(a) => "{\"request_type\":\"advance_state\",\"data\":"@
            + json_advance_request(a) + "}"@,
        RollupRequest::Inspect(i) => "{\"request_type\":\"inspect_state\",\"data\":"@
            + json_inspect_request(i) + "}"@,
    }
}

/// The JSON object for a generic-I/O response.
pub open spec fn json_gio_response(r: GIOResponse) -> Seq<char> {
    "{\"response_code\":"@ + dec_nat(r.response_code as nat) + ",\"response\":\""@ + r.response@
        + "\"}"@
}

fn append_advance_metadata(body: &mut String, m: &AdvanceMetadata)
    ensures
        final(body)@ == old(body)@ + json_advance_metadata(*m),
{
    body.append("{\"chain_id\":");
    let chain_id = u64_to_dec(m.chain_id);
    body.append(chain_id.as_str());
    body.append(",\"app_contract\":\"");
    body.append(m.app_contract.as_str());
    body.append("\",\"msg_sender\":\"");
    body.append(m.msg_sender.as_str());
    body.append("\",\"block_number\":");
    let block_number = u64_to_dec(m.block_number);
    body.append(block_number.as_str());
    body.append(",\"block_timestamp\":");
    let block_timestamp = u64_to_dec(m.block_timestamp);
    body.append(block_timestamp.as_str());
    body.append(",\"prev_randao\":\"");
    body.append(m.prev_randao.as_str());
    body.append("\",\"input_index\":");
    let input_index = u64_to_dec(m.input_index);
    body.append(input_index.as_str());
    body.append("}");
}

/// Builds the tagged JSON body answering a `/finish` call.
pub fn finish_response_body(request: &RollupRequest) -> (s: String)
    ensures
        s@ == json_finish_response(*request),
{
    match request {
        RollupRequest::Advance(a) => {
            let mut s = String::from_str("{\"request_type\":\"advance_state\",\"data\":");
            s.append("{\"metadata\":");
            append_advance_metadata(&mut s, &a.metadata);
            s.append(",\"payload\":\"");
            s.append(a.payload.as_str());
            s.append("\"}");
            s.append("}");
            s
        },
        RollupRequest::Inspect(i) => {
            let mut s = String::from_str("{\"request_type\":\"inspect_state\",\"data\":");
            s.append("{\"payload\":\"");
            s.append(i.payload.as_str());
            s.append("\"}");
            s.append("}");
            s
        },
    }
}

/// Builds the JSON body of a generic-I/O response.
pub fn gio_response_body(response: &GIOResponse) -> (s: String)
    ensures
        s@ == json_gio_response(*response),
{
    let mut s = String::from_str("{\"response_code\":");
    let code = u16_to_dec(response.response_code);
    s.append(code.as_str());
    s.append(",\"response\":\"");
    s.append(response.response.as_str());
    s.append("\"}");
    s
}

fn error_reply(prefix: &str, e: &RollupError) -> (reply: HttpReply)
    ensures
        reply.status_code == 400,
        reply.body@ == prefix@ + "rollup error: "@ + e.spec_message() + "'"@,
{
    let mut body = String::from_str(prefix);
    let rendered = e.to_string();
    body.append(rendered.as_str());
    body.append("'");
    HttpReply { status_code: 400, body }
}

/// The `/voucher` reply: 201 with the assigned index, or 400 naming the
/// cause.
pub fn voucher_reply(r: &Result<u64, RollupError>) -> (reply: HttpReply)
    ensures
        r matches Ok(index) ==> reply.status_code == 201 && reply.body@ == json_index_body(*index),
        r matches Err(e) ==> reply.status_code == 400 && reply.body@
            == "unable to insert voucher, error details: '"@ + "rollup error: "@ + e.spec_message()
            + "'"@,
{
    match r {
        Ok(index) => HttpReply { status_code: 201, body: index_response_body(*index) },
        Err(e) => error_reply("unable to insert voucher, error details: '", e),
    }
}

/// The `/notice` reply: 201 with the assigned index, or 400 naming the
/// cause.
pub fn notice_reply(r: &Result<u64, RollupError>) -> (reply: HttpReply)
    ensures
        r matches Ok(index) ==> reply.status_code == 201 && reply.body@ == json_index_body(*index),
        r matches Err(e) ==> reply.status_code == 400 && reply.body@
            == "Unable to insert notice, error details: '"@ + "rollup error: "@ + e.spec_message()
            + "'"@,
{
    match r {
        Ok(index) => HttpReply { status_code: 201, body: index_response_body(*index) },
        Err(e) => error_reply("Unable to insert notice, error details: '", e),
    }
}

/// The `/report` reply: 202 with an empty body, or 400 naming the cause.
pub fn report_reply(r: &Result<(), RollupError>) -> (reply: HttpReply)
    ensures
        r is Ok ==> reply.status_code == 202 && reply.body@ == Seq::<char>::empty(),
        r matches Err(e) ==> reply.status_code == 400 && reply.body@
            == "unable to insert report, error details: '"@ + "rollup error: "@ + e.spec_message()
            + "'"@,
{
    match r {
        Ok(_) => HttpReply { status_code: 202, body: String::new() },
        Err(e) => error_reply("unable to insert report, error details: '", e),
    }
}

/// The `/gio` reply: 202 with the response object, or 400 naming the cause.
pub fn gio_reply(r: &Result<GIOResponse, RollupError>) -> (reply: HttpReply)
    ensures
        r matches Ok(response) ==> reply.status_code == 202 && reply.body@ == json_gio_response(
            *response,
        ),
        r matches Err(e) ==> reply.status_code == 400 && reply.body@
            == "unable to process gio request, error details: '"@ + "rollup error: "@
            + e.spec_message() + "'"@,
{
    match r {
        Ok(response) => HttpReply { status_code: 202, body: gio_response_body(response) },
        Err(e) => error_reply("unable to process gio request, error details: '", e),
    }
}

/// The `/exception` reply: 202 with an empty body, or 400 naming the cause.
pub fn exception_reply(r: &Result<(), RollupError>) -> (reply: HttpReply)
    ensures
        r is Ok ==> reply.status_code == 202 && reply.body@ == Seq::<char>::empty(),
        r matches Err(e) ==> reply.status_code == 400 && reply.body@
            == "unable to throw exception, error details: '"@ + "rollup error: "@
            + e.spec_message() + "'"@,
{
    match r {
        Ok(_) => HttpReply { status_code: 202, body: String::new() },
        Err(e) => error_reply("unable to throw exception, error details: '", e),
    }
}

/// The `/finish` reply: 200 with the tagged next request, or 400 naming the
/// cause.
pub fn finish_reply(r: &Result<RollupRequest, RollupError>) -> (reply: HttpReply)
    ensures
        r matches Ok(request) ==> reply.status_code == 200 && reply.body@ == json_finish_response(
            *request,
        ),
        r matches Err(e) ==> reply.status_code == 400 && reply.body@
            == "error performing finish request: '"@ + "rollup error: "@ + e.spec_message()
            + "'"@,
{
    match r {
        Ok(request) => HttpReply { status_code: 200, body: finish_response_body(request) },
        Err(e) => error_reply("error performing finish request: '", e),
    }
}

} // verus!
