use rollup_http_server::numfmt::{i32_to_dec, u16_to_dec, u64_to_dec, usize_to_dec};
use rollup_http_server::rollup_error::{RollupError, RollupErrorKind};
use rollup_http_server::service::{
    exception_reply, finish_reply, finish_response_body, finish_status_string, gio_reply,
    gio_response_body, index_response_body, notice_reply, parse_finish_status, report_reply,
    request_type_tag, voucher_reply,
};
use rollup_http_server::types::{
    AdvanceMetadata, AdvanceRequest, FinishRequest, GIOResponse, InspectRequest, RollupRequest,
    RollupResponse,
};

#[test]
fn decimal_rendering_is_exact() {
    assert_eq!(u64_to_dec(0), "0");
    assert_eq!(u64_to_dec(7), "7");
    assert_eq!(u64_to_dec(42), "42");
    assert_eq!(u64_to_dec(1234567890), "1234567890");
    assert_eq!(u64_to_dec(u64::MAX), "18446744073709551615");
    assert_eq!(u16_to_dec(65535), "65535");
    assert_eq!(usize_to_dec(100), "100");
    assert_eq!(i32_to_dec(0), "0");
    assert_eq!(i32_to_dec(-5), "-5");
    assert_eq!(i32_to_dec(i32::MIN), "-2147483648");
}

#[test]
fn finish_status_parsing_accepts_exactly_two_words() {
    assert_eq!(parse_finish_status(&FinishRequest { status: "accept".to_string() }), Ok(true));
    assert_eq!(parse_finish_status(&FinishRequest { status: "reject".to_string() }), Ok(false));
    let err = parse_finish_status(&FinishRequest { status: "maybe".to_string() }).unwrap_err();
    assert_eq!(err.kind(), RollupErrorKind::Validation);
    assert_eq!(err.message(), "status must be 'accept' or 'reject'");
    assert!(parse_finish_status(&FinishRequest { status: "Accept".to_string() }).is_err());
    assert!(parse_finish_status(&FinishRequest { status: "".to_string() }).is_err());
}

#[test]
fn finish_status_string_is_the_inverse_of_parsing() {
    assert_eq!(finish_status_string(&RollupResponse::Finish(true)), "accept");
    assert_eq!(finish_status_string(&RollupResponse::Finish(false)), "reject");
}

#[test]
fn request_type_tags_match_the_wire_format() {
    let inspect = RollupRequest::Inspect(InspectRequest { payload: "0x".to_string() });
    assert_eq!(request_type_tag(&inspect), "inspect_state");
}

#[test]
fn index_bodies_are_exact_json() {
    assert_eq!(index_response_body(1), "{\"index\":1}");
    assert_eq!(index_response_body(42), "{\"index\":42}");
}

#[test]
fn voucher_replies_carry_consecutive_indices() {
    // the first successful voucher write of a lifetime answers 201/index 1,
    // the second 201/index 2
    let first = voucher_reply(&Ok(1));
    assert_eq!(first.status_code, 201);
    assert_eq!(first.body, "{\"index\":1}");
    let second = voucher_reply(&Ok(2));
    assert_eq!(second.status_code, 201);
    assert_eq!(second.body, "{\"index\":2}");
}

#[test]
fn rejected_vouchers_answer_400_with_the_cause() {
    let reply = voucher_reply(&Err(RollupError::validation("Address not valid")));
    assert_eq!(reply.status_code, 400);
    assert_eq!(
        reply.body,
        "unable to insert voucher, error details: 'rollup error: Address not valid'"
    );
}

#[test]
fn notice_report_exception_and_gio_replies() {
    let notice = notice_reply(&Ok(1));
    assert_eq!(notice.status_code, 201);
    assert_eq!(notice.body, "{\"index\":1}");

    let report = report_reply(&Ok(()));
    assert_eq!(report.status_code, 202);
    assert_eq!(report.body, "");

    let exception = exception_reply(&Ok(()));
    assert_eq!(exception.status_code, 202);
    assert_eq!(exception.body, "");

    let gio = gio_reply(&Ok(GIOResponse { response_code: 7, response: "0xcafe".to_string() }));
    assert_eq!(gio.status_code, 202);
    assert_eq!(gio.body, "{\"response_code\":7,\"response\":\"0xcafe\"}");

    let rejected = gio_reply(&Err(RollupError::validation(
        "gio request domain must be at least 0x10",
    )));
    assert_eq!(rejected.status_code, 400);
    assert_eq!(
        rejected.body,
        "unable to process gio request, error details: 'rollup error: gio request domain must be at least 0x10'"
    );
}

#[test]
fn gio_response_body_is_exact_json() {
    let body = gio_response_body(&GIOResponse { response_code: 42, response: "0x".to_string() });
    assert_eq!(body, "{\"response_code\":42,\"response\":\"0x\"}");
}

#[test]
fn finish_response_bodies_are_tagged_json() {
    let advance = RollupRequest::Advance(AdvanceRequest {
        metadata: AdvanceMetadata {
            chain_id: 1,
            app_contract: "0x0000000000000000000000000000000000000001".to_string(),
            msg_sender: "0x0000000000000000000000000000000000000003".to_string(),
            block_number: 7,
            block_timestamp: 1234,
            prev_randao: format!("0x{}", "00".repeat(32)),
            input_index: 0,
        },
        payload: "0xdeadbeef".to_string(),
    });
    let body = finish_response_body(&advance);
    let expected = "{\"request_type\":\"advance_state\",\"data\":{\"metadata\":{\"chain_id\":1,\"app_contract\":\"0x0000000000000000000000000000000000000001\",\"msg_sender\":\"0x0000000000000000000000000000000000000003\",\"block_number\":7,\"block_timestamp\":1234,\"prev_randao\":\"0x0000000000000000000000000000000000000000000000000000000000000000\",\"input_index\":0},\"payload\":\"0xdeadbeef\"}}";
    assert_eq!(body, expected);

    let inspect = RollupRequest::Inspect(InspectRequest { payload: "0xabcd".to_string() });
    assert_eq!(
        finish_response_body(&inspect),
        "{\"request_type\":\"inspect_state\",\"data\":{\"payload\":\"0xabcd\"}}"
    );

    let reply = finish_reply(&Ok(inspect));
    assert_eq!(reply.status_code, 200);

    let failed = finish_reply(&Err(RollupError::new("IOCTL_ROLLUP_FINISH returned error -5")));
    assert_eq!(failed.status_code, 400);
    assert_eq!(
        failed.body,
        "error performing finish request: 'rollup error: IOCTL_ROLLUP_FINISH returned error -5'"
    );
}
