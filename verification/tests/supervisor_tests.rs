use rollup_http_server::codec::decode_payload;
use rollup_http_server::echo::{Config, Model, TestConfig, TestEchoData};
use rollup_http_server::idgen::IdGenerator;
use rollup_http_server::printout::{
    format_address_printout, print_address, print_advance, print_exception, print_inspect,
    print_notice, print_report, print_voucher,
};
use rollup_http_server::rollup_error::{RollupError, RollupErrorKind};
use rollup_http_server::supervisor::{dapp_exit_message, exception_for_dapp_exit, exception_for_message};
use rollup_http_server::types::{
    AdvanceMetadata, AdvanceRequest, Exception, InspectRequest, Notice, Report, Voucher,
};

#[test]
fn dapp_exit_becomes_one_readable_exception_payload() {
    // the supervised process exited with a nonzero status; the one
    // exception written to the device names that status in clear text
    let exception = exception_for_dapp_exit("exit status: 1");
    let bytes = decode_payload(&exception.payload).expect("payload is well-formed hex");
    let message = String::from_utf8(bytes).expect("payload decodes to text");
    assert_eq!(message, "dapp exited with exit status: 1");
    assert!(message.contains("exit status: 1"));
}

#[test]
fn exit_messages_name_the_status() {
    assert_eq!(dapp_exit_message("exit status: 137"), "dapp exited with exit status: 137");
}

#[test]
fn exception_payload_is_hex_of_the_message() {
    let exception = exception_for_message("boom");
    assert_eq!(exception.payload, format!("0x{}", hex::encode("boom")));
}

#[test]
fn rollup_error_rendering() {
    let err = RollupError::new("IOCTL_ROLLUP_FINISH returned error -5");
    assert_eq!(err.kind(), RollupErrorKind::Device);
    assert_eq!(err.to_string(), "rollup error: IOCTL_ROLLUP_FINISH returned error -5");
    let err = RollupError::process("dapp exited with exit status: 1");
    assert_eq!(err.kind(), RollupErrorKind::Process);
}

#[test]
fn id_generator_counts_each_kind_from_one() {
    let mut generator = IdGenerator::new();
    assert_eq!(generator.get_new_voucher_id(), 1);
    assert_eq!(generator.get_new_voucher_id(), 2);
    assert_eq!(generator.get_new_notice_id(), 1);
    assert_eq!(generator.get_new_report_id(), 1);
    assert_eq!(generator.get_new_voucher_id(), 3);
}

#[test]
fn echo_model_answers_inspects_with_configured_reports() {
    let data = TestEchoData { vouchers: 0, reports: 3, notices: 0, reject: 0 };
    let mut model = Model::new("127.0.0.1", 5004, data);
    assert_eq!(model.proxy_addr, "http://127.0.0.1:5004");
    let request = InspectRequest { payload: "0xabcd".to_string() };
    let report = model.inspect(&request).expect("not rejecting");
    assert_eq!(report.reports.len(), 3);
    for r in &report.reports {
        assert_eq!(r.payload, "0xabcd");
    }
}

#[test]
fn echo_model_plans_advances_as_echoes() {
    let data = TestEchoData { vouchers: 2, reports: 1, notices: 3, reject: 1 };
    let mut model = Model::new("127.0.0.1", 5004, data);
    let request = AdvanceRequest {
        metadata: AdvanceMetadata {
            chain_id: 1,
            app_contract: "0x0000000000000000000000000000000000000001".to_string(),
            msg_sender: "0x0000000000000000000000000000000000000003".to_string(),
            block_number: 0,
            block_timestamp: 0,
            prev_randao: "0x00".to_string(),
            input_index: 0,
        },
        payload: "0xdeadbeef".to_string(),
    };
    // the countdown stands at one: this request is rejected and consumes it
    let plan = model.advance(&request);
    assert_eq!(plan.vouchers, 2);
    assert_eq!(plan.notices, 3);
    assert_eq!(plan.reports, 1);
    assert_eq!(plan.voucher_destination, "0x0000000000000000000000000000000000000003");
    assert_eq!(plan.echo_payload, "0xdeadbeef");
    assert!(!plan.accept);
    // the countdown is spent: the next request is accepted
    let plan = model.advance(&request);
    assert!(plan.accept);
}

#[test]
fn echo_model_reject_countdown() {
    let data = TestEchoData { vouchers: 0, reports: 1, notices: 0, reject: 2 };
    let mut model = Model::new("localhost", 5001, data);
    let request = InspectRequest { payload: "0x".to_string() };
    // reject stands at 2: one answer is produced and consumes one step
    assert!(model.inspect(&request).is_ok());
    // reject stands at 1: the model rejects and the countdown stays
    let err = model.inspect(&request).unwrap_err();
    assert_eq!(err.cause, "rejected due to reject parameter");
    assert!(model.inspect(&request).is_err());
}

#[test]
fn echo_config_uses_the_default_server_address() {
    let config = Config::new(TestConfig { vouchers: 1, reports: 2, notices: 3, reject: 0, exception: 0 });
    assert_eq!(config.rollup_http_server_address, "127.0.0.1:5001");
    assert_eq!(config.test_config.reports, 2);
}

#[test]
fn printouts_render_the_exact_log_lines() {
    let advance = AdvanceRequest {
        metadata: AdvanceMetadata {
            chain_id: 1,
            app_contract: "0x0000000000000000000000000000000000000001".to_string(),
            msg_sender: "0x0000000000000000000000000000000000000003".to_string(),
            block_number: 7,
            block_timestamp: 1234,
            prev_randao: "0x00".to_string(),
            input_index: 2,
        },
        payload: "0xdeadbeef".to_string(),
    };
    assert_eq!(
        print_advance(&advance),
        "advance: {{msg_sender: 0x0000000000000000000000000000000000000003 block_number: 7 block_timestamp: 1234 input_index: 2 }"
    );
    assert_eq!(
        print_inspect(&InspectRequest { payload: "0xabcd".to_string() }),
        "Inspect: { length: 6 payload: 0xabcd}"
    );
    assert_eq!(
        print_notice(&Notice { payload: "0x01".to_string() }),
        "Notice: { length: 4 payload: 0x01}"
    );
    assert_eq!(
        print_voucher(&Voucher {
            destination: "1111111111111111111111111111111111111111".to_string(),
            value: "0x01".to_string(),
            payload: "0xff".to_string(),
        }),
        "voucher: {{ destination: 0x1111111111111111111111111111111111111111 length: 4 payload: 0xff }"
    );
    assert_eq!(
        print_report(&Report { payload: "0x".to_string() }),
        "report: { length: 2 payload: 0x}"
    );
    assert_eq!(
        print_exception(&Exception { payload: "0x00".to_string() }),
        "exception: { length: 4 payload: 0x00}"
    );
}

#[test]
fn address_printouts_add_the_marker_only_when_missing() {
    assert_eq!(print_address(&"0xabc".to_string()), "0xabc");
    assert_eq!(print_address(&"abc".to_string()), "0xabc");
    let mut line = String::from("sender: ");
    format_address_printout("03", &mut line);
    assert_eq!(line, "sender: 0x03");
}
