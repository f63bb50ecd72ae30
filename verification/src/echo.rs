//! The example client's model: a configurable echo of every input back as
//! vouchers, notices and reports, with a countdown of forced rejections.
//!
//! The sends themselves go over HTTP and stay outside the crate; what is
//! here is the model's state and its decisions.

use vstd::prelude::*;
use crate::numfmt::{dec_nat, u16_to_dec};
use crate::types::{AdvanceRequest, InspectReport, InspectRequest, Report};

verus! {

/// What the echo model does with one advance request: how many copies of
/// the request's payload go back out as vouchers, notices and reports,
/// where the vouchers go, and whether the request is accepted.
#[derive(Debug, Clone, PartialEq, Eq)]
pub struct EchoAdvancePlan {
    pub vouchers: u32,
    pub notices: u32,
    pub reports: u32,
    pub voucher_destination: String,
    pub echo_payload: String,
    pub accept: bool,
}

/// How many copies of each input the echo client emits, and how often it
/// rejects or raises an exception instead.
#[derive(Debug, Clone, Copy, PartialEq, Eq, Structural)]
pub struct TestConfig {
    pub vouchers: u32,
    pub reports: u32,
    pub notices: u32,
    pub reject: i32,
    pub exception: i32,
}

/// The echo client's configuration: where the rollup HTTP server listens,
/// and what to echo.
#[derive(Debug, Clone, PartialEq, Eq)]
pub struct Config {
    pub rollup_http_server_address: String,
    pub test_config: TestConfig,
}

impl Config {
    /// The default configuration: the server on its usual local address.
    pub fn new(test_config: TestConfig) -> (c: Self)
        ensures
            c.rollup_http_server_address@ == "127.0.0.1:5001"@,
            c.test_config == test_config,
    {
        Config {
            rollup_http_server_address: String::from_str("127.0.0.1:5001"),
            test_config,
        }
    }
}

/// The echo counters of a running model.
#[derive(Debug, Clone, Copy, PartialEq, Eq, Structural)]
pub struct TestEchoData {
    pub vouchers: u32,
    pub reports: u32,
    pub notices: u32,
    pub reject: i32,
}

/// The error reported when an advance request cannot be processed.
#[derive(Debug, Clone, PartialEq, Eq)]
pub struct AdvanceError {
    pub cause: String,
}

/// The error reported when an inspect request cannot be answered.
#[derive(Debug, Clone, PartialEq, Eq)]
pub struct InspectError {
    pub cause: String,
}

/// The echo client's state: its counters and the address it reports to.
#[derive(Debug, Clone, PartialEq, Eq)]
pub struct Model {
    pub test_echo_data: TestEchoData,
    pub proxy_addr: String,
}

impl Model {
    /// A model reporting to the given proxy address and port.
    pub fn new(proxy_address: &str, proxy_port: u16, test_echo_data: TestEchoData) -> (m: Self)
        ensures
            m.proxy_addr@ == "http://"@ + proxy_address@ + ":"@ + dec_nat(proxy_port as nat),
            m.test_echo_data == test_echo_data,
    {
        let mut proxy_addr = String::from_str("http://");
        proxy_addr.append(proxy_address);
        proxy_addr.append(":");
        let port = u16_to_dec(proxy_port);
        proxy_addr.append(port.as_str());
        Model { test_echo_data, proxy_addr }
    }

    /// Decides what one advance request is answered with: the configured
    /// numbers of vouchers (to the request's sender), notices and reports,
    /// each echoing the request's payload.  The request is accepted unless
    /// the rejection countdown stands at one, and every answer consumes one
    /// step of a running countdown.
    pub fn advance(&mut self, request: &AdvanceRequest) -> (p: EchoAdvancePlan)
        ensures
            final(self).proxy_addr == old(self).proxy_addr,
            p.vouchers == old(self).test_echo_data.vouchers,
            p.notices == old(self).test_echo_data.notices,
            p.reports == old(self).test_echo_data.reports,
            p.voucher_destination@ == request.metadata.msg_sender@,
            p.echo_payload@ == request.payload@,
            p.accept == (old(self).test_echo_data.reject != 1),
            final(self).test_echo_data == (TestEchoData {
                reject: if old(self).test_echo_data.reject >= 1 {
                    (old(self).test_echo_data.reject - 1) as i32
                } else {
                    old(self).test_echo_data.reject
                },
                ..old(self).test_echo_data
            }),
    {
        let plan = EchoAdvancePlan {
            vouchers: self.test_echo_data.vouchers,
            notices: self.test_echo_data.notices,
            reports: self.test_echo_data.reports,
            voucher_destination: request.metadata.msg_sender.clone(),
            echo_payload: request.payload.clone(),
            accept: self.test_echo_data.reject != 1,
        };
        if self.test_echo_data.reject >= 1 {
            self.test_echo_data.reject = self.test_echo_data.reject - 1;
        }
        plan
    }

    /// Answers an inspect request: the configured number of reports, each
    /// echoing the request's payload.  While the rejection countdown stands
    /// at one the model rejects instead and the countdown stays; from any
    /// higher value one answer consumes one step of the countdown.
    pub fn inspect(&mut self, request: &InspectRequest) -> (r: Result<InspectReport, InspectError>)
        ensures
            final(self).proxy_addr == old(self).proxy_addr,
            old(self).test_echo_data.reject == 1 ==> (r matches Err(e) && e.cause@
                == "rejected due to reject parameter"@) && final(self).test_echo_data == old(
                self,
            ).test_echo_data,
            old(self).test_echo_data.reject != 1 ==> (r matches Ok(report) && {
                &&& report.reports@.len() == old(self).test_echo_data.reports
                &&& forall|i: int|
                    0 <= i < report.reports@.len() ==> (#[trigger] report.reports@[i]).payload@
                        == request.payload@
            }) && final(self).test_echo_data == (TestEchoData {
                reject: if old(self).test_echo_data.reject >= 1 {
                    (old(self).test_echo_data.reject - 1) as i32
                } else {
                    old(self).test_echo_data.reject
                },
                ..old(self).test_echo_data
            }),
    {
        let n = self.test_echo_data.reports;
        let mut reports: Vec<Report> = Vec::new();
        let mut i: u32 = 0;
        while i < n
            invariant
                i <= n,
                reports@.len() == i,
                forall|k: int|
                    0 <= k < reports@.len() ==> (#[trigger] reports@[k]).payload@
                        == request.payload@,
            decreases n - i,
        {
            reports.push(Report { payload: request.payload.clone() });
            i += 1;
        }
        if self.test_echo_data.reject == 1 {
            return Err(InspectError { cause: String::from_str("rejected due to reject parameter") });
        }
        if self.test_echo_data.reject >= 1 {
            self.test_echo_data.reject = self.test_echo_data.reject - 1;
        }
        Ok(InspectReport { reports })
    }
}

} // verus!
