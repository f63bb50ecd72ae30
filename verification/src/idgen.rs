//! A per-kind output-id generator: vouchers, notices and reports each get
//! consecutive ids starting at 1 within one generator's lifetime.

use vstd::prelude::*;

verus! {

/// Counts the ids handed out so far, one counter per output kind.
#[derive(Debug, Clone, Copy, PartialEq, Eq, Structural)]
pub struct IdGenerator {
    voucher_count: u64,
    notice_count: u64,
    report_count: u64,
}

impl IdGenerator {
    pub closed spec fn spec_voucher_count(self) -> u64 {
        self.voucher_count
    }

    pub closed spec fn spec_notice_count(self) -> u64 {
        self.notice_count
    }

    pub closed spec fn spec_report_count(self) -> u64 {
        self.report_count
    }

    /// A fresh generator: nothing handed out yet, so the first id of each
    /// kind is 1.
    pub fn new() -> (g: Self)
        ensures
            g.spec_voucher_count() == 0,
            g.spec_notice_count() == 0,
            g.spec_report_count() == 0,
    {
        IdGenerator { voucher_count: 0, notice_count: 0, report_count: 0 }
    }

    /// The next voucher id: one past the previous, starting at 1.
    pub fn get_new_voucher_id(&mut self) -> (id: u64)
        requires
            old(self).spec_voucher_count() < u64::MAX,
        ensures
            id == old(self).spec_voucher_count() + 1,
            final(self).spec_voucher_count() == id,
            final(self).spec_notice_count() == old(self).spec_notice_count(),
            final(self).spec_report_count() == old(self).spec_report_count(),
    {
        self.voucher_count = self.voucher_count + 1;
        self.voucher_count
    }

    /// The next notice id: one past the previous, starting at 1.
    pub fn get_new_notice_id(&mut self) -> (id: u64)
        requires
            old(self).spec_notice_count() < u64::MAX,
        ensures
            id == old(self).spec_notice_count() + 1,
            final(self).spec_notice_count() == id,
            final(self).spec_voucher_count() == old(self).spec_voucher_count(),
            final(self).spec_report_count() == old(self).spec_report_count(),
    {
        self.notice_count = self.notice_count + 1;
        self.notice_count
    }

    /// The next report id: one past the previous, starting at 1.
    pub fn get_new_report_id(&mut self) -> (id: u64)
        requires
            old(self).spec_report_count() < u64::MAX,
        ensures
            id == old(self).spec_report_count() + 1,
            final(self).spec_report_count() == id,
            final(self).spec_voucher_count() == old(self).spec_voucher_count(),
            final(self).spec_notice_count() == old(self).spec_notice_count(),
    {
        self.report_count = self.report_count + 1;
        self.report_count
    }
}

} // verus!
