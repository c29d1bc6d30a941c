//! Journals.

use vstd::prelude::*;

verus! {

/// The kind of transaction a journal was made for.
#[derive(Clone, Copy, Debug, PartialEq, Eq, Structural)]
pub enum JournalSourceType {
    Accrec,
    Accpay,
    Accreccredit,
    Accpaycredit,
    Accrecpayment,
    Accpaypayment,
    Arcreditpayment,
    Apcreditpayment,
    Cashrec,
    Cashpaid,
    Transfer,
    Arprepayment,
    Apprepayment,
    Aroverpayment,
    Apoverpayment,
    Expclaim,
    Exppayment,
    Manjournal,
    Payslip,
    Wagepayable,
    Integratedpayrollpe,
    Integratedpayrollpt,
    Externalspendmoney,
    Integratedpayrollptpayment,
    Integratedpayrollcn,
}

} // verus!
