use vstd::prelude::*;
use vstd::string::StringExecFns;

use crate::decimal::{decimal_digits, push_decimal};

verus! {

/// The entry acknowledging audit number `n` of transaction `tx_hash` for
/// `amount`: `Audit #{n} Recorded: {tx_hash} - Amount: {amount}`.
pub open spec fn audit_entry(n: nat, tx_hash: Seq<char>, amount: Seq<char>) -> Seq<char> {
    "Audit #"@ + decimal_digits(n) + " Recorded: "@ + tx_hash + " - Amount: "@ + amount
}

/// A counter of logged transactions.
pub struct AuditLog {
    total_audits: u64,
}

impl View for AuditLog {
    type V = nat;

    /// The number of transactions logged so far.
    closed spec fn view(&self) -> nat {
        self.total_audits as nat
    }
}

impl AuditLog {
    /// A log with nothing recorded yet.
    pub fn new() -> (r: AuditLog)
        ensures
            r@ == 0,
    {
        AuditLog { total_audits: 0 }
    }

    /// Records one more transaction and returns its entry, numbered by the
    /// new count. Both strings are echoed verbatim.
    pub fn log_transaction(&mut self, tx_hash: String, amount: String) -> (r: String)
        requires
            old(self)@ < u64::MAX,
        ensures
            final(self)@ == old(self)@ + 1,
            r@ == audit_entry(final(self)@, tx_hash@, amount@),
    {
        self.total_audits = self.total_audits + 1;
        let mut out = String::from_str("Audit #");
        push_decimal(&mut out, self.total_audits);
        out.append(" Recorded: ");
        out.append(tx_hash.as_str());
        out.append(" - Amount: ");
        out.append(amount.as_str());
        out
    }

    /// The number of transactions logged so far.
    pub fn get_total_audits(&self) -> (r: u64)
        ensures
            r == self@,
    {
        self.total_audits
    }
}

} // verus!
