//! Report macros: the fixed keystroke recipes that drive the host
//! application's report generator.  Every report follows one pattern —
//! open the menu, pick the report, accept the prompt, enter the first and
//! last record of the range, and send the output to a tab-separated file.

use vstd::prelude::*;
use vstd::string::StringExecFns;
use crate::keys::{is_keys, is_settle, keys_step, settle_step, KeyMacro, KeyStep};
use crate::text::{dec_rep, u64_to_string};
use crate::SHORT_WAIT_MS;

verus! {

/// The range-and-output tail every report recipe ends with: accept the
/// prompt, enter the first record, enter the last record, and choose the
/// tab-file output.
pub open spec fn report_range_keys(starting_at: Seq<char>, ending_with: Seq<char>) -> Seq<char> {
    "{enter}"@ + starting_at + "{enter}"@ + ending_with + "{enter}t"@
}

/// Builds the range-and-output key sequence for a report.
fn range_entry_step(starting_at: &str, ending_with: &str) -> (s: KeyStep)
    ensures
        is_keys(s, report_range_keys(starting_at@, ending_with@), SHORT_WAIT_MS as int / 2),
{
    let keys = "{enter}".to_owned().concat(starting_at).concat("{enter}").concat(
        ending_with,
    ).concat("{enter}t");
    KeyStep::Keys { keys, interval_ms: SHORT_WAIT_MS / 2 }
}

/// The macro for any simple report: open the menu named by `menu` from the
/// function-key menu bar, pick `report`, then enter the record range and
/// send the output to a tab file, pausing five base units after each
/// screen-changing step.
pub fn generate_simple_report(menu: &str, report: &str, starting_at: &str, ending_with: &str) -> (m:
    KeyMacro)
    ensures
        m@.len() == 5,
        is_keys(m@[0], "{F10}"@ + menu@, 3 * SHORT_WAIT_MS),
        is_settle(m@[1], 5 * SHORT_WAIT_MS),
        is_keys(m@[2], report@ + "{enter}"@, SHORT_WAIT_MS as int / 2),
        is_settle(m@[3], 5 * SHORT_WAIT_MS),
        is_keys(m@[4], report_range_keys(starting_at@, ending_with@), SHORT_WAIT_MS as int / 2),
{
    let mut m: KeyMacro = Vec::new();
    let open_menu = "{F10}".to_owned().concat(menu);
    m.push(KeyStep::Keys { keys: open_menu, interval_ms: 3 * SHORT_WAIT_MS });
    m.push(settle_step(5 * SHORT_WAIT_MS));
    let pick = report.to_owned().concat("{enter}");
    m.push(KeyStep::Keys { keys: pick, interval_ms: SHORT_WAIT_MS / 2 });
    m.push(settle_step(5 * SHORT_WAIT_MS));
    m.push(range_entry_step(starting_at, ending_with));
    m
}

/// The macro for the inventory listing report: inventory menu, first
/// report, listing variant, then the item range.
pub fn generate_report_11(starting_sku: &str, ending_sku: &str) -> (m: KeyMacro)
    ensures
        m@.len() == 7,
        is_keys(m@[0], "{F10}1"@, 3 * SHORT_WAIT_MS),
        is_settle(m@[1], 5 * SHORT_WAIT_MS),
        is_keys(m@[2], "1{enter}"@, SHORT_WAIT_MS as int / 2),
        is_settle(m@[3], 5 * SHORT_WAIT_MS),
        is_keys(m@[4], "I"@, SHORT_WAIT_MS as int / 2),
        is_settle(m@[5], 5 * SHORT_WAIT_MS),
        is_keys(m@[6], report_range_keys(starting_sku@, ending_sku@), SHORT_WAIT_MS as int / 2),
{
    let mut m: KeyMacro = Vec::new();
    m.push(keys_step("{F10}1", 3 * SHORT_WAIT_MS));
    m.push(settle_step(5 * SHORT_WAIT_MS));
    m.push(keys_step("1{enter}", SHORT_WAIT_MS / 2));
    m.push(settle_step(5 * SHORT_WAIT_MS));
    m.push(keys_step("I", SHORT_WAIT_MS / 2));
    m.push(settle_step(5 * SHORT_WAIT_MS));
    m.push(range_entry_step(starting_sku, ending_sku));
    m
}

/// The macro for the bill detail report: billing menu, report fourteen,
/// then the bill range.
pub fn generate_report_214(starting_bill: u64, ending_bill: u64) -> (m: KeyMacro)
    ensures
        m@.len() == 5,
        is_keys(m@[0], "{F10}2"@, 3 * SHORT_WAIT_MS),
        is_settle(m@[1], 5 * SHORT_WAIT_MS),
        is_keys(m@[2], "14{enter}"@, SHORT_WAIT_MS as int / 2),
        is_settle(m@[3], 5 * SHORT_WAIT_MS),
        is_keys(
            m@[4],
            report_range_keys(dec_rep(starting_bill as nat), dec_rep(ending_bill as nat)),
            SHORT_WAIT_MS as int / 2,
        ),
{
    let mut m: KeyMacro = Vec::new();
    m.push(keys_step("{F10}2", 3 * SHORT_WAIT_MS));
    m.push(settle_step(5 * SHORT_WAIT_MS));
    m.push(keys_step("14{enter}", SHORT_WAIT_MS / 2));
    m.push(settle_step(5 * SHORT_WAIT_MS));
    let first = u64_to_string(starting_bill);
    let last = u64_to_string(ending_bill);
    m.push(range_entry_step(first.as_str(), last.as_str()));
    m
}

/// The macro for the customer invoice payments report: customer menu,
/// report twenty-three, then the invoice range.
pub fn generate_report_323(starting_invoice: u64, ending_invoice: u64) -> (m: KeyMacro)
    ensures
        m@.len() == 5,
        is_keys(m@[0], "{F10}3"@, 3 * SHORT_WAIT_MS),
        is_settle(m@[1], 5 * SHORT_WAIT_MS),
        is_keys(m@[2], "23{enter}"@, SHORT_WAIT_MS as int / 2),
        is_settle(m@[3], 5 * SHORT_WAIT_MS),
        is_keys(
            m@[4],
            report_range_keys(dec_rep(starting_invoice as nat), dec_rep(ending_invoice as nat)),
            SHORT_WAIT_MS as int / 2,
        ),
{
    let mut m: KeyMacro = Vec::new();
    m.push(keys_step("{F10}3", 3 * SHORT_WAIT_MS));
    m.push(settle_step(5 * SHORT_WAIT_MS));
    m.push(keys_step("23{enter}", SHORT_WAIT_MS / 2));
    m.push(settle_step(5 * SHORT_WAIT_MS));
    let first = u64_to_string(starting_invoice);
    let last = u64_to_string(ending_invoice);
    m.push(range_entry_step(first.as_str(), last.as_str()));
    m
}

/// The macro for the customer invoice ledger report: customer menu, report
/// eleven with its two extra prompts accepted, then the invoice range.
pub fn generate_report_311(starting_invoice: u64, ending_invoice: u64) -> (m: KeyMacro)
    ensures
        m@.len() == 5,
        is_keys(m@[0], "{F10}3"@, 3 * SHORT_WAIT_MS),
        is_settle(m@[1], 5 * SHORT_WAIT_MS),
        is_keys(m@[2], "11{enter}{enter}{enter}"@, SHORT_WAIT_MS as int / 2),
        is_settle(m@[3], 5 * SHORT_WAIT_MS),
        is_keys(
            m@[4],
            report_range_keys(dec_rep(starting_invoice as nat), dec_rep(ending_invoice as nat)),
            SHORT_WAIT_MS as int / 2,
        ),
{
    let mut m: KeyMacro = Vec::new();
    m.push(keys_step("{F10}3", 3 * SHORT_WAIT_MS));
    m.push(settle_step(5 * SHORT_WAIT_MS));
    m.push(keys_step("11{enter}{enter}{enter}", SHORT_WAIT_MS / 2));
    m.push(settle_step(5 * SHORT_WAIT_MS));
    let first = u64_to_string(starting_invoice);
    let last = u64_to_string(ending_invoice);
    m.push(range_entry_step(first.as_str(), last.as_str()));
    m
}

} // verus!
