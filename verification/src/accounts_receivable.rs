//! The Accounts Receivable screen and the invoice settlement workflow.
//!
//! An invoice is loaded by typing its number into the first text box of the
//! invoices screen.  Whether it is fully paid is decided by strict string
//! equality of the displayed "paid" and "total" fields, both addressed by
//! fixed ordinals.  Resubmission to the financing provider is attempted only
//! when the "paid" field is empty, and its success is inferred — the host
//! application gives no acknowledgment — from whether the displayed invoice
//! number advanced past the one that was submitted.

use vstd::prelude::*;
use crate::fields::{field_positions, field_value, read_field, write_field};
use crate::keys::{append_steps, hold_keys_step, is_hold_keys, is_keys, is_settle, keys_step,
    settle_step, FieldEntry, KeyMacro};
use crate::locator::{feed_finds, feed_first_found, feed_wf, POLL_INTERVAL_MS};
use crate::navigate::ensure_screen;
use crate::query::{ClassPredView, Filter, NamePredView, Query, DEFAULT_TIMEOUT_MS};
use crate::text::{dec_rep, u64_to_string};
use crate::tree::{root_ref, ElementRef, UiSnapshot};
use crate::AbcError;
use crate::SHORT_WAIT_MS;
use crate::TEXT_BOX_CLASS;

verus! {

/// The fixed ordinal, among the text boxes of the invoices screen, of the
/// field that displays the amount already paid.
pub const PAID_FIELD_INDEX: usize = 29;

/// The fixed ordinal of the field that displays the invoice total.
pub const TOTAL_FIELD_INDEX: usize = 38;

/// The title fragment that identifies the invoices screen among the open
/// windows of the host application.
pub const INVOICES_SCREEN_TITLE: &'static str = "Sales - Invoices (R)";

/// The filter that locates the invoices screen.
pub open spec fn invoices_screen_filter() -> Filter {
    Filter {
        name: NamePredView::Contains(INVOICES_SCREEN_TITLE@),
        class: ClassPredView::AnyClass,
    }
}

/// The query that locates the invoices screen, with the default timeout.
pub fn invoices_screen_query() -> (q: Query)
    ensures
        q.filter() == invoices_screen_filter(),
        q.timeout_ms == DEFAULT_TIMEOUT_MS,
{
    Query::new().contains_name(INVOICES_SCREEN_TITLE.to_owned())
}

/// The keystroke macro that opens the invoices screen from the host
/// application's main menu.
pub fn open_invoices_macro() -> (m: KeyMacro)
    ensures
        m@.len() == 1,
        is_keys(m@[0], "{F10}R"@, 3 * SHORT_WAIT_MS),
{
    let mut m: KeyMacro = Vec::new();
    m.push(keys_step("{F10}R", 3 * SHORT_WAIT_MS));
    m
}

/// Ensures the invoices screen is visible and returns its element: if it is
/// already present nothing is sent, otherwise the opening macro is
/// dispatched and the screen located again.  `before` and `after` are what
/// the tree shows at each poll tick of the two locate phases; the returned
/// macro is every step actually dispatched.
pub fn load_invoices_screen(before: &Vec<UiSnapshot>, after: &Vec<UiSnapshot>) -> (r: (Result<
    ElementRef,
    AbcError,
>, KeyMacro))
    requires
        feed_wf(before@, root_ref()),
        feed_wf(after@, root_ref()),
        before@.len() * POLL_INTERVAL_MS >= DEFAULT_TIMEOUT_MS + POLL_INTERVAL_MS,
        after@.len() * POLL_INTERVAL_MS >= DEFAULT_TIMEOUT_MS + POLL_INTERVAL_MS,
    ensures
        feed_finds(before@, root_ref(), invoices_screen_filter(), DEFAULT_TIMEOUT_MS) ==> {
            &&& r.1@.len() == 0
            &&& r.0 matches Ok(e) && feed_first_found(
                before@,
                root_ref(),
                invoices_screen_filter(),
                e,
            )
        },
        !feed_finds(before@, root_ref(), invoices_screen_filter(), DEFAULT_TIMEOUT_MS) ==> {
            &&& r.1@.len() == 1 && is_keys(r.1@[0], "{F10}R"@, 3 * SHORT_WAIT_MS)
            &&& (r.0 is Ok <==> feed_finds(
                after@,
                root_ref(),
                invoices_screen_filter(),
                DEFAULT_TIMEOUT_MS,
            ))
            &&& (r.0 matches Ok(e) ==> feed_first_found(
                after@,
                root_ref(),
                invoices_screen_filter(),
                e,
            ))
            &&& (r.0 is Err ==> r.0 == Err::<ElementRef, AbcError>(AbcError::ElementNotFound))
        },
{
    let q = invoices_screen_query();
    let opening = open_invoices_macro();
    ensure_screen(before, after, ElementRef { index: 0 }, &q, &opening)
}

/// Plans the load of the invoice numbered `invoice_num` into the invoices
/// screen: click the first text box of the screen and type the decimal
/// invoice number followed by the confirmation key.  Fails with
/// `ElementNotFound` exactly when the screen shows no text box at all.
/// Nothing verifies that the intended record actually loaded; callers that
/// need certainty must read the field back.
pub fn load_invoice(snap: &UiSnapshot, invoices_window: ElementRef, invoice_num: u64) -> (r:
    Result<FieldEntry, AbcError>)
    requires
        snap.wf(),
        invoices_window.index < snap@.len(),
    ensures
        field_positions(*snap, invoices_window, TEXT_BOX_CLASS@).len() > 0 ==> (r matches Ok(w)
            && w.target.index == field_positions(*snap, invoices_window, TEXT_BOX_CLASS@)[0]
            && w.keys@ == dec_rep(invoice_num as nat) + "{enter}"@ && w.interval_ms
            == SHORT_WAIT_MS),
        field_positions(*snap, invoices_window, TEXT_BOX_CLASS@).len() == 0 ==> r == Err::<
            FieldEntry,
            AbcError,
        >(AbcError::ElementNotFound),
{
    let text = u64_to_string(invoice_num);
    match write_field(snap, invoices_window, TEXT_BOX_CLASS, 0, text.as_str()) {
        Ok(w) => Ok(w),
        Err(_) => Err(AbcError::ElementNotFound),
    }
}

/// Decides whether the loaded invoice is fully paid: reads the fields at
/// the fixed "paid" and "total" ordinals and compares the two displayed
/// strings byte for byte — a deliberate simplification that mirrors the
/// host application's own formatting, so `"0.00"` differs from `"150.00"`
/// and any case or whitespace difference counts as not equal.  `snap` is
/// the invoices screen as it shows after the invoice was loaded.
pub fn is_invoice_fully_paid(snap: &UiSnapshot, invoices_window: ElementRef) -> (r: Result<
    bool,
    AbcError,
>)
    requires
        snap.wf(),
        invoices_window.index < snap@.len(),
    ensures
        field_positions(*snap, invoices_window, TEXT_BOX_CLASS@).len() > TOTAL_FIELD_INDEX ==> (
        r matches Ok(b) && (b <==> field_value(
            *snap,
            invoices_window,
            TEXT_BOX_CLASS@,
            PAID_FIELD_INDEX as int,
        ) == field_value(*snap, invoices_window, TEXT_BOX_CLASS@, TOTAL_FIELD_INDEX as int))),
        field_positions(*snap, invoices_window, TEXT_BOX_CLASS@).len() <= PAID_FIELD_INDEX ==> r
            == Err::<bool, AbcError>(AbcError::FieldIndexOutOfRange(PAID_FIELD_INDEX)),
        PAID_FIELD_INDEX < field_positions(*snap, invoices_window, TEXT_BOX_CLASS@).len()
            <= TOTAL_FIELD_INDEX ==> r == Err::<bool, AbcError>(
            AbcError::FieldIndexOutOfRange(TOTAL_FIELD_INDEX),
        ),
{
    let paid = match read_field(snap, invoices_window, TEXT_BOX_CLASS, PAID_FIELD_INDEX) {
        Ok(v) => v,
        Err(e) => {
            return Err(e);
        },
    };
    let total = match read_field(snap, invoices_window, TEXT_BOX_CLASS, TOTAL_FIELD_INDEX) {
        Ok(v) => v,
        Err(e) => {
            return Err(e);
        },
    };
    Ok(paid == total)
}

/// The keystroke macro that resubmits the loaded invoice to the financing
/// provider, followed by the long settle the host application needs before
/// the result can be observed.
pub fn resubmit_macro() -> (m: KeyMacro)
    ensures
        m@.len() == 2,
        is_keys(m@[0], "{F9}7R"@, 3 * SHORT_WAIT_MS),
        is_settle(m@[1], 20 * SHORT_WAIT_MS),
{
    let mut m: KeyMacro = Vec::new();
    m.push(keys_step("{F9}7R", 3 * SHORT_WAIT_MS));
    m.push(settle_step(20 * SHORT_WAIT_MS));
    m
}

/// The keystroke macro that backs out of a failed resubmission:
/// acknowledge and escape the pending state, then start a new record,
/// discarding changes.
pub fn discard_new_record_macro() -> (m: KeyMacro)
    ensures
        m@.len() == 3,
        is_keys(m@[0], "{enter}{esc}"@, 3 * SHORT_WAIT_MS),
        is_hold_keys(m@[1], "{ctrl}"@, "n"@, 3 * SHORT_WAIT_MS),
        is_keys(m@[2], "{right}{enter}"@, 3 * SHORT_WAIT_MS),
{
    let mut m: KeyMacro = Vec::new();
    m.push(keys_step("{enter}{esc}", 3 * SHORT_WAIT_MS));
    m.push(hold_keys_step("{ctrl}", "n", 3 * SHORT_WAIT_MS));
    m.push(keys_step("{right}{enter}", 3 * SHORT_WAIT_MS));
    m
}

/// Decides whether a settlement attempt is needed at all: the "paid"
/// field being empty means no payment was posted, so the invoice still has
/// to be resubmitted; any non-empty value means it was already sent.
pub fn invoice_resubmission_needed(paid: &String) -> (r: bool)
    ensures
        r == (paid@.len() == 0),
{
    paid.as_str().is_empty()
}

/// The single seam of the engine's blind success inference: the host
/// application acknowledges nothing, so a resubmission counts as accepted
/// exactly when the invoice number displayed afterwards is no longer the
/// one that was submitted (the host application advanced past it).
pub fn resubmission_went_through(readback: &String, invoice_num: u64) -> (r: bool)
    ensures
        r == (readback@ != dec_rep(invoice_num as nat)),
{
    let typed = u64_to_string(invoice_num);
    !(typed == *readback)
}

/// The settlement attempt for the invoice numbered `invoice_num`, after it
/// has been loaded.  If the "paid" field is non-empty the invoice was
/// already sent: nothing more is dispatched and the result is `Ok(true)`.
/// If it is empty, the resubmission macro is dispatched; the host
/// application gives no acknowledgment, so success is inferred from the
/// first text box afterwards: if it still shows the submitted invoice
/// number, the submission did not go through — the back-out macro is
/// dispatched and the result is `Ok(false)`; if it advanced to a different
/// value, the result is `Ok(true)`.  `loaded` is the screen after the load;
/// `after_resubmit` is the screen after the resubmission macro and settle.
/// The returned macro is every step actually dispatched.
pub fn send_invoice_to_jdf(
    loaded: &UiSnapshot,
    after_resubmit: &UiSnapshot,
    invoices_window: ElementRef,
    invoice_num: u64,
) -> (r: (Result<bool, AbcError>, KeyMacro))
    requires
        loaded.wf(),
        after_resubmit.wf(),
        invoices_window.index < loaded@.len(),
        invoices_window.index < after_resubmit@.len(),
    ensures
        ({
            let ps = field_positions(*loaded, invoices_window, TEXT_BOX_CLASS@);
            let paid = field_value(*loaded, invoices_window, TEXT_BOX_CLASS@, PAID_FIELD_INDEX as int);
            let ps_after = field_positions(*after_resubmit, invoices_window, TEXT_BOX_CLASS@);
            let readback = field_value(*after_resubmit, invoices_window, TEXT_BOX_CLASS@, 0);
            &&& ps.len() <= PAID_FIELD_INDEX ==> r.0 == Err::<bool, AbcError>(
                AbcError::FieldIndexOutOfRange(PAID_FIELD_INDEX),
            ) && r.1@.len() == 0
            &&& ps.len() > PAID_FIELD_INDEX && paid.len() != 0 ==> r.0 == Ok::<bool, AbcError>(
                true,
            ) && r.1@.len() == 0
            &&& ps.len() > PAID_FIELD_INDEX && paid.len() == 0 ==> {
                &&& r.1@.len() >= 2
                &&& is_keys(r.1@[0], "{F9}7R"@, 3 * SHORT_WAIT_MS)
                &&& is_settle(r.1@[1], 20 * SHORT_WAIT_MS)
                &&& ps_after.len() == 0 ==> r.0 == Err::<bool, AbcError>(
                    AbcError::ElementNotFound,
                ) && r.1@.len() == 2
                &&& ps_after.len() > 0 && readback == dec_rep(invoice_num as nat) ==> {
                    &&& r.0 == Ok::<bool, AbcError>(false)
                    &&& r.1@.len() == 5
                    &&& is_keys(r.1@[2], "{enter}{esc}"@, 3 * SHORT_WAIT_MS)
                    &&& is_hold_keys(r.1@[3], "{ctrl}"@, "n"@, 3 * SHORT_WAIT_MS)
                    &&& is_keys(r.1@[4], "{right}{enter}"@, 3 * SHORT_WAIT_MS)
                }
                &&& ps_after.len() > 0 && readback != dec_rep(invoice_num as nat) ==> r.0 == Ok::<
                    bool,
                    AbcError,
                >(true) && r.1@.len() == 2
            }
        }),
{
    let mut trace: KeyMacro = Vec::new();
    let paid = match read_field(loaded, invoices_window, TEXT_BOX_CLASS, PAID_FIELD_INDEX) {
        Ok(v) => v,
        Err(e) => {
            return (Err(e), trace);
        },
    };
    if !invoice_resubmission_needed(&paid) {
        return (Ok(true), trace);
    }
    let resubmit = resubmit_macro();
    append_steps(&mut trace, &resubmit);
    let readback = match read_field(after_resubmit, invoices_window, TEXT_BOX_CLASS, 0) {
        Ok(v) => v,
        Err(_) => {
            return (Err(AbcError::ElementNotFound), trace);
        },
    };
    if !resubmission_went_through(&readback, invoice_num) {
        let back_out = discard_new_record_macro();
        append_steps(&mut trace, &back_out);
        return (Ok(false), trace);
    }
    (Ok(true), trace)
}

} // verus!
