//! The Customers screen: loading a customer record and reading the
//! financing account identifier from its fixed ordinal field.

use vstd::prelude::*;
use vstd::string::StringExecFns;
use crate::fields::{field_positions, field_value, read_field, write_field};
use crate::keys::{is_keys, keys_step, FieldEntry, KeyMacro, KeyStep};
use crate::locator::{feed_finds, feed_first_found, feed_wf, POLL_INTERVAL_MS};
use crate::navigate::ensure_screen;
use crate::query::{ClassPredView, Filter, NamePredView, Query, DEFAULT_TIMEOUT_MS};
use crate::tree::{root_ref, ElementRef, UiSnapshot};
use crate::AbcError;
use crate::SHORT_WAIT_MS;
use crate::TEXT_BOX_CLASS;

verus! {

/// The fixed ordinal, among the text boxes of the customers screen, of the
/// field that displays the customer's financing account identifier.
pub const JDF_ACCOUNT_FIELD_INDEX: usize = 28;

/// The title fragment that identifies the customers screen.
pub const CUSTOMERS_SCREEN_TITLE: &'static str = "Sales - Customers (C)";

/// The filter that locates the customers screen.
pub open spec fn customers_screen_filter() -> Filter {
    Filter {
        name: NamePredView::Contains(CUSTOMERS_SCREEN_TITLE@),
        class: ClassPredView::AnyClass,
    }
}

/// The query that locates the customers screen, with the default timeout.
pub fn customers_screen_query() -> (q: Query)
    ensures
        q.filter() == customers_screen_filter(),
        q.timeout_ms == DEFAULT_TIMEOUT_MS,
{
    Query::new().contains_name(CUSTOMERS_SCREEN_TITLE.to_owned())
}

/// The keystroke macro that opens the customers screen from the host
/// application's main menu.
pub fn open_customers_macro() -> (m: KeyMacro)
    ensures
        m@.len() == 1,
        is_keys(m@[0], "{F10}C"@, 3 * SHORT_WAIT_MS),
{
    let mut m: KeyMacro = Vec::new();
    m.push(keys_step("{F10}C", 3 * SHORT_WAIT_MS));
    m
}

/// Ensures the customers screen is visible and returns its element: if it
/// is already present nothing is sent, otherwise the opening macro is
/// dispatched and the screen located again.  `before` and `after` are what
/// the tree shows at each poll tick of the two locate phases; the returned
/// macro is every step actually dispatched.
pub fn load_customer_screen(before: &Vec<UiSnapshot>, after: &Vec<UiSnapshot>) -> (r: (Result<
    ElementRef,
    AbcError,
>, KeyMacro))
    requires
        feed_wf(before@, root_ref()),
        feed_wf(after@, root_ref()),
        before@.len() * POLL_INTERVAL_MS >= DEFAULT_TIMEOUT_MS + POLL_INTERVAL_MS,
        after@.len() * POLL_INTERVAL_MS >= DEFAULT_TIMEOUT_MS + POLL_INTERVAL_MS,
    ensures
        feed_finds(before@, root_ref(), customers_screen_filter(), DEFAULT_TIMEOUT_MS) ==> {
            &&& r.1@.len() == 0
            &&& r.0 matches Ok(e) && feed_first_found(
                before@,
                root_ref(),
                customers_screen_filter(),
                e,
            )
        },
        !feed_finds(before@, root_ref(), customers_screen_filter(), DEFAULT_TIMEOUT_MS) ==> {
            &&& r.1@.len() == 1 && is_keys(r.1@[0], "{F10}C"@, 3 * SHORT_WAIT_MS)
            &&& (r.0 is Ok <==> feed_finds(
                after@,
                root_ref(),
                customers_screen_filter(),
                DEFAULT_TIMEOUT_MS,
            ))
            &&& (r.0 matches Ok(e) ==> feed_first_found(
                after@,
                root_ref(),
                customers_screen_filter(),
                e,
            ))
            &&& (r.0 is Err ==> r.0 == Err::<ElementRef, AbcError>(AbcError::ElementNotFound))
        },
{
    let q = customers_screen_query();
    let opening = open_customers_macro();
    ensure_screen(before, after, ElementRef { index: 0 }, &q, &opening)
}

/// The keystroke that selects the customer identified by `customer_code`
/// on the customers screen: step up to the code field, type the code, and
/// confirm.  Sent with a quarter of the base interval — this entry is
/// cheap for the host application to process.
pub fn customer_entry_step(customer_code: &str) -> (s: KeyStep)
    ensures
        is_keys(s, "{up}"@ + customer_code@ + "{enter}"@, SHORT_WAIT_MS as int / 4),
{
    let keys = "{up}".to_owned().concat(customer_code).concat("{enter}");
    KeyStep::Keys { keys, interval_ms: SHORT_WAIT_MS / 4 }
}

/// Reads the customer's financing account identifier from its fixed
/// ordinal field.  `snap` is the customers screen after the customer entry
/// was sent and the screen settled.  A missing field means the record
/// carries no account: the result is the empty string, not an error — and
/// an empty displayed value likewise means no account is on file.
pub fn jdf_account_by_customer(snap: &UiSnapshot, customer_screen: ElementRef) -> (r: Result<
    String,
    AbcError,
>)
    requires
        snap.wf(),
        customer_screen.index < snap@.len(),
    ensures
        field_positions(*snap, customer_screen, TEXT_BOX_CLASS@).len() > JDF_ACCOUNT_FIELD_INDEX
            ==> (r matches Ok(v) && v@ == field_value(
            *snap,
            customer_screen,
            TEXT_BOX_CLASS@,
            JDF_ACCOUNT_FIELD_INDEX as int,
        )),
        field_positions(*snap, customer_screen, TEXT_BOX_CLASS@).len() <= JDF_ACCOUNT_FIELD_INDEX
            ==> (r matches Ok(v) && v@.len() == 0),
{
    match read_field(snap, customer_screen, TEXT_BOX_CLASS, JDF_ACCOUNT_FIELD_INDEX) {
        Ok(v) => Ok(v),
        Err(_) => Ok(String::new()),
    }
}

/// Plans the load of the customer record identified by `customer_code`:
/// click the first text box of the customers screen and type the code
/// followed by the confirmation key.  Fails with `ElementNotFound` exactly
/// when the screen shows no text box at all.
pub fn load_customer_record(snap: &UiSnapshot, customer_screen: ElementRef, customer_code: &str) -> (r:
    Result<FieldEntry, AbcError>)
    requires
        snap.wf(),
        customer_screen.index < snap@.len(),
    ensures
        field_positions(*snap, customer_screen, TEXT_BOX_CLASS@).len() > 0 ==> (r matches Ok(w)
            && w.target.index == field_positions(*snap, customer_screen, TEXT_BOX_CLASS@)[0]
            && w.keys@ == customer_code@ + "{enter}"@ && w.interval_ms == SHORT_WAIT_MS),
        field_positions(*snap, customer_screen, TEXT_BOX_CLASS@).len() == 0 ==> r == Err::<
            FieldEntry,
            AbcError,
        >(AbcError::ElementNotFound),
{
    match write_field(snap, customer_screen, TEXT_BOX_CLASS, 0, customer_code) {
        Ok(w) => Ok(w),
        Err(_) => Err(AbcError::ElementNotFound),
    }
}

} // verus!
