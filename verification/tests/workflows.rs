use abc_controller::accounts_receivable::{
    discard_new_record_macro, is_invoice_fully_paid, load_invoice, load_invoices_screen,
    open_invoices_macro, resubmit_macro, send_invoice_to_jdf,
};
use abc_controller::customer_file::{
    customer_entry_step, jdf_account_by_customer, load_customer_record, load_customer_screen,
    open_customers_macro,
};
use abc_controller::keys::KeyStep;
use abc_controller::navigate::{confirm_or_discard, send_ctrl_n};
use abc_controller::tree::{ElementNode, ElementProps, ElementRef, UiSnapshot};
use abc_controller::{ensure_abc, AbcError};

fn node(name: &str, class: &str, value: &str, subtree_end: usize) -> ElementNode {
    ElementNode {
        props: ElementProps {
            name: name.to_string(),
            class_name: class.to_string(),
            value: value.to_string(),
        },
        subtree_end,
    }
}

fn root() -> ElementRef {
    ElementRef { index: 0 }
}

fn keys(text: &str, interval_ms: u64) -> KeyStep {
    KeyStep::Keys { keys: text.to_string(), interval_ms }
}

/// An invoices screen with the full set of 39 text boxes: ordinal 0 shows
/// the invoice number, ordinal 29 the paid amount, ordinal 38 the total.
fn invoices_screen(number: &str, paid: &str, total: &str) -> UiSnapshot {
    let mut nodes = vec![node("Sales - Invoices (R) 2024", "Window", "", 40)];
    for k in 0..39usize {
        let value = match k {
            0 => number,
            29 => paid,
            38 => total,
            _ => "",
        };
        nodes.push(node("", "ThunderRT6TextBox", value, k + 2));
    }
    UiSnapshot::from_nodes(nodes).expect("well-formed")
}

fn bare_window(title: &str) -> UiSnapshot {
    UiSnapshot::from_nodes(vec![node(title, "Window", "", 1)]).unwrap()
}

fn feed(snap: &UiSnapshot, n: usize) -> Vec<UiSnapshot> {
    std::iter::repeat_with(|| snap.clone()).take(n).collect()
}

#[test]
fn fully_paid_iff_strings_exactly_equal() {
    let snap = invoices_screen("123", "150.00", "150.00");
    assert_eq!(is_invoice_fully_paid(&snap, root()), Ok(true));

    let snap = invoices_screen("123", "0.00", "150.00");
    assert_eq!(is_invoice_fully_paid(&snap, root()), Ok(false));

    // comparison is strict string equality: whitespace and case count
    let snap = invoices_screen("123", "150.00 ", "150.00");
    assert_eq!(is_invoice_fully_paid(&snap, root()), Ok(false));

    let snap = invoices_screen("123", "", "");
    assert_eq!(is_invoice_fully_paid(&snap, root()), Ok(true));
}

#[test]
fn fully_paid_missing_ordinals_report_index() {
    let snap = bare_window("Sales - Invoices (R)");
    assert_eq!(is_invoice_fully_paid(&snap, root()), Err(AbcError::FieldIndexOutOfRange(29)));
}

#[test]
fn load_invoice_types_number_into_first_text_box() {
    let snap = invoices_screen("", "", "");
    let plan = load_invoice(&snap, root(), 123).expect("text box present");
    assert_eq!(plan.target.index, 1);
    assert_eq!(plan.keys, "123{enter}");
    assert_eq!(plan.interval_ms, 100);
}

#[test]
fn load_invoice_without_text_boxes_is_not_found() {
    let snap = bare_window("Sales - Invoices (R)");
    assert_eq!(load_invoice(&snap, root(), 123), Err(AbcError::ElementNotFound));
}

#[test]
fn jdf_already_paid_sends_nothing() {
    let loaded = invoices_screen("123", "150.00", "150.00");
    let after = invoices_screen("123", "150.00", "150.00");
    let (result, trace) = send_invoice_to_jdf(&loaded, &after, root(), 123);
    assert_eq!(result, Ok(true));
    assert!(trace.is_empty());
}

#[test]
fn jdf_advanced_invoice_number_means_sent() {
    // paid empty; after the resubmission macro the visible invoice number
    // advanced to 124: the submission went through
    let loaded = invoices_screen("123", "", "150.00");
    let after = invoices_screen("124", "", "80.00");
    let (result, trace) = send_invoice_to_jdf(&loaded, &after, root(), 123);
    assert_eq!(result, Ok(true));
    assert_eq!(trace, vec![keys("{F9}7R", 300), KeyStep::Settle { ms: 2000 }]);
}

#[test]
fn jdf_unchanged_invoice_number_means_not_sent() {
    // paid empty; the visible invoice number still reads 123 after the
    // macro: the workflow must back out with the discard sequence
    let loaded = invoices_screen("123", "", "150.00");
    let after = invoices_screen("123", "", "150.00");
    let (result, trace) = send_invoice_to_jdf(&loaded, &after, root(), 123);
    assert_eq!(result, Ok(false));
    assert_eq!(
        trace,
        vec![
            keys("{F9}7R", 300),
            KeyStep::Settle { ms: 2000 },
            keys("{enter}{esc}", 300),
            KeyStep::HoldKeys {
                holds: "{ctrl}".to_string(),
                keys: "n".to_string(),
                interval_ms: 300
            },
            keys("{right}{enter}", 300),
        ]
    );
}

#[test]
fn jdf_missing_paid_control_is_fatal() {
    let loaded = bare_window("Sales - Invoices (R)");
    let after = invoices_screen("123", "", "150.00");
    let (result, trace) = send_invoice_to_jdf(&loaded, &after, root(), 123);
    assert_eq!(result, Err(AbcError::FieldIndexOutOfRange(29)));
    assert!(trace.is_empty());
}

#[test]
fn jdf_vanished_screen_after_resubmit_is_not_found() {
    let loaded = invoices_screen("123", "", "150.00");
    let after = bare_window("Desktop");
    let (result, trace) = send_invoice_to_jdf(&loaded, &after, root(), 123);
    assert_eq!(result, Err(AbcError::ElementNotFound));
    assert_eq!(trace.len(), 2);
}

#[test]
fn ensure_screen_present_sends_no_macro() {
    let present = invoices_screen("123", "", "150.00");
    let before = feed(&present, 31);
    let after = feed(&present, 31);
    let (result, trace) = load_invoices_screen(&before, &after);
    assert_eq!(result.expect("already open").index, 0);
    assert!(trace.is_empty(), "no keystrokes may be dispatched when the screen is present");
}

#[test]
fn ensure_screen_absent_sends_opening_macro_once() {
    let absent = bare_window("Desktop");
    let present = invoices_screen("123", "", "150.00");
    let before = feed(&absent, 31);
    let after = feed(&present, 31);
    let (result, trace) = load_invoices_screen(&before, &after);
    assert_eq!(result.expect("opened").index, 0);
    assert_eq!(trace, vec![keys("{F10}R", 300)]);
}

#[test]
fn ensure_screen_still_absent_fails_not_found() {
    let absent = bare_window("Desktop");
    let before = feed(&absent, 31);
    let after = feed(&absent, 31);
    let (result, trace) = load_invoices_screen(&before, &after);
    assert_eq!(result, Err(AbcError::ElementNotFound));
    assert_eq!(trace, vec![keys("{F10}R", 300)]);
}

#[test]
fn customer_screen_macro_and_query() {
    let absent = bare_window("Desktop");
    let present = bare_window("Sales - Customers (C) 2024");
    let before = feed(&absent, 31);
    let after = feed(&present, 31);
    let (result, trace) = load_customer_screen(&before, &after);
    assert_eq!(result.expect("opened").index, 0);
    assert_eq!(trace, vec![keys("{F10}C", 300)]);
    assert_eq!(open_customers_macro(), vec![keys("{F10}C", 300)]);
    assert_eq!(open_invoices_macro(), vec![keys("{F10}R", 300)]);
}

#[test]
fn ctrl_n_without_dialog_sends_nothing_more() {
    let quiet = bare_window("Sales - Invoices (R)");
    let trace = send_ctrl_n(&feed(&quiet, 2), false);
    assert_eq!(
        trace,
        vec![
            KeyStep::HoldKeys {
                holds: "{Ctrl}".to_string(),
                keys: "N".to_string(),
                interval_ms: 100
            },
            KeyStep::Settle { ms: 100 },
        ]
    );
}

#[test]
fn ctrl_n_with_dialog_saves_or_discards() {
    let prompt = bare_window("Save changes before proceeding?");
    let trace = send_ctrl_n(&feed(&prompt, 2), true);
    assert_eq!(trace.len(), 3);
    assert_eq!(trace[2], keys("{enter}", 100));

    let trace = send_ctrl_n(&feed(&prompt, 2), false);
    assert_eq!(trace.len(), 3);
    assert_eq!(trace[2], keys("{right}{enter}", 100));
}

#[test]
fn confirm_or_discard_decision_table() {
    assert_eq!(confirm_or_discard(None, true), None);
    assert_eq!(confirm_or_discard(None, false), None);
    assert_eq!(confirm_or_discard(Some(root()), true), Some(keys("{enter}", 100)));
    assert_eq!(confirm_or_discard(Some(root()), false), Some(keys("{right}{enter}", 100)));
}

#[test]
fn ensure_abc_finds_running_client() {
    let desktop = UiSnapshot::from_nodes(vec![
        node("Desktop", "Pane", "", 3),
        node("Some other program", "Window", "", 2),
        node("ABC Accounting Client 4.0", "Window", "", 3),
    ])
    .unwrap();
    let found = ensure_abc(&feed(&desktop, 31)).expect("client open");
    assert_eq!(found.index, 2);

    let bare = bare_window("Some other program");
    assert_eq!(ensure_abc(&feed(&bare, 31)), Err(AbcError::ElementNotFound));
}

/// A customers screen with 29 text boxes; ordinal 28 shows the financing
/// account identifier.
fn customers_screen(account: &str) -> UiSnapshot {
    let mut nodes = vec![node("Sales - Customers (C) 2024", "Window", "", 30)];
    for k in 0..29usize {
        let value = if k == 28 { account } else { "" };
        nodes.push(node("", "ThunderRT6TextBox", value, k + 2));
    }
    UiSnapshot::from_nodes(nodes).expect("well-formed")
}

#[test]
fn jdf_account_read_from_fixed_ordinal() {
    let snap = customers_screen("JD-4471");
    assert_eq!(jdf_account_by_customer(&snap, root()), Ok("JD-4471".to_string()));
    // an empty displayed value means no account, and is not an error
    let snap = customers_screen("");
    assert_eq!(jdf_account_by_customer(&snap, root()), Ok(String::new()));
}

#[test]
fn jdf_account_missing_field_is_empty_not_error() {
    let snap = bare_window("Sales - Customers (C)");
    assert_eq!(jdf_account_by_customer(&snap, root()), Ok(String::new()));
}

#[test]
fn customer_record_load_and_entry_keys() {
    let snap = customers_screen("");
    let plan = load_customer_record(&snap, root(), "DOEJO 0").expect("text box present");
    assert_eq!(plan.target.index, 1);
    assert_eq!(plan.keys, "DOEJO 0{enter}");
    assert_eq!(customer_entry_step("DOEJO 0"), keys("{up}DOEJO 0{enter}", 25));

    let empty = bare_window("Sales - Customers (C)");
    assert_eq!(load_customer_record(&empty, root(), "DOEJO 0"), Err(AbcError::ElementNotFound));
}

#[test]
fn fixed_macros_spell_their_key_sequences() {
    assert_eq!(resubmit_macro(), vec![keys("{F9}7R", 300), KeyStep::Settle { ms: 2000 }]);
    assert_eq!(
        discard_new_record_macro(),
        vec![
            keys("{enter}{esc}", 300),
            KeyStep::HoldKeys {
                holds: "{ctrl}".to_string(),
                keys: "n".to_string(),
                interval_ms: 300
            },
            keys("{right}{enter}", 300),
        ]
    );
}
