use abc_controller::keys::KeyStep;
use abc_controller::reports::{
    generate_report_11, generate_report_214, generate_report_311, generate_report_323,
    generate_simple_report,
};

fn keys(text: &str, interval_ms: u64) -> KeyStep {
    KeyStep::Keys { keys: text.to_string(), interval_ms }
}

fn settle(ms: u64) -> KeyStep {
    KeyStep::Settle { ms }
}

#[test]
fn simple_report_follows_the_menu_pattern() {
    let m = generate_simple_report("2", "14", "1000", "2000");
    assert_eq!(
        m,
        vec![
            keys("{F10}2", 300),
            settle(500),
            keys("14{enter}", 50),
            settle(500),
            keys("{enter}1000{enter}2000{enter}t", 50),
        ]
    );
}

#[test]
fn inventory_listing_report_keys() {
    let m = generate_report_11("A100", "B999");
    assert_eq!(
        m,
        vec![
            keys("{F10}1", 300),
            settle(500),
            keys("1{enter}", 50),
            settle(500),
            keys("I", 50),
            settle(500),
            keys("{enter}A100{enter}B999{enter}t", 50),
        ]
    );
}

#[test]
fn bill_detail_report_keys() {
    let m = generate_report_214(100, 250);
    assert_eq!(
        m,
        vec![
            keys("{F10}2", 300),
            settle(500),
            keys("14{enter}", 50),
            settle(500),
            keys("{enter}100{enter}250{enter}t", 50),
        ]
    );
}

#[test]
fn invoice_payments_report_keys() {
    let m = generate_report_323(7, 7);
    assert_eq!(
        m,
        vec![
            keys("{F10}3", 300),
            settle(500),
            keys("23{enter}", 50),
            settle(500),
            keys("{enter}7{enter}7{enter}t", 50),
        ]
    );
}

#[test]
fn invoice_ledger_report_keys() {
    let m = generate_report_311(12, 9000);
    assert_eq!(
        m,
        vec![
            keys("{F10}3", 300),
            settle(500),
            keys("11{enter}{enter}{enter}", 50),
            settle(500),
            keys("{enter}12{enter}9000{enter}t", 50),
        ]
    );
}
