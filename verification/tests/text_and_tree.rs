use abc_controller::text::{str_contains, u64_to_string};
use abc_controller::tree::{ElementNode, ElementProps, UiSnapshot};

fn props(name: &str, class: &str, value: &str) -> ElementProps {
    ElementProps { name: name.to_string(), class_name: class.to_string(), value: value.to_string() }
}

fn node(name: &str, class: &str, value: &str, subtree_end: usize) -> ElementNode {
    ElementNode { props: props(name, class, value), subtree_end }
}

#[test]
fn decimal_rendering_exact_values() {
    assert_eq!(u64_to_string(0), "0");
    assert_eq!(u64_to_string(7), "7");
    assert_eq!(u64_to_string(10), "10");
    assert_eq!(u64_to_string(123), "123");
    assert_eq!(u64_to_string(4070), "4070");
    assert_eq!(u64_to_string(u64::MAX), "18446744073709551615");
}

#[test]
fn substring_search_basic() {
    assert!(str_contains("Sales - Invoices (R)", "Invoices (R)"));
    assert!(str_contains("abc", ""));
    assert!(str_contains("", ""));
    assert!(!str_contains("", "a"));
    assert!(str_contains("aaab", "aab"));
    assert!(!str_contains("aaab", "abb"));
    assert!(str_contains("x", "x"));
    assert!(!str_contains("Sales - Customers (C)", "Invoices"));
}

#[test]
fn substring_search_is_case_sensitive() {
    assert!(!str_contains("ABC Accounting Client", "abc accounting"));
    assert!(str_contains("ABC Accounting Client", "ABC Accounting"));
}

#[test]
fn snapshot_accepts_well_formed_forest() {
    let nodes = vec![
        node("root", "Window", "", 4),
        node("child a", "Pane", "", 3),
        node("leaf", "Text", "v", 3),
        node("child b", "Text", "w", 4),
    ];
    let snap = UiSnapshot::from_nodes(nodes).expect("forest should be accepted");
    assert_eq!(snap.len(), 4);
    assert_eq!(snap.subtree_end(0), 4);
    assert_eq!(snap.props(2).value, "v");
}

#[test]
fn snapshot_rejects_subtree_past_end() {
    let nodes = vec![node("root", "Window", "", 2)];
    assert!(UiSnapshot::from_nodes(nodes).is_none());
}

#[test]
fn snapshot_rejects_empty_subtree() {
    let nodes = vec![node("root", "Window", "", 0)];
    assert!(UiSnapshot::from_nodes(nodes).is_none());
}

#[test]
fn snapshot_rejects_crossing_subtrees() {
    // the second node's subtree would end past its parent's
    let nodes = vec![
        node("root", "Window", "", 2),
        node("child", "Pane", "", 3),
        node("other", "Pane", "", 3),
    ];
    assert!(UiSnapshot::from_nodes(nodes).is_none());
}

#[test]
fn render_tree_indents_by_depth() {
    let nodes = vec![
        node("root", "Window", "", 4),
        node("child a", "Pane", "", 3),
        node("leaf", "Text", "v", 3),
        node("child b", "Text", "w", 4),
    ];
    let snap = UiSnapshot::from_nodes(nodes).unwrap();
    let lines = abc_controller::render_tree(&snap);
    assert_eq!(lines.len(), 4);
    assert_eq!(lines[0], "classname: 'Window', name: 'root', value: ''");
    assert_eq!(lines[1], " classname: 'Pane', name: 'child a', value: ''");
    assert_eq!(lines[2], "  classname: 'Text', name: 'leaf', value: 'v'");
    assert_eq!(lines[3], " classname: 'Text', name: 'child b', value: 'w'");
}

#[test]
fn element_line_formats_one_element() {
    let p = props("a name", "AClass", "a value");
    assert_eq!(
        abc_controller::element_line(&p, 2),
        "  classname: 'AClass', name: 'a name', value: 'a value'"
    );
}
