use pamcore::output::SenderMachine;
use pamcore::registry::TrMap;
use pamcore::spans::{ExternalNode, FuncNode, StackNode};
use serde_json::Value;

fn checkout_scenario() -> TrMap {
    // create(1, "checkout", "/cart"); push Func node 10 at 0; push
    // External node 11 at 100; close 11 at 300 -> 10; close 10 at 500
    // -> none. Ticks are milliseconds.
    let mut reg = TrMap::new();
    assert!(reg.set_transaction(1, "checkout".to_string(), Some("/cart".to_string())));
    let root = FuncNode::new(10, 0, "handle_checkout".to_string());
    assert!(reg.push_current(1, StackNode::Func(root)));
    let ext = ExternalNode::new(
        11,
        100,
        "api.example.com".to_string(),
        443,
        "requests".to_string(),
        "GET".to_string(),
        "/pay",
    );
    assert!(reg.push_current(1, StackNode::External(ext)));
    assert_eq!(reg.pop_current(1, 11, 300), Some(10));
    assert_eq!(reg.pop_current(1, 10, 500), None);
    reg
}

#[test]
fn end_to_end_checkout_tree() {
    let reg = checkout_scenario();
    let tx = reg.0.get(&1).unwrap();
    assert_eq!(tx.nodes_stack.len(), 1);
    match &tx.nodes_stack[0] {
        StackNode::Func(root) => {
            assert_eq!(root.duration, 500);
            assert_eq!(root.exclusive, 300);
            assert_eq!(root.childrens.len(), 1);
            match &root.childrens[0] {
                StackNode::External(child) => {
                    assert_eq!(child.duration, 200);
                    assert_eq!(child.exclusive, 200);
                }
                _ => panic!("expected an external child"),
            }
        }
        _ => panic!("root should be a function span"),
    }
}

#[test]
fn dump_is_valid_json_with_the_full_tree() {
    let reg = checkout_scenario();
    let s = reg.dump_transaction(1);
    let v: Value = serde_json::from_str(&s).expect("dump parses as JSON");
    assert_eq!(v["base_name"].as_str(), Some("checkout"));
    assert_eq!(v["path"].as_str(), Some("/cart"));
    assert_eq!(v["trace_node_count"].as_u64(), Some(2));
    let guid = v["guid"].as_str().unwrap();
    assert!(!guid.is_empty() && guid.len() <= 16);
    let root = &v["nodes_stack"][0];
    assert_eq!(root["type"].as_str(), Some("Func"));
    assert_eq!(root["node_id"].as_u64(), Some(10));
    assert_eq!(root["start_time"].as_u64(), Some(0));
    assert_eq!(root["end_time"].as_u64(), Some(500));
    assert_eq!(root["duration"].as_u64(), Some(500));
    assert_eq!(root["exclusive"].as_u64(), Some(300));
    assert_eq!(root["func_name"].as_str(), Some("handle_checkout"));
    let child = &root["childrens"][0];
    assert_eq!(child["type"].as_str(), Some("External"));
    assert_eq!(child["node_id"].as_u64(), Some(11));
    assert_eq!(child["host"].as_str(), Some("api.example.com"));
    assert_eq!(child["port"].as_u64(), Some(443));
    assert_eq!(child["method"].as_str(), Some("GET"));
    assert_eq!(child["path"].as_str(), Some("/pay"));
    assert_eq!(child["duration"].as_u64(), Some(200));
    assert_eq!(child["childrens"].as_array().map(|a| a.len()), Some(0));
}

#[test]
fn dump_unknown_transaction_is_empty() {
    let reg = TrMap::new();
    assert_eq!(reg.dump_transaction(42), "");
}

#[test]
fn dump_escapes_special_characters() {
    let mut reg = TrMap::new();
    let name = "a\"b\\c\nd\te".to_string();
    assert!(reg.set_transaction(1, name.clone(), Some("/p".to_string())));
    let s = reg.dump_transaction(1);
    let v: Value = serde_json::from_str(&s).expect("escaped dump parses as JSON");
    assert_eq!(v["base_name"].as_str(), Some(name.as_str()));
}

#[test]
fn dump_keeps_unicode_text() {
    let mut reg = TrMap::new();
    let name = "café — 東京".to_string();
    assert!(reg.set_transaction(1, name.clone(), None));
    let s = reg.dump_transaction(1);
    let v: Value = serde_json::from_str(&s).expect("unicode dump parses as JSON");
    assert_eq!(v["base_name"].as_str(), Some(name.as_str()));
    assert_eq!(v["path"].as_str(), Some(""));
}

#[test]
fn finalize_enqueues_the_same_json_as_dump() {
    let reg = checkout_scenario();
    let dumped = reg.dump_transaction(1);
    let mut reg = reg;
    let mut out = SenderMachine::new();
    assert!(reg.drop_transaction(1, &mut out));
    assert_eq!(out.queue.len(), 1);
    assert_eq!(out.queue[0], dumped);
    // finalization removed the transaction
    assert_eq!(reg.availability_transaction(1), None);
    assert_eq!(reg.dump_transaction(1), "");
}
