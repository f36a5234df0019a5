use pamcore::output::SenderMachine;
use pamcore::registry::TrMap;
use pamcore::spans::{CacheNode, DatabaseNode, ExternalNode, FuncNode, StackNode};

fn func(node_id: u64, start: u64) -> StackNode {
    StackNode::Func(FuncNode::new(node_id, start, "f".to_string()))
}

#[test]
fn create_then_exists() {
    let mut reg = TrMap::new();
    assert!(reg.set_transaction(1, "tx".to_string(), None));
    assert_eq!(reg.availability_transaction(1), Some(1));
    assert_eq!(reg.availability_transaction(2), None);
}

#[test]
fn duplicate_create_rejected_and_state_kept() {
    let mut reg = TrMap::new();
    assert!(reg.set_transaction(7, "first".to_string(), Some("/a".to_string())));
    let guid_before = reg.0.get(&7).unwrap().guid.clone();
    assert!(!reg.set_transaction(7, "second".to_string(), Some("/b".to_string())));
    let tx = reg.0.get(&7).unwrap();
    assert_eq!(tx.base_name, "first");
    assert_eq!(tx.path, "/a");
    assert_eq!(tx.guid, guid_before);
}

#[test]
fn fresh_transaction_guid_is_hex() {
    let mut reg = TrMap::new();
    assert!(reg.set_transaction(1, "tx".to_string(), None));
    let guid = &reg.0.get(&1).unwrap().guid;
    assert!(!guid.is_empty() && guid.len() <= 16);
    assert!(guid.chars().all(|c| c.is_ascii_hexdigit() && !c.is_ascii_uppercase()));
}

#[test]
fn default_path_is_empty() {
    let mut reg = TrMap::new();
    assert!(reg.set_transaction(1, "tx".to_string(), None));
    assert_eq!(reg.0.get(&1).unwrap().path, "");
}

#[test]
fn push_against_unknown_transaction_fails() {
    let mut reg = TrMap::new();
    assert!(!reg.push_current(99, func(1, 0)));
}

#[test]
fn pop_against_unknown_transaction_returns_none() {
    let mut reg = TrMap::new();
    assert_eq!(reg.pop_current(99, 1, 10), None);
}

#[test]
fn pop_on_empty_stack_returns_none() {
    let mut reg = TrMap::new();
    assert!(reg.set_transaction(1, "tx".to_string(), None));
    assert_eq!(reg.pop_current(1, 1, 10), None);
    assert_eq!(reg.0.get(&1).unwrap().trace_node_count, 0);
}

#[test]
fn root_close_with_end_before_start_clamps_duration_to_zero() {
    let mut reg = TrMap::new();
    assert!(reg.set_transaction(1, "tx".to_string(), None));
    assert!(reg.push_current(1, func(10, 100)));
    assert_eq!(reg.pop_current(1, 10, 50), None);
    let tx = reg.0.get(&1).unwrap();
    assert_eq!(tx.nodes_stack.len(), 1);
    match &tx.nodes_stack[0] {
        StackNode::Func(f) => {
            assert_eq!(f.end_time, 100);
            assert_eq!(f.duration, 0);
            assert_eq!(f.exclusive, 0);
        }
        _ => panic!("root should be a function span"),
    }
    assert_eq!(tx.trace_node_count, 1);
}

#[test]
fn two_sequential_children_reduce_root_exclusive() {
    let mut reg = TrMap::new();
    assert!(reg.set_transaction(1, "tx".to_string(), None));
    assert!(reg.push_current(1, func(1, 0)));
    assert!(reg.push_current(1, func(2, 100)));
    assert_eq!(reg.pop_current(1, 2, 300), Some(1));
    assert!(reg.push_current(1, func(3, 400)));
    assert_eq!(reg.pop_current(1, 3, 600), Some(1));
    assert_eq!(reg.pop_current(1, 1, 1000), None);
    let tx = reg.0.get(&1).unwrap();
    match &tx.nodes_stack[0] {
        StackNode::Func(f) => {
            assert_eq!(f.duration, 1000);
            // self time = 1000 - 200 - 200
            assert_eq!(f.exclusive, 600);
            assert_eq!(f.childrens.len(), 2);
        }
        _ => panic!("root should be a function span"),
    }
}

#[test]
fn root_exclusive_floors_at_zero() {
    let mut reg = TrMap::new();
    assert!(reg.set_transaction(1, "tx".to_string(), None));
    assert!(reg.push_current(1, func(1, 0)));
    // a child that runs far past its parent's own window
    assert!(reg.push_current(1, func(2, 0)));
    assert_eq!(reg.pop_current(1, 2, 500), Some(1));
    assert_eq!(reg.pop_current(1, 1, 100), None);
    let tx = reg.0.get(&1).unwrap();
    match &tx.nodes_stack[0] {
        StackNode::Func(f) => {
            assert_eq!(f.duration, 100);
            assert_eq!(f.exclusive, 0);
        }
        _ => panic!("root should be a function span"),
    }
}

#[test]
fn exclusive_never_negative_for_nested_closes() {
    let mut reg = TrMap::new();
    assert!(reg.set_transaction(1, "tx".to_string(), None));
    assert!(reg.push_current(1, func(1, 0)));
    assert!(reg.push_current(1, func(2, 10)));
    assert!(reg.push_current(1, func(3, 20)));
    assert_eq!(reg.pop_current(1, 3, 500), Some(2));
    assert_eq!(reg.pop_current(1, 2, 30), Some(1));
    assert_eq!(reg.pop_current(1, 1, 40), None);
    let tx = reg.0.get(&1).unwrap();
    for n in &tx.nodes_stack {
        walk_exclusive(n);
    }
}

fn walk_exclusive(n: &StackNode) {
    let (excl, children) = match n {
        StackNode::Func(x) => (x.exclusive, &x.childrens),
        StackNode::External(x) => (x.exclusive, &x.childrens),
        StackNode::Database(x) => (x.exclusive, &x.childrens),
        StackNode::Cache(x) => (x.exclusive, &x.childrens),
    };
    assert!(excl < u64::MAX / 2);
    for c in children {
        walk_exclusive(c);
    }
}

#[test]
fn mismatched_close_discards_span_and_returns_none() {
    let mut reg = TrMap::new();
    assert!(reg.set_transaction(1, "tx".to_string(), None));
    assert!(reg.push_current(1, func(1, 0)));
    assert!(reg.push_current(1, func(2, 10)));
    // close with the wrong node id: span 2 is removed but attached nowhere
    assert_eq!(reg.pop_current(1, 99, 20), None);
    let tx = reg.0.get(&1).unwrap();
    assert_eq!(tx.nodes_stack.len(), 1);
    match &tx.nodes_stack[0] {
        StackNode::Func(f) => {
            assert_eq!(f.node_id, 1);
            assert!(f.childrens.is_empty());
            assert_eq!(f.child_sum, 0);
        }
        _ => panic!("root should be a function span"),
    }
    // the close bookkeeping still counted, and the discard is visible
    assert_eq!(tx.trace_node_count, 1);
    assert_eq!(tx.dropped_span_count, 1);
}

#[test]
fn root_close_happens_regardless_of_node_id() {
    let mut reg = TrMap::new();
    assert!(reg.set_transaction(1, "tx".to_string(), None));
    assert!(reg.push_current(1, func(10, 0)));
    // the single-element (root) branch runs its bookkeeping without a
    // node id check and keeps the root on the stack
    assert_eq!(reg.pop_current(1, 999, 40), None);
    let tx = reg.0.get(&1).unwrap();
    assert_eq!(tx.nodes_stack.len(), 1);
    match &tx.nodes_stack[0] {
        StackNode::Func(f) => assert_eq!(f.duration, 40),
        _ => panic!("root should be a function span"),
    }
    assert_eq!(tx.trace_node_count, 1);
    assert_eq!(tx.dropped_span_count, 0);
}

#[test]
fn matched_closes_do_not_count_as_dropped() {
    let mut reg = TrMap::new();
    assert!(reg.set_transaction(1, "tx".to_string(), None));
    assert!(reg.push_current(1, func(1, 0)));
    assert!(reg.push_current(1, func(2, 10)));
    assert_eq!(reg.pop_current(1, 2, 20), Some(1));
    assert_eq!(reg.pop_current(1, 1, 30), None);
    assert_eq!(reg.0.get(&1).unwrap().dropped_span_count, 0);
}

#[test]
fn set_path_updates_only_known_transactions() {
    let mut reg = TrMap::new();
    assert!(!reg.set_transaction_path(1, "/x".to_string()));
    assert!(reg.set_transaction(1, "tx".to_string(), None));
    assert!(reg.set_transaction_path(1, "/x".to_string()));
    assert_eq!(reg.0.get(&1).unwrap().path, "/x");
}

#[test]
fn time_queries_use_root_span_or_sentinel() {
    let mut reg = TrMap::new();
    assert_eq!(reg.get_transaction_start_time(1), 0);
    assert_eq!(reg.get_transaction_end_time(1), 0);
    assert!(reg.set_transaction(1, "tx".to_string(), None));
    assert_eq!(reg.get_transaction_start_time(1), 0);
    assert!(reg.push_current(1, func(1, 123)));
    assert_eq!(reg.get_transaction_start_time(1), 123);
    assert_eq!(reg.get_transaction_end_time(1), 0);
    assert_eq!(reg.pop_current(1, 1, 456), None);
    assert_eq!(reg.get_transaction_end_time(1), 456);
}

#[test]
fn drop_transaction_removes_and_enqueues() {
    let mut reg = TrMap::new();
    let mut out = SenderMachine::new();
    assert!(!reg.drop_transaction(1, &mut out));
    assert_eq!(out.queue.len(), 0);
    assert!(reg.set_transaction(1, "tx".to_string(), None));
    assert!(reg.push_current(1, func(1, 0)));
    assert_eq!(reg.pop_current(1, 1, 10), None);
    assert!(reg.drop_transaction(1, &mut out));
    assert_eq!(reg.availability_transaction(1), None);
    assert_eq!(out.queue.len(), 1);
    assert!(out.queue[0].contains("\"duration\":10"));
}

#[test]
fn database_node_defaults_postgres_port() {
    let n = DatabaseNode::new(
        1,
        0,
        String::new(),
        0,
        "PostgreSQL".to_string(),
        "db".to_string(),
        "SELECT".to_string(),
        "t".to_string(),
        "select 1".to_string(),
    );
    assert_eq!(n.host, "127.0.0.1");
    assert_eq!(n.port, 5432);
}

#[test]
fn database_node_defaults_mysql_port() {
    let n = DatabaseNode::new(
        1,
        0,
        String::new(),
        0,
        "MySQL".to_string(),
        "db".to_string(),
        "SELECT".to_string(),
        "t".to_string(),
        "select 1".to_string(),
    );
    assert_eq!(n.host, "127.0.0.1");
    assert_eq!(n.port, 3306);
}

#[test]
fn database_node_keeps_explicit_host_and_port() {
    let n = DatabaseNode::new(
        1,
        0,
        "db.internal".to_string(),
        5433,
        "PostgreSQL".to_string(),
        "db".to_string(),
        "SELECT".to_string(),
        "t".to_string(),
        "select 1".to_string(),
    );
    assert_eq!(n.host, "db.internal");
    assert_eq!(n.port, 5433);
}

#[test]
fn database_node_unknown_product_keeps_unset_values() {
    let n = DatabaseNode::new(
        1,
        0,
        String::new(),
        0,
        "SQLite".to_string(),
        "db".to_string(),
        "SELECT".to_string(),
        "t".to_string(),
        "select 1".to_string(),
    );
    assert_eq!(n.host, "");
    assert_eq!(n.port, 0);
}

#[test]
fn mixed_span_kinds_nest() {
    let mut reg = TrMap::new();
    assert!(reg.set_transaction(1, "tx".to_string(), None));
    assert!(reg.push_current(1, func(1, 0)));
    let ext = ExternalNode::new(
        2,
        10,
        "api.example.com".to_string(),
        443,
        "requests".to_string(),
        "GET".to_string(),
        "/v1",
    );
    assert!(reg.push_current(1, StackNode::External(ext)));
    let cache = CacheNode::new(
        3,
        20,
        "localhost".to_string(),
        6379,
        "Redis".to_string(),
        "0".to_string(),
        "GET".to_string(),
    );
    assert!(reg.push_current(1, StackNode::Cache(cache)));
    assert_eq!(reg.pop_current(1, 3, 30), Some(2));
    assert_eq!(reg.pop_current(1, 2, 40), Some(1));
    assert_eq!(reg.pop_current(1, 1, 50), None);
    let tx = reg.0.get(&1).unwrap();
    match &tx.nodes_stack[0] {
        StackNode::Func(f) => {
            assert_eq!(f.childrens.len(), 1);
            match &f.childrens[0] {
                StackNode::External(e) => {
                    assert_eq!(e.duration, 30);
                    assert_eq!(e.exclusive, 20);
                    assert_eq!(e.childrens.len(), 1);
                    match &e.childrens[0] {
                        StackNode::Cache(c) => {
                            assert_eq!(c.duration, 10);
                            assert_eq!(c.exclusive, 10);
                        }
                        _ => panic!("expected a cache span"),
                    }
                }
                _ => panic!("expected an external span"),
            }
        }
        _ => panic!("root should be a function span"),
    }
    assert_eq!(tx.trace_node_count, 3);
}
