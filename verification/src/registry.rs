//! The transaction registry: a mapping from caller-supplied transaction
//! id to the transaction's open-span stack, with the create, push,
//! close and query operations used by instrumentation call sites.
//!
//! Usage errors — a duplicate create, an operation against an unknown
//! id, a close whose node id does not match the top of the stack — are
//! reported through boolean or optional return values and never panic.

use std::collections::HashMap;

use crate::guid::{fresh_guid, spec_hex_u64};
use crate::output::SenderMachine;
use crate::serialize::{json_transaction_string, spec_json_transaction};
use crate::spans::{
    closed_span_wf, lemma_close_at, open_span_wf, sat_add, sat_sub, saturating_add_u64,
    spec_dur_sum, StackNode,
};
use vstd::prelude::*;

verus! {

broadcast use vstd::std_specs::hash::group_hash_axioms;

/// One traced unit of work: its display name, request path, random
/// trace identifier, closed-span count, a counter of spans a
/// mismatched close discarded (operator visibility for the defensive
/// branch), and the explicit stack of open spans. Index 0 of the
/// stack, once present, is the root; it is never popped by a close,
/// only replaced in place when it closes.
pub struct TransactionNode {
    pub base_name: String,
    pub nodes_stack: Vec<StackNode>,
    pub trace_node_count: u64,
    pub dropped_span_count: u64,
    pub guid: String,
    pub path: String,
}

impl TransactionNode {
    /// Every span on the open-span stack is well formed.
    pub open spec fn wf(self) -> bool {
        forall|i: int|
            0 <= i < self.nodes_stack@.len() ==> open_span_wf(#[trigger] self.nodes_stack@[i])
    }

    /// Same name, trace identifier and path.
    pub open spec fn same_meta(self, other: TransactionNode) -> bool {
        &&& self.base_name == other.base_name
        &&& self.guid == other.guid
        &&& self.path == other.path
    }

    pub fn set_path(&mut self, path: String)
        ensures
            *final(self) == (TransactionNode { path, ..*old(self) }),
    {
        self.path = path;
    }

    /// Render this transaction as its wire JSON.
    pub fn dump(&self) -> (r: String)
        ensures
            r@ == spec_json_transaction(*self),
    {
        json_transaction_string(self)
    }
}

/// What a freshly created transaction looks like: the given name, an
/// empty span stack, no closed spans, the given path (empty when
/// absent), and a guid that is the hex rendering of some 64-bit value.
pub open spec fn is_fresh_transaction(
    tx: TransactionNode,
    name: String,
    path: Option<String>,
) -> bool {
    &&& tx.base_name == name
    &&& tx.nodes_stack@.len() == 0
    &&& tx.trace_node_count == 0
    &&& tx.dropped_span_count == 0
    &&& (exists|g: u64| tx.guid@ == spec_hex_u64(g))
    &&& tx.path@ == match path {
        Option::Some(p) => p@,
        Option::None => Seq::<char>::empty(),
    }
}

/// A span as instrumentation hands it to `push_current`: started but
/// not yet closed, with no children attached.
pub open spec fn is_fresh_span(n: StackNode) -> bool {
    &&& n.spec_childrens().len() == 0
    &&& n.spec_child_sum() == 0
    &&& n.spec_end_time() == 0
    &&& n.spec_duration() == 0
    &&& n.spec_exclusive() == 0
}

/// The registry: transaction id to transaction.
pub struct TrMap(pub HashMap<u64, TransactionNode>);

impl TrMap {
    pub open spec fn spec_map(self) -> Map<u64, TransactionNode> {
        self.0@
    }

    pub open spec fn wf(self) -> bool {
        forall|id: u64|
            self.spec_map().dom().contains(id) ==> (#[trigger] self.spec_map()[id]).wf()
    }

    /// The root span's start timestamp, or 0 when the transaction is
    /// unknown or has no spans yet (a fixed sentinel, not an error
    /// signal).
    pub open spec fn spec_start_time_of(self, id: u64) -> u64 {
        if self.spec_map().dom().contains(id) && self.spec_map()[id].nodes_stack@.len() > 0 {
            self.spec_map()[id].nodes_stack@[0].spec_start_time()
        } else {
            0
        }
    }

    /// The root span's end timestamp, with the same sentinel.
    pub open spec fn spec_end_time_of(self, id: u64) -> u64 {
        if self.spec_map().dom().contains(id) && self.spec_map()[id].nodes_stack@.len() > 0 {
            self.spec_map()[id].nodes_stack@[0].spec_end_time()
        } else {
            0
        }
    }

    pub fn new() -> (r: TrMap)
        ensures
            r.spec_map() == Map::<u64, TransactionNode>::empty(),
            r.wf(),
    {
        TrMap(HashMap::new())
    }

    /// Create a transaction. Returns false, changing nothing, when a
    /// transaction with this id already exists; otherwise inserts a
    /// fresh one and returns true.
    pub fn set_transaction(&mut self, id: u64, transaction: String, path: Option<String>) -> (r:
        bool)
        requires
            old(self).wf(),
        ensures
            final(self).wf(),
            r == !old(self).spec_map().dom().contains(id),
            old(self).spec_map().dom().contains(id) ==> final(self).spec_map() == old(
                self,
            ).spec_map(),
            !old(self).spec_map().dom().contains(id) ==> {
                &&& final(self).spec_map() == old(self).spec_map().insert(
                    id,
                    final(self).spec_map()[id],
                )
                &&& is_fresh_transaction(final(self).spec_map()[id], transaction, path)
            },
    {
        if self.0.contains_key(&id) {
            false
        } else {
            let tx = TransactionNode {
                base_name: transaction,
                nodes_stack: Vec::new(),
                trace_node_count: 0,
                dropped_span_count: 0,
                guid: fresh_guid(),
                path: match path {
                    Option::Some(p) => p,
                    Option::None => "".to_owned(),
                },
            };
            self.0.insert(id, tx);
            proof {
                reveal_strlit("");
                assert(""@ =~= Seq::<char>::empty());
                assert(self.spec_map() =~= old(self).spec_map().insert(id, self.spec_map()[id]));
            }
            true
        }
    }

    /// Some(id) exactly when the transaction exists.
    pub fn availability_transaction(&self, id: u64) -> (r: Option<u64>)
        ensures
            r == if self.spec_map().dom().contains(id) {
                Option::Some(id)
            } else {
                Option::None::<u64>
            },
    {
        match self.0.get(&id) {
            Option::Some(_) => Option::Some(id),
            Option::None => Option::None,
        }
    }

    pub fn get_transaction_start_time(&self, id: u64) -> (r: u64)
        ensures
            r == self.spec_start_time_of(id),
    {
        match self.0.get(&id) {
            Option::Some(tr) => {
                if tr.nodes_stack.len() > 0 {
                    let root: &StackNode = &tr.nodes_stack[0];
                    root.get_start_time()
                } else {
                    0
                }
            },
            Option::None => 0,
        }
    }

    pub fn get_transaction_end_time(&self, id: u64) -> (r: u64)
        ensures
            r == self.spec_end_time_of(id),
    {
        match self.0.get(&id) {
            Option::Some(tr) => {
                if tr.nodes_stack.len() > 0 {
                    let root: &StackNode = &tr.nodes_stack[0];
                    root.get_end_time()
                } else {
                    0
                }
            },
            Option::None => 0,
        }
    }

    /// Push a started span onto the transaction's open-span stack.
    /// Returns false, changing nothing, when the id is unknown.
    pub fn push_current(&mut self, id: u64, node: StackNode) -> (r: bool)
        requires
            old(self).wf(),
            is_fresh_span(node),
        ensures
            final(self).wf(),
            r == old(self).spec_map().dom().contains(id),
            !old(self).spec_map().dom().contains(id) ==> final(self).spec_map() == old(
                self,
            ).spec_map(),
            old(self).spec_map().dom().contains(id) ==> {
                &&& final(self).spec_map() == old(self).spec_map().insert(
                    id,
                    final(self).spec_map()[id],
                )
                &&& final(self).spec_map()[id].same_meta(old(self).spec_map()[id])
                &&& final(self).spec_map()[id].trace_node_count == old(self).spec_map()[id].trace_node_count
                &&& final(self).spec_map()[id].dropped_span_count == old(
                    self,
                ).spec_map()[id].dropped_span_count
                &&& final(self).spec_map()[id].nodes_stack@ == old(
                    self,
                ).spec_map()[id].nodes_stack@.push(node)
            },
    {
        match self.0.remove(&id) {
            Option::Some(mut tx) => {
                tx.nodes_stack.push(node);
                self.0.insert(id, tx);
                proof {
                    assert(self.spec_map() =~= old(self).spec_map().insert(
                        id,
                        self.spec_map()[id],
                    ));
                    assert forall|i: int|
                        0 <= i < self.spec_map()[id].nodes_stack@.len() implies open_span_wf(
                            #[trigger] self.spec_map()[id].nodes_stack@[i],
                        ) by {
                        let st_old = old(self).spec_map()[id].nodes_stack@;
                        if i < st_old.len() {
                            assert(open_span_wf(st_old[i]));
                        } else {
                            assert(self.spec_map()[id].nodes_stack@[i] == node);
                        }
                    }
                }
                true
            },
            Option::None => {
                proof {
                    assert(self.spec_map() =~= old(self).spec_map());
                }
                false
            },
        }
    }

    /// Close the top span of transaction `id`'s stack at `end_time`.
    ///
    /// With an unknown id or an empty stack nothing changes and the
    /// call returns None. With a single open span — the root — its
    /// close bookkeeping runs in place, the closed count rises, and
    /// the call returns None; the root stays on the stack until the
    /// transaction is finalized. Otherwise the top span is popped and
    /// closed; when its node id matches the caller's it is attached as
    /// the last child of the new top, whose node id is returned; when
    /// it does not match — a usage error — the span is discarded, no
    /// parent gains a child, the transaction's dropped-span counter
    /// rises, and the call returns None.
    pub fn pop_current(&mut self, id: u64, node_id: u64, end_time: u64) -> (r: Option<u64>)
        requires
            old(self).wf(),
        ensures
            final(self).wf(),
            ({
                let m = old(self).spec_map();
                &&& (!m.dom().contains(id) ==> r == Option::None::<u64> && final(self).spec_map()
                    == m)
                &&& (m.dom().contains(id) ==> {
                    let st = m[id].nodes_stack@;
                    &&& (st.len() == 0 ==> r == Option::None::<u64> && final(self).spec_map() == m)
                    &&& (st.len() >= 1 ==> {
                        &&& final(self).spec_map() == m.insert(id, final(self).spec_map()[id])
                        &&& final(self).spec_map()[id].same_meta(m[id])
                        &&& final(self).spec_map()[id].trace_node_count == sat_add(
                            m[id].trace_node_count,
                            1,
                        )
                        &&& final(self).spec_map()[id].dropped_span_count == if st.len() >= 2
                            && st.last().spec_node_id() != node_id {
                            sat_add(m[id].dropped_span_count, 1)
                        } else {
                            m[id].dropped_span_count
                        }
                    })
                    &&& (st.len() == 1 ==> {
                        &&& r == Option::None::<u64>
                        &&& final(self).spec_map()[id].nodes_stack@ =~= seq![
                            st[0].spec_close_at(end_time),
                        ]
                    })
                    &&& (st.len() >= 2 ==> {
                        let closed = st.last().spec_close_at(end_time);
                        let stk2 = final(self).spec_map()[id].nodes_stack@;
                        &&& closed_span_wf(closed)
                        &&& stk2.len() == st.len() - 1
                        &&& (forall|i: int| 0 <= i < st.len() - 2 ==> stk2[i] == st[i])
                        &&& (st.last().spec_node_id() == node_id ==> {
                            &&& r == Option::Some(st[st.len() - 2].spec_node_id())
                            &&& stk2.last().same_identity(st[st.len() - 2])
                            &&& stk2.last().same_timing(st[st.len() - 2])
                            &&& stk2.last().spec_childrens() == st[st.len()
                                - 2].spec_childrens().push(closed)
                            &&& stk2.last().spec_child_sum() == sat_add(
                                st[st.len() - 2].spec_child_sum(),
                                closed.spec_duration(),
                            )
                        })
                        &&& (st.last().spec_node_id() != node_id ==> {
                            &&& r == Option::None::<u64>
                            &&& stk2 =~= st.drop_last()
                        })
                    })
                })
            }),
    {
        let tx_opt = self.0.remove(&id);
        match tx_opt {
            Option::None => {
                proof {
                    assert(self.spec_map() =~= old(self).spec_map());
                }
                Option::None
            },
            Option::Some(mut tx) => {
                let ghost st = old(self).spec_map()[id].nodes_stack@;
                let ln = tx.nodes_stack.len();
                if ln == 0 {
                    self.0.insert(id, tx);
                    proof {
                        assert(self.spec_map() =~= old(self).spec_map());
                    }
                    return Option::None;
                }
                if ln == 1 {
                    let mut root = tx.nodes_stack.pop().unwrap();
                    proof {
                        assert(open_span_wf(st[0]));
                        lemma_close_at(root, end_time);
                    }
                    root.set_endtime(end_time);
                    root.comp_exclusive();
                    tx.nodes_stack.push(root);
                    tx.trace_node_count = saturating_add_u64(tx.trace_node_count, 1);
                    self.0.insert(id, tx);
                    proof {
                        assert(self.spec_map() =~= old(self).spec_map().insert(
                            id,
                            self.spec_map()[id],
                        ));
                        assert(self.spec_map()[id].nodes_stack@ =~= seq![
                            st[0].spec_close_at(end_time),
                        ]);
                        assert(self.spec_map()[id].wf());
                    }
                    return Option::None;
                }
                let mut cur = tx.nodes_stack.pop().unwrap();
                proof {
                    assert(open_span_wf(st.last()));
                    lemma_close_at(cur, end_time);
                }
                cur.set_endtime(end_time);
                cur.comp_exclusive();
                tx.trace_node_count = saturating_add_u64(tx.trace_node_count, 1);
                let r: Option<u64>;
                if cur.get_node_id() == node_id {
                    let mut parent = tx.nodes_stack.pop().unwrap();
                    proof {
                        assert(parent == st[st.len() - 2]);
                        assert(open_span_wf(parent));
                    }
                    parent.process_child(cur);
                    let t = parent.get_node_id();
                    proof {
                        let p_old = st[st.len() - 2];
                        let closed = st.last().spec_close_at(end_time);
                        assert(parent.spec_childrens() == p_old.spec_childrens().push(closed));
                        assert(p_old.spec_childrens().push(closed).drop_last()
                            =~= p_old.spec_childrens());
                        assert(spec_dur_sum(parent.spec_childrens()) == sat_add(
                            spec_dur_sum(p_old.spec_childrens()),
                            closed.spec_duration(),
                        ));
                        assert forall|i: int|
                            0 <= i < parent.spec_childrens().len() implies closed_span_wf(
                            #[trigger] parent.spec_childrens()[i],
                        ) by {
                            if i < p_old.spec_childrens().len() {
                                assert(closed_span_wf(p_old.spec_childrens()[i]));
                            } else {
                                assert(parent.spec_childrens()[i] == closed);
                            }
                        }
                        assert(open_span_wf(parent));
                    }
                    tx.nodes_stack.push(parent);
                    r = Option::Some(t);
                } else {
                    tx.dropped_span_count = saturating_add_u64(tx.dropped_span_count, 1);
                    r = Option::None;
                }
                self.0.insert(id, tx);
                proof {
                    assert(self.spec_map() =~= old(self).spec_map().insert(
                        id,
                        self.spec_map()[id],
                    ));
                    let stk2 = self.spec_map()[id].nodes_stack@;
                    assert forall|i: int| 0 <= i < stk2.len() implies open_span_wf(
                        #[trigger] stk2[i],
                    ) by {
                        if i < st.len() - 2 {
                            assert(stk2[i] == st[i]);
                            assert(open_span_wf(st[i]));
                        } else {
                            assert(open_span_wf(st[i]) || open_span_wf(stk2[i]));
                        }
                    }
                }
                r
            },
        }
    }

    /// Finalize a transaction: remove it from the registry, render it
    /// as wire JSON, and hand the frame to the output pipeline's
    /// queue. Returns false, changing nothing, when the id is unknown.
    pub fn drop_transaction(&mut self, id: u64, out: &mut SenderMachine) -> (r: bool)
        requires
            old(self).wf(),
            old(out).wf(),
        ensures
            final(self).wf(),
            final(out).wf(),
            r == old(self).spec_map().dom().contains(id),
            !old(self).spec_map().dom().contains(id) ==> final(self).spec_map() == old(
                self,
            ).spec_map() && *final(out) == *old(out),
            old(self).spec_map().dom().contains(id) ==> {
                let json = spec_json_transaction(old(self).spec_map()[id]);
                &&& final(self).spec_map() == old(self).spec_map().remove(id)
                &&& final(out).queue@.len() == old(out).queue@.len() + 1
                &&& final(out).queue@ == old(out).queue@.push(final(out).queue@.last())
                &&& final(out).queue@.last()@ == json
                &&& final(out).pending == old(out).pending
                &&& final(out).state == old(out).state
                &&& final(out).connections == old(out).connections
                &&& final(out).acked == old(out).acked
                &&& final(out).hist_enqueued@ == old(out).hist_enqueued@.push(json)
                &&& final(out).hist_acked@ == old(out).hist_acked@
            },
    {
        match self.0.remove(&id) {
            Option::Some(tx) => {
                let j = json_transaction_string(&tx);
                out.enqueue(j);
                proof {
                    assert(self.spec_map() =~= old(self).spec_map().remove(id));
                    assert forall|k: u64| self.spec_map().dom().contains(k) implies (
                    #[trigger] self.spec_map()[k]).wf() by {
                        assert(old(self).spec_map()[k].wf());
                    }
                }
                true
            },
            Option::None => {
                proof {
                    assert(self.spec_map() =~= old(self).spec_map());
                }
                false
            },
        }
    }

    /// Render a transaction as its wire JSON without removing it; the
    /// empty string when the id is unknown.
    pub fn dump_transaction(&self, id: u64) -> (r: String)
        ensures
            self.spec_map().dom().contains(id) ==> r@ == spec_json_transaction(
                self.spec_map()[id],
            ),
            !self.spec_map().dom().contains(id) ==> r@ == Seq::<char>::empty(),
    {
        match self.0.get(&id) {
            Option::Some(tr) => tr.dump(),
            Option::None => String::new(),
        }
    }

    /// Set the transaction's request path. Returns false, changing
    /// nothing, when the id is unknown.
    pub fn set_transaction_path(&mut self, id: u64, path: String) -> (r: bool)
        requires
            old(self).wf(),
        ensures
            final(self).wf(),
            r == old(self).spec_map().dom().contains(id),
            !old(self).spec_map().dom().contains(id) ==> final(self).spec_map() == old(
                self,
            ).spec_map(),
            old(self).spec_map().dom().contains(id) ==> final(self).spec_map() == old(
                self,
            ).spec_map().insert(
                id,
                TransactionNode { path, ..old(self).spec_map()[id] },
            ),
    {
        match self.0.remove(&id) {
            Option::Some(mut tx) => {
                tx.set_path(path);
                self.0.insert(id, tx);
                proof {
                    assert(self.spec_map() =~= old(self).spec_map().insert(
                        id,
                        TransactionNode { path, ..old(self).spec_map()[id] },
                    ));
                }
                true
            },
            Option::None => {
                proof {
                    assert(self.spec_map() =~= old(self).spec_map());
                }
                false
            },
        }
    }
}

} // verus!
