//! Span nodes: one timed unit of work of one of four kinds, with the
//! self-time ("exclusive") accounting that runs in O(1) per close.
//!
//! Timestamps are integer ticks of a caller-chosen resolution. A span's
//! end is clamped upward to its start, so a duration is never negative.
//! While a span is open, the durations of the children attached to it so
//! far are accumulated in `child_sum`; when the span closes, its self
//! time is its own duration minus that accumulated sum, floored at zero.

use vstd::prelude::*;

verus! {

/// `a + b`, stopping at `u64::MAX`.
pub open spec fn sat_add(a: u64, b: u64) -> u64 {
    if a + b > u64::MAX {
        u64::MAX
    } else {
        (a + b) as u64
    }
}

/// `a - b`, floored at zero.
pub open spec fn sat_sub(a: u64, b: u64) -> u64 {
    if a >= b {
        (a - b) as u64
    } else {
        0
    }
}

pub fn saturating_add_u64(a: u64, b: u64) -> (r: u64)
    ensures
        r == sat_add(a, b),
{
    if a <= u64::MAX - b {
        a + b
    } else {
        u64::MAX
    }
}

/// A span of one of the four kinds.
pub enum StackNode {
    Func(FuncNode),
    External(ExternalNode),
    Database(DatabaseNode),
    Cache(CacheNode),
}

/// A traced function call.
pub struct FuncNode {
    pub node_id: u64,
    pub childrens: Vec<StackNode>,
    pub start_time: u64,
    pub end_time: u64,
    pub exclusive: u64,
    pub child_sum: u64,
    pub duration: u64,
    pub func_name: String,
}

/// A call to an external service over HTTP or a similar protocol.
pub struct ExternalNode {
    pub node_id: u64,
    pub childrens: Vec<StackNode>,
    pub start_time: u64,
    pub end_time: u64,
    pub exclusive: u64,
    pub child_sum: u64,
    pub duration: u64,
    pub host: String,
    pub port: u16,
    pub library: String,
    pub method: String,
    pub path: String,
}

/// A database call.
pub struct DatabaseNode {
    pub node_id: u64,
    pub childrens: Vec<StackNode>,
    pub start_time: u64,
    pub end_time: u64,
    pub exclusive: u64,
    pub child_sum: u64,
    pub duration: u64,
    pub host: String,
    pub port: u16,
    pub database_product: String,
    pub database_name: String,
    pub operation: String,
    pub target: String,
    pub sql: String,
}

/// A cache call.
pub struct CacheNode {
    pub node_id: u64,
    pub childrens: Vec<StackNode>,
    pub start_time: u64,
    pub end_time: u64,
    pub exclusive: u64,
    pub child_sum: u64,
    pub duration: u64,
    pub host: String,
    pub port: u16,
    pub database_product: String,
    pub database_name: String,
    pub operation: String,
}

impl StackNode {
    pub open spec fn spec_node_id(self) -> u64 {
        match self {
            StackNode::Func(x) => x.node_id,
            StackNode::External(x) => x.node_id,
            StackNode::Database(x) => x.node_id,
            StackNode::Cache(x) => x.node_id,
        }
    }

    pub open spec fn spec_start_time(self) -> u64 {
        match self {
            StackNode::Func(x) => x.start_time,
            StackNode::External(x) => x.start_time,
            StackNode::Database(x) => x.start_time,
            StackNode::Cache(x) => x.start_time,
        }
    }

    pub open spec fn spec_end_time(self) -> u64 {
        match self {
            StackNode::Func(x) => x.end_time,
            StackNode::External(x) => x.end_time,
            StackNode::Database(x) => x.end_time,
            StackNode::Cache(x) => x.end_time,
        }
    }

    pub open spec fn spec_duration(self) -> u64 {
        match self {
            StackNode::Func(x) => x.duration,
            StackNode::External(x) => x.duration,
            StackNode::Database(x) => x.duration,
            StackNode::Cache(x) => x.duration,
        }
    }

    pub open spec fn spec_exclusive(self) -> u64 {
        match self {
            StackNode::Func(x) => x.exclusive,
            StackNode::External(x) => x.exclusive,
            StackNode::Database(x) => x.exclusive,
            StackNode::Cache(x) => x.exclusive,
        }
    }

    pub open spec fn spec_child_sum(self) -> u64 {
        match self {
            StackNode::Func(x) => x.child_sum,
            StackNode::External(x) => x.child_sum,
            StackNode::Database(x) => x.child_sum,
            StackNode::Cache(x) => x.child_sum,
        }
    }

    pub open spec fn spec_childrens(self) -> Seq<StackNode> {
        match self {
            StackNode::Func(x) => x.childrens@,
            StackNode::External(x) => x.childrens@,
            StackNode::Database(x) => x.childrens@,
            StackNode::Cache(x) => x.childrens@,
        }
    }

    /// Same variant, same identity and same kind-specific payload.
    pub open spec fn same_identity(self, other: StackNode) -> bool {
        self.spec_node_id() == other.spec_node_id() && match (self, other) {
            (StackNode::Func(a), StackNode::Func(b)) => a.func_name == b.func_name,
            (StackNode::External(a), StackNode::External(b)) => {
                &&& a.host == b.host
                &&& a.port == b.port
                &&& a.library == b.library
                &&& a.method == b.method
                &&& a.path == b.path
            },
            (StackNode::Database(a), StackNode::Database(b)) => {
                &&& a.host == b.host
                &&& a.port == b.port
                &&& a.database_product == b.database_product
                &&& a.database_name == b.database_name
                &&& a.operation == b.operation
                &&& a.target == b.target
                &&& a.sql == b.sql
            },
            (StackNode::Cache(a), StackNode::Cache(b)) => {
                &&& a.host == b.host
                &&& a.port == b.port
                &&& a.database_product == b.database_product
                &&& a.database_name == b.database_name
                &&& a.operation == b.operation
            },
            _ => false,
        }
    }

    pub open spec fn same_timing(self, other: StackNode) -> bool {
        &&& self.spec_start_time() == other.spec_start_time()
        &&& self.spec_end_time() == other.spec_end_time()
        &&& self.spec_duration() == other.spec_duration()
        &&& self.spec_exclusive() == other.spec_exclusive()
    }

    /// The node with its raw end timestamp set, nothing else touched.
    pub open spec fn spec_with_end(self, end_time: u64) -> StackNode {
        match self {
            StackNode::Func(x) => StackNode::Func(x.spec_with_end(end_time)),
            StackNode::External(x) => StackNode::External(x.spec_with_end(end_time)),
            StackNode::Database(x) => StackNode::Database(x.spec_with_end(end_time)),
            StackNode::Cache(x) => StackNode::Cache(x.spec_with_end(end_time)),
        }
    }

    /// The node as close bookkeeping leaves it: end clamped upward to
    /// start, duration derived, exclusive floored at zero.
    pub open spec fn spec_completed(self) -> StackNode {
        match self {
            StackNode::Func(x) => StackNode::Func(x.spec_completed()),
            StackNode::External(x) => StackNode::External(x.spec_completed()),
            StackNode::Database(x) => StackNode::Database(x.spec_completed()),
            StackNode::Cache(x) => StackNode::Cache(x.spec_completed()),
        }
    }

    /// The node closed at `end_time`: its raw end set, then the close
    /// bookkeeping run.
    pub open spec fn spec_close_at(self, end_time: u64) -> StackNode {
        self.spec_with_end(end_time).spec_completed()
    }

    pub fn get_start_time(&self) -> (r: u64)
        ensures
            r == self.spec_start_time(),
    {
        match self {
            StackNode::Func(x) => x.start_time,
            StackNode::External(x) => x.start_time,
            StackNode::Database(x) => x.start_time,
            StackNode::Cache(x) => x.start_time,
        }
    }

    pub fn get_end_time(&self) -> (r: u64)
        ensures
            r == self.spec_end_time(),
    {
        match self {
            StackNode::Func(x) => x.end_time,
            StackNode::External(x) => x.end_time,
            StackNode::Database(x) => x.end_time,
            StackNode::Cache(x) => x.end_time,
        }
    }

    pub fn get_node_id(&self) -> (r: u64)
        ensures
            r == self.spec_node_id(),
    {
        match self {
            StackNode::Func(x) => x.node_id,
            StackNode::External(x) => x.node_id,
            StackNode::Database(x) => x.node_id,
            StackNode::Cache(x) => x.node_id,
        }
    }

    pub fn get_duration(&self) -> (r: u64)
        ensures
            r == self.spec_duration(),
    {
        match self {
            StackNode::Func(x) => x.duration,
            StackNode::External(x) => x.duration,
            StackNode::Database(x) => x.duration,
            StackNode::Cache(x) => x.duration,
        }
    }

    pub fn set_endtime(&mut self, end_time: u64)
        ensures
            *final(self) == old(self).spec_with_end(end_time),
    {
        match self {
            StackNode::Func(x) => x.set_endtime(end_time),
            StackNode::External(x) => x.set_endtime(end_time),
            StackNode::Database(x) => x.set_endtime(end_time),
            StackNode::Cache(x) => x.set_endtime(end_time),
        }
    }

    pub fn comp_exclusive(&mut self) -> (r: u64)
        ensures
            *final(self) == old(self).spec_completed(),
            r == final(self).spec_exclusive(),
    {
        match self {
            StackNode::Func(x) => x.comp_exclusive(),
            StackNode::External(x) => x.comp_exclusive(),
            StackNode::Database(x) => x.comp_exclusive(),
            StackNode::Cache(x) => x.comp_exclusive(),
        }
    }

    /// Attach a closed child: append it to the children and add its
    /// duration to the running sum that close-time self-time accounting
    /// subtracts.
    pub fn process_child(&mut self, node: StackNode)
        ensures
            final(self).same_identity(*old(self)),
            final(self).same_timing(*old(self)),
            final(self).spec_childrens() == old(self).spec_childrens().push(node),
            final(self).spec_child_sum() == sat_add(old(self).spec_child_sum(), node.spec_duration()),
    {
        match self {
            StackNode::Func(x) => {
                x.child_sum = saturating_add_u64(x.child_sum, node.get_duration());
                x.childrens.push(node);
            },
            StackNode::External(x) => {
                x.child_sum = saturating_add_u64(x.child_sum, node.get_duration());
                x.childrens.push(node);
            },
            StackNode::Database(x) => {
                x.child_sum = saturating_add_u64(x.child_sum, node.get_duration());
                x.childrens.push(node);
            },
            StackNode::Cache(x) => {
                x.child_sum = saturating_add_u64(x.child_sum, node.get_duration());
                x.childrens.push(node);
            },
        }
    }
}

impl FuncNode {
    pub open spec fn spec_with_end(self, end_time: u64) -> FuncNode {
        FuncNode { end_time, ..self }
    }

    pub open spec fn spec_completed(self) -> FuncNode {
        let e = if self.end_time >= self.start_time {
            self.end_time
        } else {
            self.start_time
        };
        let d = (e - self.start_time) as u64;
        FuncNode { end_time: e, duration: d, exclusive: sat_sub(d, self.child_sum), ..self }
    }

    pub fn new(node_id: u64, start_time: u64, func_name: String) -> (r: FuncNode)
        ensures
            r.node_id == node_id,
            r.childrens@ =~= Seq::<StackNode>::empty(),
            r.start_time == start_time,
            r.end_time == 0,
            r.exclusive == 0,
            r.child_sum == 0,
            r.duration == 0,
            r.func_name == func_name,
    {
        FuncNode {
            node_id,
            childrens: Vec::new(),
            start_time,
            end_time: 0,
            exclusive: 0,
            child_sum: 0,
            duration: 0,
            func_name,
        }
    }

    fn set_endtime(&mut self, end_time: u64)
        ensures
            *final(self) == old(self).spec_with_end(end_time),
    {
        self.end_time = end_time;
    }

    fn comp_exclusive(&mut self) -> (r: u64)
        ensures
            *final(self) == old(self).spec_completed(),
            r == final(self).exclusive,
    {
        if self.end_time < self.start_time {
            self.end_time = self.start_time;
        }
        self.duration = self.end_time - self.start_time;
        self.exclusive = if self.duration >= self.child_sum {
            self.duration - self.child_sum
        } else {
            0
        };
        self.exclusive
    }
}

impl ExternalNode {
    pub open spec fn spec_with_end(self, end_time: u64) -> ExternalNode {
        ExternalNode { end_time, ..self }
    }

    pub open spec fn spec_completed(self) -> ExternalNode {
        let e = if self.end_time >= self.start_time {
            self.end_time
        } else {
            self.start_time
        };
        let d = (e - self.start_time) as u64;
        ExternalNode { end_time: e, duration: d, exclusive: sat_sub(d, self.child_sum), ..self }
    }

    pub fn new(
        node_id: u64,
        start_time: u64,
        host: String,
        port: u16,
        library: String,
        method: String,
        path: &str,
    ) -> (r: ExternalNode)
        ensures
            r.node_id == node_id,
            r.childrens@ =~= Seq::<StackNode>::empty(),
            r.start_time == start_time,
            r.end_time == 0,
            r.exclusive == 0,
            r.child_sum == 0,
            r.duration == 0,
            r.host == host,
            r.port == port,
            r.library == library,
            r.method == method,
            r.path@ == path@,
    {
        ExternalNode {
            node_id,
            childrens: Vec::new(),
            start_time,
            end_time: 0,
            exclusive: 0,
            child_sum: 0,
            duration: 0,
            host,
            port,
            library,
            method,
            path: path.to_owned(),
        }
    }

    fn set_endtime(&mut self, end_time: u64)
        ensures
            *final(self) == old(self).spec_with_end(end_time),
    {
        self.end_time = end_time;
    }

    fn comp_exclusive(&mut self) -> (r: u64)
        ensures
            *final(self) == old(self).spec_completed(),
            r == final(self).exclusive,
    {
        if self.end_time < self.start_time {
            self.end_time = self.start_time;
        }
        self.duration = self.end_time - self.start_time;
        self.exclusive = if self.duration >= self.child_sum {
            self.duration - self.child_sum
        } else {
            0
        };
        self.exclusive
    }
}

impl DatabaseNode {
    pub open spec fn spec_with_end(self, end_time: u64) -> DatabaseNode {
        DatabaseNode { end_time, ..self }
    }

    pub open spec fn spec_completed(self) -> DatabaseNode {
        let e = if self.end_time >= self.start_time {
            self.end_time
        } else {
            self.start_time
        };
        let d = (e - self.start_time) as u64;
        DatabaseNode { end_time: e, duration: d, exclusive: sat_sub(d, self.child_sum), ..self }
    }

    /// An unset host or port falls back to the product's well-known
    /// default; products without a known default keep the unset value.
    pub fn new(
        node_id: u64,
        start_time: u64,
        host: String,
        port: u16,
        database_product: String,
        database_name: String,
        operation: String,
        target: String,
        sql: String,
    ) -> (r: DatabaseNode)
        ensures
            r.node_id == node_id,
            r.childrens@ =~= Seq::<StackNode>::empty(),
            r.start_time == start_time,
            r.end_time == 0,
            r.exclusive == 0,
            r.child_sum == 0,
            r.duration == 0,
            r.host@ == if host@.len() != 0 {
                host@
            } else if database_product@ == "PostgreSQL"@ || database_product@ == "MySQL"@ {
                "127.0.0.1"@
            } else {
                host@
            },
            r.port == if port != 0 {
                port
            } else if database_product@ == "PostgreSQL"@ {
                5432u16
            } else if database_product@ == "MySQL"@ {
                3306u16
            } else {
                0u16
            },
            r.database_product == database_product,
            r.database_name == database_name,
            r.operation == operation,
            r.target == target,
            r.sql == sql,
    {
        let is_pg = string_eq_literal(&database_product, "PostgreSQL");
        let is_mysql = string_eq_literal(&database_product, "MySQL");
        let target_host = if host.as_str().is_empty() {
            if is_pg || is_mysql {
                "127.0.0.1".to_owned()
            } else {
                host
            }
        } else {
            host
        };
        let target_port = if port != 0 {
            port
        } else if is_pg {
            5432
        } else if is_mysql {
            3306
        } else {
            0
        };
        DatabaseNode {
            node_id,
            childrens: Vec::new(),
            start_time,
            end_time: 0,
            exclusive: 0,
            child_sum: 0,
            duration: 0,
            host: target_host,
            port: target_port,
            database_product,
            database_name,
            operation,
            target,
            sql,
        }
    }

    fn set_endtime(&mut self, end_time: u64)
        ensures
            *final(self) == old(self).spec_with_end(end_time),
    {
        self.end_time = end_time;
    }

    fn comp_exclusive(&mut self) -> (r: u64)
        ensures
            *final(self) == old(self).spec_completed(),
            r == final(self).exclusive,
    {
        if self.end_time < self.start_time {
            self.end_time = self.start_time;
        }
        self.duration = self.end_time - self.start_time;
        self.exclusive = if self.duration >= self.child_sum {
            self.duration - self.child_sum
        } else {
            0
        };
        self.exclusive
    }
}

impl CacheNode {
    pub open spec fn spec_with_end(self, end_time: u64) -> CacheNode {
        CacheNode { end_time, ..self }
    }

    pub open spec fn spec_completed(self) -> CacheNode {
        let e = if self.end_time >= self.start_time {
            self.end_time
        } else {
            self.start_time
        };
        let d = (e - self.start_time) as u64;
        CacheNode { end_time: e, duration: d, exclusive: sat_sub(d, self.child_sum), ..self }
    }

    pub fn new(
        node_id: u64,
        start_time: u64,
        host: String,
        port: u16,
        database_product: String,
        database_name: String,
        operation: String,
    ) -> (r: CacheNode)
        ensures
            r.node_id == node_id,
            r.childrens@ =~= Seq::<StackNode>::empty(),
            r.start_time == start_time,
            r.end_time == 0,
            r.exclusive == 0,
            r.child_sum == 0,
            r.duration == 0,
            r.host == host,
            r.port == port,
            r.database_product == database_product,
            r.database_name == database_name,
            r.operation == operation,
    {
        CacheNode {
            node_id,
            childrens: Vec::new(),
            start_time,
            end_time: 0,
            exclusive: 0,
            child_sum: 0,
            duration: 0,
            host,
            port,
            database_product,
            database_name,
            operation,
        }
    }

    fn set_endtime(&mut self, end_time: u64)
        ensures
            *final(self) == old(self).spec_with_end(end_time),
    {
        self.end_time = end_time;
    }

    fn comp_exclusive(&mut self) -> (r: u64)
        ensures
            *final(self) == old(self).spec_completed(),
            r == final(self).exclusive,
    {
        if self.end_time < self.start_time {
            self.end_time = self.start_time;
        }
        self.duration = self.end_time - self.start_time;
        self.exclusive = if self.duration >= self.child_sum {
            self.duration - self.child_sum
        } else {
            0
        };
        self.exclusive
    }
}

/// Saturating sum of the durations of a sequence of spans, accumulated
/// in attach order.
pub open spec fn spec_dur_sum(s: Seq<StackNode>) -> u64
    decreases s.len(),
{
    if s.len() == 0 {
        0
    } else {
        sat_add(spec_dur_sum(s.drop_last()), s.last().spec_duration())
    }
}

/// Exact mathematical sum of the durations of a sequence of spans.
pub open spec fn spec_dur_sum_int(s: Seq<StackNode>) -> int
    decreases s.len(),
{
    if s.len() == 0 {
        0
    } else {
        spec_dur_sum_int(s.drop_last()) + s.last().spec_duration()
    }
}

/// What holds of every span sitting on an open-span stack: the children
/// attached to it so far are finished subtrees, and `child_sum` is the
/// accumulated (saturating) sum of their durations.
pub open spec fn open_span_wf(n: StackNode) -> bool
    decreases n, 0int,
{
    &&& n.spec_child_sum() == spec_dur_sum(n.spec_childrens())
    &&& forall|i: int|
        0 <= i < n.spec_childrens().len() ==> closed_span_wf(#[trigger] n.spec_childrens()[i])
}

/// What holds of a span once its close bookkeeping has run: its end is
/// clamped to its start, its duration derived from the two, and its
/// exclusive time is its duration minus its children's durations,
/// floored at zero; recursively so for the whole subtree.
pub open spec fn closed_span_wf(n: StackNode) -> bool
    decreases n, 1int,
{
    &&& open_span_wf(n)
    &&& n.spec_end_time() >= n.spec_start_time()
    &&& n.spec_duration() == n.spec_end_time() - n.spec_start_time()
    &&& n.spec_exclusive() == sat_sub(n.spec_duration(), n.spec_child_sum())
}

/// When the exact sum of durations fits in the counter, the saturating
/// sum equals it.
pub proof fn lemma_dur_sum_exact(s: Seq<StackNode>)
    requires
        spec_dur_sum_int(s) <= u64::MAX,
    ensures
        spec_dur_sum(s) == spec_dur_sum_int(s),
    decreases s.len(),
{
    if s.len() > 0 {
        lemma_dur_sum_exact(s.drop_last());
    }
}

/// The self-time law: a finished span's exclusive time is its own
/// duration minus the durations of its direct children, floored at
/// zero — in particular it is never negative. (Stated under the side
/// condition that the exact sum of child durations does not exceed the
/// counter's range; past that point the accumulator saturates.)
pub proof fn lemma_exclusive_is_floored_self_time(n: StackNode)
    requires
        closed_span_wf(n),
        spec_dur_sum_int(n.spec_childrens()) <= u64::MAX,
    ensures
        n.spec_exclusive() == if n.spec_duration() >= spec_dur_sum_int(n.spec_childrens()) {
            n.spec_duration() - spec_dur_sum_int(n.spec_childrens())
        } else {
            0
        },
        n.spec_exclusive() >= 0,
{
    lemma_dur_sum_exact(n.spec_childrens());
}

/// Running the close bookkeeping on a well-formed open span yields a
/// well-formed finished subtree.
pub proof fn lemma_completed_closed(n: StackNode)
    requires
        open_span_wf(n),
    ensures
        closed_span_wf(n.spec_completed()),
{
    let c = n.spec_completed();
    assert(c.spec_childrens() == n.spec_childrens());
    assert(c.spec_child_sum() == n.spec_child_sum());
}

/// Exactly what closing a well-formed open span at `end_time` does to
/// each of its fields.
pub proof fn lemma_close_at(n: StackNode, end_time: u64)
    requires
        open_span_wf(n),
    ensures
        closed_span_wf(n.spec_close_at(end_time)),
        n.spec_close_at(end_time).same_identity(n),
        n.spec_close_at(end_time).spec_childrens() == n.spec_childrens(),
        n.spec_close_at(end_time).spec_child_sum() == n.spec_child_sum(),
        n.spec_close_at(end_time).spec_start_time() == n.spec_start_time(),
        n.spec_close_at(end_time).spec_end_time() == if end_time >= n.spec_start_time() {
            end_time
        } else {
            n.spec_start_time()
        },
        n.spec_close_at(end_time).spec_duration() == n.spec_close_at(end_time).spec_end_time()
            - n.spec_start_time(),
        n.spec_close_at(end_time).spec_exclusive() == sat_sub(
            n.spec_close_at(end_time).spec_duration(),
            n.spec_child_sum(),
        ),
{
    let w = n.spec_with_end(end_time);
    assert(w.spec_childrens() == n.spec_childrens());
    assert(w.spec_child_sum() == n.spec_child_sum());
    assert(open_span_wf(w));
    lemma_completed_closed(w);
}

fn string_eq_literal(s: &String, lit: &str) -> (r: bool)
    ensures
        r == (s@ == lit@),
{
    let other = lit.to_owned();
    s.eq(&other)
}

} // verus!
