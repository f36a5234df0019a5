//! The serializer: a finalized transaction and its span tree rendered
//! as one self-contained JSON object, exactly as the wire format wants
//! it. The rendering is specified character by character and the
//! builder is proved to produce it.

use crate::guid::{digit_char_str, spec_digit_char};
use crate::registry::TransactionNode;
use crate::spans::{CacheNode, DatabaseNode, ExternalNode, FuncNode, StackNode};
use vstd::prelude::*;
use vstd::string::StringExecFns;

verus! {

/// Decimal digits of `n`, most significant first; zero renders as one
/// digit.
pub open spec fn spec_dec_u64(n: u64) -> Seq<char>
    decreases n,
{
    if n < 10 {
        seq![spec_digit_char(n)]
    } else {
        spec_dec_u64(n / 10).push(spec_digit_char(n % 10))
    }
}

/// One character of a JSON string body: quote and backslash get a
/// backslash escape, control characters a \u00XX escape, everything
/// else stands as itself.
pub open spec fn spec_esc_char(c: char) -> Seq<char> {
    if c == '"' {
        seq!['\\', '"']
    } else if c == '\\' {
        seq!['\\', '\\']
    } else if (c as u32) < 32 {
        seq!['\\', 'u', '0', '0', spec_digit_char(((c as u32) / 16) as u64), spec_digit_char(
            ((c as u32) % 16) as u64,
        )]
    } else {
        seq![c]
    }
}

/// A JSON string body: every character escaped as `spec_esc_char` says.
pub open spec fn spec_escaped(s: Seq<char>) -> Seq<char>
    decreases s.len(),
{
    if s.len() == 0 {
        Seq::<char>::empty()
    } else {
        spec_esc_char(s[0]) + spec_escaped(s.drop_first())
    }
}

/// A JSON string: the escaped body between double quotes.
pub open spec fn spec_json_string(s: Seq<char>) -> Seq<char> {
    seq!['"'] + spec_escaped(s) + seq!['"']
}

/// The members of a JSON array of spans, comma-separated, starting at
/// index `i`.
pub open spec fn spec_json_children_from(s: Seq<StackNode>, i: int) -> Seq<char>
    decreases s, s.len() - i, 0int,
{
    if i < 0 || i >= s.len() {
        Seq::<char>::empty()
    } else if i == s.len() - 1 {
        spec_json_node(s[i])
    } else {
        spec_json_node(s[i]) + ","@ + spec_json_children_from(s, i + 1)
    }
}

/// One span as a JSON object, its children nested.
pub open spec fn spec_json_node(n: StackNode) -> Seq<char>
    decreases n, 0int, 1int,
{
    match n {
        StackNode::Func(x) => "{\"type\":\"Func\",\"node_id\":"@ + spec_dec_u64(x.node_id)
            + ",\"childrens\":["@ + spec_json_children_from(x.childrens@, 0)
            + "],\"start_time\":"@ + spec_dec_u64(x.start_time) + ",\"end_time\":"@ + spec_dec_u64(
            x.end_time,
        ) + ",\"exclusive\":"@ + spec_dec_u64(x.exclusive) + ",\"duration\":"@ + spec_dec_u64(
            x.duration,
        ) + ",\"func_name\":"@ + spec_json_string(x.func_name@) + "}"@,
        StackNode::External(x) => "{\"type\":\"External\",\"node_id\":"@ + spec_dec_u64(x.node_id)
            + ",\"childrens\":["@ + spec_json_children_from(x.childrens@, 0)
            + "],\"start_time\":"@ + spec_dec_u64(x.start_time) + ",\"end_time\":"@ + spec_dec_u64(
            x.end_time,
        ) + ",\"exclusive\":"@ + spec_dec_u64(x.exclusive) + ",\"duration\":"@ + spec_dec_u64(
            x.duration,
        ) + ",\"host\":"@ + spec_json_string(x.host@) + ",\"port\":"@ + spec_dec_u64(x.port as u64)
            + ",\"library\":"@ + spec_json_string(x.library@) + ",\"method\":"@ + spec_json_string(
            x.method@,
        ) + ",\"path\":"@ + spec_json_string(x.path@) + "}"@,
        StackNode::Database(x) => "{\"type\":\"Database\",\"node_id\":"@ + spec_dec_u64(x.node_id)
            + ",\"childrens\":["@ + spec_json_children_from(x.childrens@, 0)
            + "],\"start_time\":"@ + spec_dec_u64(x.start_time) + ",\"end_time\":"@ + spec_dec_u64(
            x.end_time,
        ) + ",\"exclusive\":"@ + spec_dec_u64(x.exclusive) + ",\"duration\":"@ + spec_dec_u64(
            x.duration,
        ) + ",\"host\":"@ + spec_json_string(x.host@) + ",\"port\":"@ + spec_dec_u64(x.port as u64)
            + ",\"database_product\":"@ + spec_json_string(x.database_product@)
            + ",\"database_name\":"@ + spec_json_string(x.database_name@) + ",\"operation\":"@
            + spec_json_string(x.operation@) + ",\"target\":"@ + spec_json_string(x.target@)
            + ",\"sql\":"@ + spec_json_string(x.sql@) + "}"@,
        StackNode::Cache(x) => "{\"type\":\"Cache\",\"node_id\":"@ + spec_dec_u64(x.node_id)
            + ",\"childrens\":["@ + spec_json_children_from(x.childrens@, 0)
            + "],\"start_time\":"@ + spec_dec_u64(x.start_time) + ",\"end_time\":"@ + spec_dec_u64(
            x.end_time,
        ) + ",\"exclusive\":"@ + spec_dec_u64(x.exclusive) + ",\"duration\":"@ + spec_dec_u64(
            x.duration,
        ) + ",\"host\":"@ + spec_json_string(x.host@) + ",\"port\":"@ + spec_dec_u64(x.port as u64)
            + ",\"database_product\":"@ + spec_json_string(x.database_product@)
            + ",\"database_name\":"@ + spec_json_string(x.database_name@) + ",\"operation\":"@
            + spec_json_string(x.operation@) + "}"@,
    }
}

/// A finalized transaction as a JSON object, its span tree under
/// `nodes_stack`.
pub open spec fn spec_json_transaction(t: TransactionNode) -> Seq<char> {
    "{\"base_name\":"@ + spec_json_string(t.base_name@) + ",\"nodes_stack\":["@
        + spec_json_children_from(t.nodes_stack@, 0) + "],\"trace_node_count\":"@ + spec_dec_u64(
        t.trace_node_count,
    ) + ",\"guid\":"@ + spec_json_string(t.guid@) + ",\"path\":"@ + spec_json_string(t.path@)
        + "}"@
}

/// Relies on String::push: appends the given character to the end of
/// the string.
#[verifier::external_body]
fn push_char(s: &mut String, c: char)
    ensures
        final(s)@ == old(s)@.push(c),
{
    s.push(c);
}

fn append_dec_u64(out: &mut String, n: u64)
    ensures
        final(out)@ == old(out)@ + spec_dec_u64(n),
    decreases n,
{
    if n < 10 {
        out.append(digit_char_str(n));
        proof {
            assert(out@ =~= old(out)@ + spec_dec_u64(n));
        }
    } else {
        append_dec_u64(out, n / 10);
        out.append(digit_char_str(n % 10));
        proof {
            assert(out@ =~= old(out)@ + spec_dec_u64(n));
        }
    }
}

/// `spec_escaped` distributes over appending one character.
proof fn lemma_escaped_snoc(s: Seq<char>, c: char)
    ensures
        spec_escaped(s.push(c)) == spec_escaped(s) + spec_esc_char(c),
    decreases s.len(),
{
    let p = s.push(c);
    if s.len() == 0 {
        assert(p.len() == 1);
        assert(p[0] == c);
        assert(p.drop_first() =~= Seq::<char>::empty());
        assert(spec_escaped(p) == spec_esc_char(c) + spec_escaped(p.drop_first()));
        assert(spec_escaped(p) =~= spec_escaped(s) + spec_esc_char(c));
    } else {
        assert(p[0] == s[0]);
        assert(p.drop_first() =~= s.drop_first().push(c));
        lemma_escaped_snoc(s.drop_first(), c);
        assert(spec_escaped(p) == spec_esc_char(s[0]) + (spec_escaped(s.drop_first())
            + spec_esc_char(c)));
        assert(spec_escaped(s) == spec_esc_char(s[0]) + spec_escaped(s.drop_first()));
        assert(spec_escaped(p) =~= spec_escaped(s) + spec_esc_char(c));
    }
}

fn append_escaped(out: &mut String, s: &str)
    ensures
        final(out)@ == old(out)@ + spec_escaped(s@),
{
    let len = s.unicode_len();
    let mut i: usize = 0;
    proof {
        assert(s@.subrange(0, 0) =~= Seq::<char>::empty());
        assert(out@ =~= old(out)@ + spec_escaped(s@.subrange(0, 0)));
    }
    while i < len
        invariant
            i <= len,
            len == s@.len(),
            out@ == old(out)@ + spec_escaped(s@.subrange(0, i as int)),
        decreases len - i,
    {
        let c = s.get_char(i);
        if c == '"' {
            out.append("\\\"");
            proof {
                reveal_strlit("\\\"");
            }
        } else if c == '\\' {
            out.append("\\\\");
            proof {
                reveal_strlit("\\\\");
            }
        } else if (c as u32) < 32 {
            let code: u32 = c as u32;
            out.append("\\u00");
            out.append(digit_char_str((code / 16) as u64));
            out.append(digit_char_str((code % 16) as u64));
            proof {
                reveal_strlit("\\u00");
            }
        } else {
            push_char(out, c);
        }
        proof {
            lemma_escaped_snoc(s@.subrange(0, i as int), s@[i as int]);
            assert(s@.subrange(0, i + 1 as int) =~= s@.subrange(0, i as int).push(s@[i as int]));
            assert(out@ =~= old(out)@ + spec_escaped(s@.subrange(0, i + 1 as int)));
        }
        i = i + 1;
    }
    proof {
        assert(s@.subrange(0, s@.len() as int) =~= s@);
    }
}

fn append_json_string(out: &mut String, s: &str)
    ensures
        final(out)@ == old(out)@ + spec_json_string(s@),
{
    proof {
        reveal_strlit("\"");
    }
    out.append("\"");
    append_escaped(out, s);
    out.append("\"");
    proof {
        assert(out@ =~= old(out)@ + spec_json_string(s@));
    }
}

/// One step of reassociation while a builder accumulates its output.
proof fn lemma_reassoc(base: Seq<char>, acc: Seq<char>, d: Seq<char>)
    ensures
        (base + acc) + d == base + (acc + d),
{
    assert((base + acc) + d =~= base + (acc + d));
}

fn append_json_children_from(out: &mut String, v: &Vec<StackNode>, i: usize)
    requires
        i <= v@.len(),
    ensures
        final(out)@ == old(out)@ + spec_json_children_from(v@, i as int),
    decreases v@, v@.len() - i, 0int,
{
    if i >= v.len() {
        proof {
            assert(out@ =~= old(out)@ + spec_json_children_from(v@, i as int));
        }
        return ;
    }
    append_json_node(out, &v[i]);
    if i + 1 < v.len() {
        out.append(",");
        append_json_children_from(out, v, i + 1);
    }
    proof {
        assert(out@ =~= old(out)@ + spec_json_children_from(v@, i as int));
    }
}

fn append_json_node(out: &mut String, n: &StackNode)
    ensures
        final(out)@ == old(out)@ + spec_json_node(*n),
    decreases *n, 0int, 1int,
{
    match n {
        StackNode::Func(x) => append_func_node(out, x, Ghost(*n)),
        StackNode::External(x) => append_external_node(out, x, Ghost(*n)),
        StackNode::Database(x) => append_database_node(out, x, Ghost(*n)),
        StackNode::Cache(x) => append_cache_node(out, x, Ghost(*n)),
    }
}

fn append_func_node(out: &mut String, x: &FuncNode, n: Ghost<StackNode>)
    requires
        n@ == StackNode::Func(*x),
    ensures
        final(out)@ == old(out)@ + spec_json_node(n@),
    decreases *x, 0int, 0int,
{
    {
        {
            out.append("{\"type\":\"Func\",\"node_id\":");
            let ghost mut acc: Seq<char> = "{\"type\":\"Func\",\"node_id\":"@;
            proof {
                assert(out@ == old(out)@ + acc);
            }
            append_dec_u64(out, x.node_id);
            proof {
                lemma_reassoc(old(out)@, acc, spec_dec_u64(x.node_id));
                acc = acc + spec_dec_u64(x.node_id);
            }
            out.append(",\"childrens\":[");
            proof {
                lemma_reassoc(old(out)@, acc, ",\"childrens\":["@);
                acc = acc + ",\"childrens\":["@;
            }
            append_json_children_from(out, &x.childrens, 0);
            proof {
                lemma_reassoc(old(out)@, acc, spec_json_children_from(x.childrens@, 0));
                acc = acc + spec_json_children_from(x.childrens@, 0);
            }
            out.append("],\"start_time\":");
            proof {
                lemma_reassoc(old(out)@, acc, "],\"start_time\":"@);
                acc = acc + "],\"start_time\":"@;
            }
            append_dec_u64(out, x.start_time);
            proof {
                lemma_reassoc(old(out)@, acc, spec_dec_u64(x.start_time));
                acc = acc + spec_dec_u64(x.start_time);
            }
            out.append(",\"end_time\":");
            proof {
                lemma_reassoc(old(out)@, acc, ",\"end_time\":"@);
                acc = acc + ",\"end_time\":"@;
            }
            append_dec_u64(out, x.end_time);
            proof {
                lemma_reassoc(old(out)@, acc, spec_dec_u64(x.end_time));
                acc = acc + spec_dec_u64(x.end_time);
            }
            out.append(",\"exclusive\":");
            proof {
                lemma_reassoc(old(out)@, acc, ",\"exclusive\":"@);
                acc = acc + ",\"exclusive\":"@;
            }
            append_dec_u64(out, x.exclusive);
            proof {
                lemma_reassoc(old(out)@, acc, spec_dec_u64(x.exclusive));
                acc = acc + spec_dec_u64(x.exclusive);
            }
            out.append(",\"duration\":");
            proof {
                lemma_reassoc(old(out)@, acc, ",\"duration\":"@);
                acc = acc + ",\"duration\":"@;
            }
            append_dec_u64(out, x.duration);
            proof {
                lemma_reassoc(old(out)@, acc, spec_dec_u64(x.duration));
                acc = acc + spec_dec_u64(x.duration);
            }
            out.append(",\"func_name\":");
            proof {
                lemma_reassoc(old(out)@, acc, ",\"func_name\":"@);
                acc = acc + ",\"func_name\":"@;
            }
            append_json_string(out, x.func_name.as_str());
            proof {
                lemma_reassoc(old(out)@, acc, spec_json_string(x.func_name@));
                acc = acc + spec_json_string(x.func_name@);
            }
            out.append("}");
            proof {
                lemma_reassoc(old(out)@, acc, "}"@);
                acc = acc + "}"@;
            }
            proof {
                assert(out@ == old(out)@ + acc);
                assert(acc == spec_json_node(n@));
            }
        }
    }
}

fn append_external_node(out: &mut String, x: &ExternalNode, n: Ghost<StackNode>)
    requires
        n@ == StackNode::External(*x),
    ensures
        final(out)@ == old(out)@ + spec_json_node(n@),
    decreases *x, 0int, 0int,
{
    {
        {
            out.append("{\"type\":\"External\",\"node_id\":");
            let ghost mut acc: Seq<char> = "{\"type\":\"External\",\"node_id\":"@;
            proof {
                assert(out@ == old(out)@ + acc);
            }
            append_dec_u64(out, x.node_id);
            proof {
                lemma_reassoc(old(out)@, acc, spec_dec_u64(x.node_id));
                acc = acc + spec_dec_u64(x.node_id);
            }
            out.append(",\"childrens\":[");
            proof {
                lemma_reassoc(old(out)@, acc, ",\"childrens\":["@);
                acc = acc + ",\"childrens\":["@;
            }
            append_json_children_from(out, &x.childrens, 0);
            proof {
                lemma_reassoc(old(out)@, acc, spec_json_children_from(x.childrens@, 0));
                acc = acc + spec_json_children_from(x.childrens@, 0);
            }
            out.append("],\"start_time\":");
            proof {
                lemma_reassoc(old(out)@, acc, "],\"start_time\":"@);
                acc = acc + "],\"start_time\":"@;
            }
            append_dec_u64(out, x.start_time);
            proof {
                lemma_reassoc(old(out)@, acc, spec_dec_u64(x.start_time));
                acc = acc + spec_dec_u64(x.start_time);
            }
            out.append(",\"end_time\":");
            proof {
                lemma_reassoc(old(out)@, acc, ",\"end_time\":"@);
                acc = acc + ",\"end_time\":"@;
            }
            append_dec_u64(out, x.end_time);
            proof {
                lemma_reassoc(old(out)@, acc, spec_dec_u64(x.end_time));
                acc = acc + spec_dec_u64(x.end_time);
            }
            out.append(",\"exclusive\":");
            proof {
                lemma_reassoc(old(out)@, acc, ",\"exclusive\":"@);
                acc = acc + ",\"exclusive\":"@;
            }
            append_dec_u64(out, x.exclusive);
            proof {
                lemma_reassoc(old(out)@, acc, spec_dec_u64(x.exclusive));
                acc = acc + spec_dec_u64(x.exclusive);
            }
            out.append(",\"duration\":");
            proof {
                lemma_reassoc(old(out)@, acc, ",\"duration\":"@);
                acc = acc + ",\"duration\":"@;
            }
            append_dec_u64(out, x.duration);
            proof {
                lemma_reassoc(old(out)@, acc, spec_dec_u64(x.duration));
                acc = acc + spec_dec_u64(x.duration);
            }
            out.append(",\"host\":");
            proof {
                lemma_reassoc(old(out)@, acc, ",\"host\":"@);
                acc = acc + ",\"host\":"@;
            }
            append_json_string(out, x.host.as_str());
            proof {
                lemma_reassoc(old(out)@, acc, spec_json_string(x.host@));
                acc = acc + spec_json_string(x.host@);
            }
            out.append(",\"port\":");
            proof {
                lemma_reassoc(old(out)@, acc, ",\"port\":"@);
                acc = acc + ",\"port\":"@;
            }
            append_dec_u64(out, x.port as u64);
            proof {
                lemma_reassoc(old(out)@, acc, spec_dec_u64(x.port as u64));
                acc = acc + spec_dec_u64(x.port as u64);
            }
            out.append(",\"library\":");
            proof {
                lemma_reassoc(old(out)@, acc, ",\"library\":"@);
                acc = acc + ",\"library\":"@;
            }
            append_json_string(out, x.library.as_str());
            proof {
                lemma_reassoc(old(out)@, acc, spec_json_string(x.library@));
                acc = acc + spec_json_string(x.library@);
            }
            out.append(",\"method\":");
            proof {
                lemma_reassoc(old(out)@, acc, ",\"method\":"@);
                acc = acc + ",\"method\":"@;
            }
            append_json_string(out, x.method.as_str());
            proof {
                lemma_reassoc(old(out)@, acc, spec_json_string(x.method@));
                acc = acc + spec_json_string(x.method@);
            }
            out.append(",\"path\":");
            proof {
                lemma_reassoc(old(out)@, acc, ",\"path\":"@);
                acc = acc + ",\"path\":"@;
            }
            append_json_string(out, x.path.as_str());
            proof {
                lemma_reassoc(old(out)@, acc, spec_json_string(x.path@));
                acc = acc + spec_json_string(x.path@);
            }
            out.append("}");
            proof {
                lemma_reassoc(old(out)@, acc, "}"@);
                acc = acc + "}"@;
            }
            proof {
                assert(out@ == old(out)@ + acc);
                assert(acc == spec_json_node(n@));
            }
        }
    }
}

fn append_database_node(out: &mut String, x: &DatabaseNode, n: Ghost<StackNode>)
    requires
        n@ == StackNode::Database(*x),
    ensures
        final(out)@ == old(out)@ + spec_json_node(n@),
    decreases *x, 0int, 0int,
{
    {
        {
            out.append("{\"type\":\"Database\",\"node_id\":");
            let ghost mut acc: Seq<char> = "{\"type\":\"Database\",\"node_id\":"@;
            proof {
                assert(out@ == old(out)@ + acc);
            }
            append_dec_u64(out, x.node_id);
            proof {
                lemma_reassoc(old(out)@, acc, spec_dec_u64(x.node_id));
                acc = acc + spec_dec_u64(x.node_id);
            }
            out.append(",\"childrens\":[");
            proof {
                lemma_reassoc(old(out)@, acc, ",\"childrens\":["@);
                acc = acc + ",\"childrens\":["@;
            }
            append_json_children_from(out, &x.childrens, 0);
            proof {
                lemma_reassoc(old(out)@, acc, spec_json_children_from(x.childrens@, 0));
                acc = acc + spec_json_children_from(x.childrens@, 0);
            }
            out.append("],\"start_time\":");
            proof {
                lemma_reassoc(old(out)@, acc, "],\"start_time\":"@);
                acc = acc + "],\"start_time\":"@;
            }
            append_dec_u64(out, x.start_time);
            proof {
                lemma_reassoc(old(out)@, acc, spec_dec_u64(x.start_time));
                acc = acc + spec_dec_u64(x.start_time);
            }
            out.append(",\"end_time\":");
            proof {
                lemma_reassoc(old(out)@, acc, ",\"end_time\":"@);
                acc = acc + ",\"end_time\":"@;
            }
            append_dec_u64(out, x.end_time);
            proof {
                lemma_reassoc(old(out)@, acc, spec_dec_u64(x.end_time));
                acc = acc + spec_dec_u64(x.end_time);
            }
            out.append(",\"exclusive\":");
            proof {
                lemma_reassoc(old(out)@, acc, ",\"exclusive\":"@);
                acc = acc + ",\"exclusive\":"@;
            }
            append_dec_u64(out, x.exclusive);
            proof {
                lemma_reassoc(old(out)@, acc, spec_dec_u64(x.exclusive));
                acc = acc + spec_dec_u64(x.exclusive);
            }
            out.append(",\"duration\":");
            proof {
                lemma_reassoc(old(out)@, acc, ",\"duration\":"@);
                acc = acc + ",\"duration\":"@;
            }
            append_dec_u64(out, x.duration);
            proof {
                lemma_reassoc(old(out)@, acc, spec_dec_u64(x.duration));
                acc = acc + spec_dec_u64(x.duration);
            }
            out.append(",\"host\":");
            proof {
                lemma_reassoc(old(out)@, acc, ",\"host\":"@);
                acc = acc + ",\"host\":"@;
            }
            append_json_string(out, x.host.as_str());
            proof {
                lemma_reassoc(old(out)@, acc, spec_json_string(x.host@));
                acc = acc + spec_json_string(x.host@);
            }
            out.append(",\"port\":");
            proof {
                lemma_reassoc(old(out)@, acc, ",\"port\":"@);
                acc = acc + ",\"port\":"@;
            }
            append_dec_u64(out, x.port as u64);
            proof {
                lemma_reassoc(old(out)@, acc, spec_dec_u64(x.port as u64));
                acc = acc + spec_dec_u64(x.port as u64);
            }
            out.append(",\"database_product\":");
            proof {
                lemma_reassoc(old(out)@, acc, ",\"database_product\":"@);
                acc = acc + ",\"database_product\":"@;
            }
            append_json_string(out, x.database_product.as_str());
            proof {
                lemma_reassoc(old(out)@, acc, spec_json_string(x.database_product@));
                acc = acc + spec_json_string(x.database_product@);
            }
            out.append(",\"database_name\":");
            proof {
                lemma_reassoc(old(out)@, acc, ",\"database_name\":"@);
                acc = acc + ",\"database_name\":"@;
            }
            append_json_string(out, x.database_name.as_str());
            proof {
                lemma_reassoc(old(out)@, acc, spec_json_string(x.database_name@));
                acc = acc + spec_json_string(x.database_name@);
            }
            out.append(",\"operation\":");
            proof {
                lemma_reassoc(old(out)@, acc, ",\"operation\":"@);
                acc = acc + ",\"operation\":"@;
            }
            append_json_string(out, x.operation.as_str());
            proof {
                lemma_reassoc(old(out)@, acc, spec_json_string(x.operation@));
                acc = acc + spec_json_string(x.operation@);
            }
            out.append(",\"target\":");
            proof {
                lemma_reassoc(old(out)@, acc, ",\"target\":"@);
                acc = acc + ",\"target\":"@;
            }
            append_json_string(out, x.target.as_str());
            proof {
                lemma_reassoc(old(out)@, acc, spec_json_string(x.target@));
                acc = acc + spec_json_string(x.target@);
            }
            out.append(",\"sql\":");
            proof {
                lemma_reassoc(old(out)@, acc, ",\"sql\":"@);
                acc = acc + ",\"sql\":"@;
            }
            append_json_string(out, x.sql.as_str());
            proof {
                lemma_reassoc(old(out)@, acc, spec_json_string(x.sql@));
                acc = acc + spec_json_string(x.sql@);
            }
            out.append("}");
            proof {
                lemma_reassoc(old(out)@, acc, "}"@);
                acc = acc + "}"@;
            }
            proof {
                assert(out@ == old(out)@ + acc);
                assert(acc == spec_json_node(n@));
            }
        }
    }
}

fn append_cache_node(out: &mut String, x: &CacheNode, n: Ghost<StackNode>)
    requires
        n@ == StackNode::Cache(*x),
    ensures
        final(out)@ == old(out)@ + spec_json_node(n@),
    decreases *x, 0int, 0int,
{
    {
        {
            out.append("{\"type\":\"Cache\",\"node_id\":");
            let ghost mut acc: Seq<char> = "{\"type\":\"Cache\",\"node_id\":"@;
            proof {
                assert(out@ == old(out)@ + acc);
            }
            append_dec_u64(out, x.node_id);
            proof {
                lemma_reassoc(old(out)@, acc, spec_dec_u64(x.node_id));
                acc = acc + spec_dec_u64(x.node_id);
            }
            out.append(",\"childrens\":[");
            proof {
                lemma_reassoc(old(out)@, acc, ",\"childrens\":["@);
                acc = acc + ",\"childrens\":["@;
            }
            append_json_children_from(out, &x.childrens, 0);
            proof {
                lemma_reassoc(old(out)@, acc, spec_json_children_from(x.childrens@, 0));
                acc = acc + spec_json_children_from(x.childrens@, 0);
            }
            out.append("],\"start_time\":");
            proof {
                lemma_reassoc(old(out)@, acc, "],\"start_time\":"@);
                acc = acc + "],\"start_time\":"@;
            }
            append_dec_u64(out, x.start_time);
            proof {
                lemma_reassoc(old(out)@, acc, spec_dec_u64(x.start_time));
                acc = acc + spec_dec_u64(x.start_time);
            }
            out.append(",\"end_time\":");
            proof {
                lemma_reassoc(old(out)@, acc, ",\"end_time\":"@);
                acc = acc + ",\"end_time\":"@;
            }
            append_dec_u64(out, x.end_time);
            proof {
                lemma_reassoc(old(out)@, acc, spec_dec_u64(x.end_time));
                acc = acc + spec_dec_u64(x.end_time);
            }
            out.append(",\"exclusive\":");
            proof {
                lemma_reassoc(old(out)@, acc, ",\"exclusive\":"@);
                acc = acc + ",\"exclusive\":"@;
            }
            append_dec_u64(out, x.exclusive);
            proof {
                lemma_reassoc(old(out)@, acc, spec_dec_u64(x.exclusive));
                acc = acc + spec_dec_u64(x.exclusive);
            }
            out.append(",\"duration\":");
            proof {
                lemma_reassoc(old(out)@, acc, ",\"duration\":"@);
                acc = acc + ",\"duration\":"@;
            }
            append_dec_u64(out, x.duration);
            proof {
                lemma_reassoc(old(out)@, acc, spec_dec_u64(x.duration));
                acc = acc + spec_dec_u64(x.duration);
            }
            out.append(",\"host\":");
            proof {
                lemma_reassoc(old(out)@, acc, ",\"host\":"@);
                acc = acc + ",\"host\":"@;
            }
            append_json_string(out, x.host.as_str());
            proof {
                lemma_reassoc(old(out)@, acc, spec_json_string(x.host@));
                acc = acc + spec_json_string(x.host@);
            }
            out.append(",\"port\":");
            proof {
                lemma_reassoc(old(out)@, acc, ",\"port\":"@);
                acc = acc + ",\"port\":"@;
            }
            append_dec_u64(out, x.port as u64);
            proof {
                lemma_reassoc(old(out)@, acc, spec_dec_u64(x.port as u64));
                acc = acc + spec_dec_u64(x.port as u64);
            }
            out.append(",\"database_product\":");
            proof {
                lemma_reassoc(old(out)@, acc, ",\"database_product\":"@);
                acc = acc + ",\"database_product\":"@;
            }
            append_json_string(out, x.database_product.as_str());
            proof {
                lemma_reassoc(old(out)@, acc, spec_json_string(x.database_product@));
                acc = acc + spec_json_string(x.database_product@);
            }
            out.append(",\"database_name\":");
            proof {
                lemma_reassoc(old(out)@, acc, ",\"database_name\":"@);
                acc = acc + ",\"database_name\":"@;
            }
            append_json_string(out, x.database_name.as_str());
            proof {
                lemma_reassoc(old(out)@, acc, spec_json_string(x.database_name@));
                acc = acc + spec_json_string(x.database_name@);
            }
            out.append(",\"operation\":");
            proof {
                lemma_reassoc(old(out)@, acc, ",\"operation\":"@);
                acc = acc + ",\"operation\":"@;
            }
            append_json_string(out, x.operation.as_str());
            proof {
                lemma_reassoc(old(out)@, acc, spec_json_string(x.operation@));
                acc = acc + spec_json_string(x.operation@);
            }
            out.append("}");
            proof {
                lemma_reassoc(old(out)@, acc, "}"@);
                acc = acc + "}"@;
            }
            proof {
                assert(out@ == old(out)@ + acc);
                assert(acc == spec_json_node(n@));
            }
        }
    }
}

/// Render a finalized transaction as its wire JSON.
pub fn json_transaction_string(t: &TransactionNode) -> (r: String)
    ensures
        r@ == spec_json_transaction(*t),
{
    let mut out = String::new();
    out.append("{\"base_name\":");
    append_json_string(&mut out, t.base_name.as_str());
    out.append(",\"nodes_stack\":[");
    append_json_children_from(&mut out, &t.nodes_stack, 0);
    out.append("],\"trace_node_count\":");
    append_dec_u64(&mut out, t.trace_node_count);
    out.append(",\"guid\":");
    append_json_string(&mut out, t.guid.as_str());
    out.append(",\"path\":");
    append_json_string(&mut out, t.path.as_str());
    out.append("}");
    proof {
        assert(out@ =~= spec_json_transaction(*t));
    }
    out
}

} // verus!
