//! The recursive, owned value type of the protocol, and its bridge to the
//! native tagged-union representation.
//!
//! [`to_mpv_node`] encodes a [`Node`] into a [`WireNode`] tree, allocating
//! on the modeled native heap exactly as the native side would;
//! [`from_mpv_node`] decodes a wire tree back into an owned [`Node`];
//! [`free_node_contents`] is the structurally symmetric release path of
//! every allocation the encode path makes.

use vstd::prelude::*;
use vstd::utf8::decode_utf8;
use vstd::utf8::encode_utf8;
use vstd::utf8::valid_utf8;

use crate::error::Error;
use crate::protocol::mpv_error;
use crate::protocol::MPV_FORMAT_BYTE_ARRAY;
use crate::protocol::MPV_FORMAT_DOUBLE;
use crate::protocol::MPV_FORMAT_FLAG;
use crate::protocol::MPV_FORMAT_INT64;
use crate::protocol::MPV_FORMAT_NODE_ARRAY;
use crate::protocol::MPV_FORMAT_NODE_MAP;
use crate::protocol::MPV_FORMAT_NONE;
use crate::protocol::MPV_FORMAT_STRING;
use crate::wire::cbuf_body;
use crate::wire::cbuf_wf;
use crate::wire::has_nul;
use crate::wire::key_view;
use crate::wire::keys_view;
use crate::wire::key_list_allocs;
use crate::wire::staged_cstr;
use crate::wire::wire_allocs;
use crate::wire::wire_list_allocs;
use crate::wire::wire_node_view;
use crate::wire::wire_nodes_view;
use crate::wire::CBuf;
use crate::wire::NativeHeap;
use crate::wire::WireByteArray;
use crate::wire::WireList;
use crate::wire::WireNode;
use crate::wire::WireNodeView;
use crate::wire::WirePayload;
use crate::wire::WirePayloadView;

verus! {

/// Any value the protocol can carry: a closed, recursive sum type.
///
/// A 64-bit float is carried as its IEEE 754 bit pattern, so that the
/// variant is plain data; the unverified boundary converts.  A map is a
/// sequence of key-value pairs whose keys are unique and whose order is
/// not significant.
#[derive(Debug)]
pub enum Node {
    Null,
    String(String),
    Int(i64),
    Double(u64),
    Bool(bool),
    ByteArray(Vec<u8>),
    Array(Vec<Node>),
    Dict(Vec<(String, Node)>),
}

/// Mathematical image of a [`Node`].
pub enum NodeView {
    Null,
    String(Seq<char>),
    Int(i64),
    Double(u64),
    Bool(bool),
    ByteArray(Seq<u8>),
    Array(Seq<NodeView>),
    Dict(Seq<(Seq<char>, NodeView)>),
}

/// View of a value tree.
pub open spec fn node_view(n: Node) -> NodeView
    decreases n,
{
    match n {
        Node::Null => NodeView::Null,
        Node::String(s) => NodeView::String(s@),
        Node::Int(i) => NodeView::Int(i),
        Node::Double(b) => NodeView::Double(b),
        Node::Bool(b) => NodeView::Bool(b),
        Node::ByteArray(d) => NodeView::ByteArray(d@),
        Node::Array(vs) => NodeView::Array(nodes_view(vs@)),
        Node::Dict(ps) => NodeView::Dict(pairs_view(ps@)),
    }
}

/// View of a sequence of value trees.
pub open spec fn nodes_view(vs: Seq<Node>) -> Seq<NodeView>
    decreases vs,
{
    if vs.len() == 0 {
        Seq::empty()
    } else {
        nodes_view(vs.drop_last()).push(node_view(vs.last()))
    }
}

/// View of a sequence of key-value pairs.
pub open spec fn pairs_view(ps: Seq<(String, Node)>) -> Seq<(Seq<char>, NodeView)>
    decreases ps,
{
    if ps.len() == 0 {
        Seq::empty()
    } else {
        pairs_view(ps.drop_last()).push((ps.last().0@, node_view(ps.last().1)))
    }
}

impl View for Node {
    type V = NodeView;

    open spec fn view(&self) -> NodeView {
        node_view(*self)
    }
}

/// The native format tag that encoding a value produces: the static tag of
/// each scalar shape, the list tag for arrays, the map tag for maps.
pub open spec fn node_format_tag(n: NodeView) -> i32 {
    match n {
        NodeView::Null => MPV_FORMAT_NONE,
        NodeView::String(_) => MPV_FORMAT_STRING,
        NodeView::Int(_) => MPV_FORMAT_INT64,
        NodeView::Double(_) => MPV_FORMAT_DOUBLE,
        NodeView::Bool(_) => MPV_FORMAT_FLAG,
        NodeView::ByteArray(_) => MPV_FORMAT_BYTE_ARRAY,
        NodeView::Array(_) => MPV_FORMAT_NODE_ARRAY,
        NodeView::Dict(_) => MPV_FORMAT_NODE_MAP,
    }
}

/// Whether a value can be staged for the native side: no text in it — no
/// string, no map key — holds an embedded terminator byte.
pub open spec fn encodable(n: NodeView) -> bool
    decreases n,
{
    match n {
        NodeView::String(s) => !has_nul(encode_utf8(s)),
        NodeView::Array(vs) => nodes_encodable(vs),
        NodeView::Dict(ps) => pairs_encodable(ps),
        _ => true,
    }
}

/// Whether every value of a sequence can be staged.
pub open spec fn nodes_encodable(vs: Seq<NodeView>) -> bool
    decreases vs,
{
    if vs.len() == 0 {
        true
    } else {
        nodes_encodable(vs.drop_last()) && encodable(vs.last())
    }
}

/// Whether every pair of a sequence can be staged.
pub open spec fn pairs_encodable(ps: Seq<(Seq<char>, NodeView)>) -> bool
    decreases ps,
{
    if ps.len() == 0 {
        true
    } else {
        pairs_encodable(ps.drop_last()) && !has_nul(encode_utf8(ps.last().0))
            && encodable(ps.last().1)
    }
}

/// How many native allocations encoding a value makes: one buffer per
/// text, a record and a buffer per byte array, a record and a values array
/// per list, additionally a keys array and one buffer per key for a map.
pub open spec fn node_allocs(n: NodeView) -> nat
    decreases n,
{
    match n {
        NodeView::Null => 0,
        NodeView::String(_) => 1,
        NodeView::Int(_) => 0,
        NodeView::Double(_) => 0,
        NodeView::Bool(_) => 0,
        NodeView::ByteArray(_) => 2,
        NodeView::Array(vs) => 2 + nodes_allocs(vs),
        NodeView::Dict(ps) => 3 + pairs_allocs(ps),
    }
}

/// Allocations for encoding each value of a sequence, summed.
pub open spec fn nodes_allocs(vs: Seq<NodeView>) -> nat
    decreases vs,
{
    if vs.len() == 0 {
        0
    } else {
        nodes_allocs(vs.drop_last()) + node_allocs(vs.last())
    }
}

/// Allocations for encoding each pair of a sequence: one key buffer plus
/// the value's own allocations, summed.
pub open spec fn pairs_allocs(ps: Seq<(Seq<char>, NodeView)>) -> nat
    decreases ps,
{
    if ps.len() == 0 {
        0
    } else {
        pairs_allocs(ps.drop_last()) + 1 + node_allocs(ps.last().1)
    }
}

/// The wire tree that encoding a value produces.
pub open spec fn wire_of(n: NodeView) -> WireNodeView
    decreases n,
{
    match n {
        NodeView::Null => WireNodeView {
            format: MPV_FORMAT_NONE,
            payload: WirePayloadView::Nothing,
        },
        NodeView::String(s) => WireNodeView {
            format: MPV_FORMAT_STRING,
            payload: WirePayloadView::Str(staged_cstr(s)),
        },
        NodeView::Int(i) => WireNodeView {
            format: MPV_FORMAT_INT64,
            payload: WirePayloadView::Int64(i),
        },
        NodeView::Double(b) => WireNodeView {
            format: MPV_FORMAT_DOUBLE,
            payload: WirePayloadView::DoubleBits(b),
        },
        NodeView::Bool(b) => WireNodeView {
            format: MPV_FORMAT_FLAG,
            payload: WirePayloadView::Flag(if b { 1i32 } else { 0i32 }),
        },
        NodeView::ByteArray(d) => WireNodeView {
            format: MPV_FORMAT_BYTE_ARRAY,
            payload: WirePayloadView::Bytes(d),
        },
        NodeView::Array(vs) => WireNodeView {
            format: MPV_FORMAT_NODE_ARRAY,
            payload: WirePayloadView::List(wires_of(vs), None),
        },
        NodeView::Dict(ps) => WireNodeView {
            format: MPV_FORMAT_NODE_MAP,
            payload: WirePayloadView::List(wires_of_values(ps), Some(keys_of(ps))),
        },
    }
}

/// The wire trees that encoding each value of a sequence produces.
pub open spec fn wires_of(vs: Seq<NodeView>) -> Seq<WireNodeView>
    decreases vs,
{
    if vs.len() == 0 {
        Seq::empty()
    } else {
        wires_of(vs.drop_last()).push(wire_of(vs.last()))
    }
}

/// The wire trees that encoding the values of a pair sequence produces.
pub open spec fn wires_of_values(ps: Seq<(Seq<char>, NodeView)>) -> Seq<WireNodeView>
    decreases ps,
{
    if ps.len() == 0 {
        Seq::empty()
    } else {
        wires_of_values(ps.drop_last()).push(wire_of(ps.last().1))
    }
}

/// The staged key buffers that encoding a pair sequence produces.
pub open spec fn keys_of(ps: Seq<(Seq<char>, NodeView)>) -> Seq<Option<Seq<u8>>>
    decreases ps,
{
    if ps.len() == 0 {
        Seq::empty()
    } else {
        keys_of(ps.drop_last()).push(Some(staged_cstr(ps.last().0)))
    }
}

/// What `String::from_utf8_lossy` returns on arbitrary bytes.
pub uninterp spec fn lossy_utf8_of(bytes: Seq<u8>) -> Seq<char>;

/// The text a native string buffer body decodes to: its UTF-8 decoding
/// when it is valid, the lossy decoding with replacement otherwise.
pub open spec fn decoded_text(b: Seq<u8>) -> Seq<char> {
    if valid_utf8(b) {
        decode_utf8(b)
    } else {
        lossy_utf8_of(b)
    }
}

/// The value a wire tree decodes to.  A format tag outside the recognized
/// set — the protocol may introduce tags unknown to older readers — yields
/// the `None` value rather than failing.
pub open spec fn node_of(w: WireNodeView) -> NodeView
    decreases w,
{
    if w.format == MPV_FORMAT_STRING {
        match w.payload {
            WirePayloadView::Str(b) => NodeView::String(decoded_text(cbuf_body(b))),
            _ => NodeView::Null,
        }
    } else if w.format == MPV_FORMAT_INT64 {
        match w.payload {
            WirePayloadView::Int64(i) => NodeView::Int(i),
            _ => NodeView::Null,
        }
    } else if w.format == MPV_FORMAT_DOUBLE {
        match w.payload {
            WirePayloadView::DoubleBits(b) => NodeView::Double(b),
            _ => NodeView::Null,
        }
    } else if w.format == MPV_FORMAT_FLAG {
        match w.payload {
            WirePayloadView::Flag(f) => NodeView::Bool(f != 0i32),
            _ => NodeView::Null,
        }
    } else if w.format == MPV_FORMAT_BYTE_ARRAY {
        match w.payload {
            WirePayloadView::Bytes(d) => NodeView::ByteArray(d),
            _ => NodeView::Null,
        }
    } else if w.format == MPV_FORMAT_NODE_ARRAY {
        match w.payload {
            WirePayloadView::List(vs, _) => NodeView::Array(nodes_of(vs)),
            _ => NodeView::Null,
        }
    } else if w.format == MPV_FORMAT_NODE_MAP {
        match w.payload {
            WirePayloadView::List(vs, Some(ks)) => NodeView::Dict(pairs_of(vs, ks)),
            _ => NodeView::Null,
        }
    } else {
        NodeView::Null
    }
}

/// The values a sequence of wire trees decodes to.
pub open spec fn nodes_of(vs: Seq<WireNodeView>) -> Seq<NodeView>
    decreases vs,
{
    if vs.len() == 0 {
        Seq::empty()
    } else {
        nodes_of(vs.drop_last()).push(node_of(vs.last()))
    }
}

/// The pairs a parallel pair of wire-tree and key arrays decodes to.  An
/// entry whose key pointer is null is silently dropped.
pub open spec fn pairs_of(vs: Seq<WireNodeView>, ks: Seq<Option<Seq<u8>>>) -> Seq<
    (Seq<char>, NodeView),
>
    decreases vs,
{
    if vs.len() == 0 || ks.len() == 0 {
        Seq::empty()
    } else {
        pairs_of(vs.drop_last(), ks.drop_last()) + match ks.last() {
            Some(k) => seq![(decoded_text(cbuf_body(k)), node_of(vs.last()))],
            None => Seq::empty(),
        }
    }
}

/// Well-formedness of a wire tree as the decoder requires it: the format
/// tag determines the populated payload member, string buffers are
/// terminated, a map's keys array parallels its values array.  Unrecognized
/// tags carry no constraint; the decoder does not read their payload.
pub open spec fn wire_wf(w: WireNodeView) -> bool
    decreases w,
{
    if w.format == MPV_FORMAT_STRING {
        w.payload matches WirePayloadView::Str(b) && cbuf_wf(b)
    } else if w.format == MPV_FORMAT_INT64 {
        w.payload matches WirePayloadView::Int64(_)
    } else if w.format == MPV_FORMAT_DOUBLE {
        w.payload matches WirePayloadView::DoubleBits(_)
    } else if w.format == MPV_FORMAT_FLAG {
        w.payload matches WirePayloadView::Flag(_)
    } else if w.format == MPV_FORMAT_BYTE_ARRAY {
        w.payload matches WirePayloadView::Bytes(_)
    } else if w.format == MPV_FORMAT_NODE_ARRAY {
        w.payload matches WirePayloadView::List(vs, _) && wires_wf(vs)
    } else if w.format == MPV_FORMAT_NODE_MAP {
        &&& w.payload matches WirePayloadView::List(vs, ks)
        &&& wires_wf(vs)
        &&& ks matches Some(k)
        &&& k.len() == vs.len()
        &&& keys_wf(k)
    } else {
        true
    }
}

/// Well-formedness of each tree of a sequence.
pub open spec fn wires_wf(vs: Seq<WireNodeView>) -> bool
    decreases vs,
{
    if vs.len() == 0 {
        true
    } else {
        wires_wf(vs.drop_last()) && wire_wf(vs.last())
    }
}

/// Well-formedness of a keys array: every non-null key is terminated.
pub open spec fn keys_wf(ks: Seq<Option<Seq<u8>>>) -> bool
    decreases ks,
{
    if ks.len() == 0 {
        true
    } else {
        keys_wf(ks.drop_last()) && match ks.last() {
            Some(k) => cbuf_wf(k),
            None => true,
        }
    }
}

/// Relies on `String::from_utf8_lossy`: decodes the bytes as UTF-8 with
/// replacement characters for invalid sequences, and returns the decoding
/// itself whenever the bytes are valid UTF-8.  The result depends on the
/// bytes alone.
#[verifier::external_body]
pub(crate) fn from_utf8_lossy(bytes: &Vec<u8>) -> (r: String)
    ensures
        r@ == lossy_utf8_of(bytes@),
        valid_utf8(bytes@) ==> r@ == decode_utf8(bytes@),
{
    String::from_utf8_lossy(bytes.as_slice()).into_owned()
}

/// Copy a byte buffer.
fn copy_bytes(v: &Vec<u8>) -> (r: Vec<u8>)
    ensures
        r@ == v@,
{
    let mut r: Vec<u8> = Vec::new();
    let mut i: usize = 0;
    while i < v.len()
        invariant
            0 <= i <= v@.len(),
            r@ == v@.take(i as int),
        decreases v@.len() - i,
    {
        r.push(v[i]);
        proof {
            assert(r@ =~= v@.take(i + 1 as int));
        }
        i = i + 1;
    }
    proof {
        assert(v@.take(v@.len() as int) =~= v@);
    }
    r
}

/// Views of a node sequence: same length, element by element.
proof fn lemma_nodes_view_props(vs: Seq<Node>)
    ensures
        nodes_view(vs).len() == vs.len(),
        forall|i: int| 0 <= i < vs.len() ==> nodes_view(vs)[i] == node_view(vs[i]),
    decreases vs,
{
    if vs.len() > 0 {
        lemma_nodes_view_props(vs.drop_last());
        assert forall|i: int| 0 <= i < vs.len() implies nodes_view(vs)[i] == node_view(vs[i]) by {
            if i < vs.len() - 1 {
                assert(vs.drop_last()[i] == vs[i]);
            }
        }
    }
}

/// Views of a pair sequence: same length, element by element.
proof fn lemma_pairs_view_props(ps: Seq<(String, Node)>)
    ensures
        pairs_view(ps).len() == ps.len(),
        forall|i: int|
            0 <= i < ps.len() ==> pairs_view(ps)[i] == (ps[i].0@, node_view(ps[i].1)),
    decreases ps,
{
    if ps.len() > 0 {
        lemma_pairs_view_props(ps.drop_last());
        assert forall|i: int|
            0 <= i < ps.len() implies pairs_view(ps)[i] == (ps[i].0@, node_view(ps[i].1)) by {
            if i < ps.len() - 1 {
                assert(ps.drop_last()[i] == ps[i]);
            }
        }
    }
}

/// Every element of an encodable sequence is encodable.
proof fn lemma_nodes_encodable_index(vs: Seq<NodeView>, i: int)
    requires
        nodes_encodable(vs),
        0 <= i < vs.len(),
    ensures
        encodable(vs[i]),
    decreases vs,
{
    if i < vs.len() - 1 {
        lemma_nodes_encodable_index(vs.drop_last(), i);
        assert(vs.drop_last()[i] == vs[i]);
    }
}

/// Every pair of an encodable pair sequence has a stageable key and an
/// encodable value.
proof fn lemma_pairs_encodable_index(ps: Seq<(Seq<char>, NodeView)>, i: int)
    requires
        pairs_encodable(ps),
        0 <= i < ps.len(),
    ensures
        !has_nul(encode_utf8(ps[i].0)),
        encodable(ps[i].1),
    decreases ps,
{
    if i < ps.len() - 1 {
        lemma_pairs_encodable_index(ps.drop_last(), i);
        assert(ps.drop_last()[i] == ps[i]);
    }
}

/// A prefix never needs more allocations than the whole sequence.
proof fn lemma_nodes_allocs_take_le(vs: Seq<NodeView>, i: int)
    requires
        0 <= i <= vs.len(),
    ensures
        nodes_allocs(vs.take(i)) <= nodes_allocs(vs),
    decreases vs,
{
    if i == vs.len() {
        assert(vs.take(i) =~= vs);
    } else {
        assert(vs.take(i) =~= vs.drop_last().take(i));
        lemma_nodes_allocs_take_le(vs.drop_last(), i);
    }
}

/// Extending a prefix by one element adds that element's allocations.
proof fn lemma_nodes_allocs_take_step(vs: Seq<NodeView>, i: int)
    requires
        0 <= i < vs.len(),
    ensures
        nodes_allocs(vs.take(i + 1)) == nodes_allocs(vs.take(i)) + node_allocs(vs[i]),
{
    assert(vs.take(i + 1).drop_last() =~= vs.take(i));
    assert(vs.take(i + 1).last() == vs[i]);
}

/// A prefix never needs more allocations than the whole pair sequence.
proof fn lemma_pairs_allocs_take_le(ps: Seq<(Seq<char>, NodeView)>, i: int)
    requires
        0 <= i <= ps.len(),
    ensures
        pairs_allocs(ps.take(i)) <= pairs_allocs(ps),
    decreases ps,
{
    if i == ps.len() {
        assert(ps.take(i) =~= ps);
    } else {
        assert(ps.take(i) =~= ps.drop_last().take(i));
        lemma_pairs_allocs_take_le(ps.drop_last(), i);
    }
}

/// Extending a prefix by one pair adds the key buffer and the value's
/// allocations.
proof fn lemma_pairs_allocs_take_step(ps: Seq<(Seq<char>, NodeView)>, i: int)
    requires
        0 <= i < ps.len(),
    ensures
        pairs_allocs(ps.take(i + 1)) == pairs_allocs(ps.take(i)) + 1 + node_allocs(ps[i].1),
{
    assert(ps.take(i + 1).drop_last() =~= ps.take(i));
    assert(ps.take(i + 1).last() == ps[i]);
}

/// Whether a value can be staged for the native side.
pub fn is_encodable(n: &Node) -> (r: bool)
    ensures
        r == encodable(n@),
    decreases *n,
{
    match n {
        Node::Null => true,
        Node::String(s) => {
            let bytes = crate::wire::utf8_bytes(s);
            !crate::wire::bytes_contain_nul(&bytes)
        },
        Node::Int(_) => true,
        Node::Double(_) => true,
        Node::Bool(_) => true,
        Node::ByteArray(_) => true,
        Node::Array(vs) => {
            proof {
                lemma_nodes_view_props(vs@);
            }
            let mut i: usize = 0;
            let mut ok = true;
            while i < vs.len()
                invariant
                    *n == Node::Array(*vs),
                    0 <= i <= vs@.len(),
                    nodes_view(vs@).len() == vs@.len(),
                    forall|j: int|
                        0 <= j < vs@.len() ==> nodes_view(vs@)[j] == node_view(vs@[j]),
                    ok == nodes_encodable(nodes_view(vs@).take(i as int)),
                decreases vs@.len() - i,
            {
                proof {
                    assert(*n == Node::Array(*vs));
                    assert(decreases_to!(*n => n->Array_0));
                    assert(decreases_to!(*vs => vs@));
                    assert(decreases_to!(vs@ => vs@[i as int]));
                }
                let e = is_encodable(&vs[i]);
                proof {
                    let nv = nodes_view(vs@);
                    assert(nv.take(i + 1 as int).drop_last() =~= nv.take(i as int));
                    assert(nv.take(i + 1 as int).last() == nv[i as int]);
                }
                ok = ok && e;
                i = i + 1;
            }
            proof {
                assert(nodes_view(vs@).take(vs@.len() as int) =~= nodes_view(vs@));
            }
            ok
        },
        Node::Dict(ps) => {
            proof {
                lemma_pairs_view_props(ps@);
            }
            let mut i: usize = 0;
            let mut ok = true;
            while i < ps.len()
                invariant
                    *n == Node::Dict(*ps),
                    0 <= i <= ps@.len(),
                    pairs_view(ps@).len() == ps@.len(),
                    forall|j: int|
                        0 <= j < ps@.len() ==> pairs_view(ps@)[j] == (
                        ps@[j].0@,
                        node_view(ps@[j].1),
                        ),
                    ok == pairs_encodable(pairs_view(ps@).take(i as int)),
                decreases ps@.len() - i,
            {
                let pair = &ps[i];
                let kbytes = crate::wire::utf8_bytes(&pair.0);
                let key_ok = !crate::wire::bytes_contain_nul(&kbytes);
                proof {
                    assert(*n == Node::Dict(*ps));
                    assert(decreases_to!(*n => n->Dict_0));
                    assert(decreases_to!(*ps => ps@));
                    assert(decreases_to!(ps@ => ps@[i as int]));
                    assert(decreases_to!(ps@[i as int] => ps@[i as int].1));
                }
                let val_ok = is_encodable(&pair.1);
                proof {
                    let pv = pairs_view(ps@);
                    assert(pv.take(i + 1 as int).drop_last() =~= pv.take(i as int));
                    assert(pv.take(i + 1 as int).last() == pv[i as int]);
                }
                ok = ok && key_ok && val_ok;
                i = i + 1;
            }
            proof {
                assert(pairs_view(ps@).take(ps@.len() as int) =~= pairs_view(ps@));
            }
            ok
        },
    }
}

/// Encode a stageable value into a fresh wire tree, recording each native
/// allocation the native side would make.
fn encode_node(n: &Node, heap: &mut NativeHeap) -> (w: WireNode)
    requires
        encodable(n@),
        old(heap).spec_live() + node_allocs(n@) <= u64::MAX,
    ensures
        w@ == wire_of(n@),
        final(heap).spec_live() == old(heap).spec_live() + node_allocs(n@),
    decreases *n,
{
    match n {
        Node::Null => WireNode { format: MPV_FORMAT_NONE, payload: WirePayload::Nothing },
        Node::String(s) => {
            let c = match crate::wire::stage_cstr(s) {
                Ok(c) => c,
                Err(_) => unreached(),
            };
            heap.allocate();
            WireNode { format: MPV_FORMAT_STRING, payload: WirePayload::Str(c) }
        },
        Node::Int(i) => WireNode { format: MPV_FORMAT_INT64, payload: WirePayload::Int64(*i) },
        Node::Double(b) => WireNode {
            format: MPV_FORMAT_DOUBLE,
            payload: WirePayload::DoubleBits(*b),
        },
        Node::Bool(b) => WireNode {
            format: MPV_FORMAT_FLAG,
            payload: WirePayload::Flag(if *b { 1i32 } else { 0i32 }),
        },
        Node::ByteArray(d) => {
            heap.allocate();
            heap.allocate();
            WireNode {
                format: MPV_FORMAT_BYTE_ARRAY,
                payload: WirePayload::Bytes(WireByteArray { data: copy_bytes(d) }),
            }
        },
        Node::Array(vs) => {
            proof {
                lemma_nodes_view_props(vs@);
            }
            let ghost live0 = heap.spec_live();
            let ghost nv = nodes_view(vs@);
            let mut values: Vec<WireNode> = Vec::new();
            let mut i: usize = 0;
            while i < vs.len()
                invariant
                    *n == Node::Array(*vs),
                    0 <= i <= vs@.len(),
                    encodable(n@),
                    n@ == NodeView::Array(nv),
                    nv == nodes_view(vs@),
                    nv.len() == vs@.len(),
                    forall|j: int| 0 <= j < vs@.len() ==> nv[j] == node_view(vs@[j]),
                    wire_nodes_view(values@) == wires_of(nv.take(i as int)),
                    heap.spec_live() == live0 + nodes_allocs(nv.take(i as int)),
                    live0 + 2 + nodes_allocs(nv) <= u64::MAX,
                decreases vs@.len() - i,
            {
                proof {
                    lemma_nodes_encodable_index(nv, i as int);
                    lemma_nodes_allocs_take_step(nv, i as int);
                    lemma_nodes_allocs_take_le(nv, i + 1 as int);
                }
                proof {
                    assert(*n == Node::Array(*vs));
                    assert(decreases_to!(*n => n->Array_0));
                    assert(decreases_to!(*vs => vs@));
                    assert(decreases_to!(vs@ => vs@[i as int]));
                }
                let w = encode_node(&vs[i], heap);
                proof {
                    assert(values@.push(w).drop_last() =~= values@);
                    let t = nv.take(i + 1 as int);
                    assert(t.drop_last() =~= nv.take(i as int));
                    assert(t.last() == nv[i as int]);
                }
                values.push(w);
                i = i + 1;
            }
            proof {
                assert(nv.take(vs@.len() as int) =~= nv);
            }
            heap.allocate();
            heap.allocate();
            WireNode {
                format: MPV_FORMAT_NODE_ARRAY,
                payload: WirePayload::List(Box::new(WireList { values, keys: None })),
            }
        },
        Node::Dict(ps) => {
            proof {
                lemma_pairs_view_props(ps@);
            }
            let ghost live0 = heap.spec_live();
            let ghost pv = pairs_view(ps@);
            let mut values: Vec<WireNode> = Vec::new();
            let mut keys: Vec<Option<CBuf>> = Vec::new();
            let mut i: usize = 0;
            while i < ps.len()
                invariant
                    *n == Node::Dict(*ps),
                    0 <= i <= ps@.len(),
                    encodable(n@),
                    n@ == NodeView::Dict(pv),
                    pv == pairs_view(ps@),
                    pv.len() == ps@.len(),
                    forall|j: int|
                        0 <= j < ps@.len() ==> pv[j] == (ps@[j].0@, node_view(ps@[j].1)),
                    wire_nodes_view(values@) == wires_of_values(pv.take(i as int)),
                    keys_view(keys@) == keys_of(pv.take(i as int)),
                    heap.spec_live() == live0 + pairs_allocs(pv.take(i as int)),
                    live0 + 3 + pairs_allocs(pv) <= u64::MAX,
                decreases ps@.len() - i,
            {
                proof {
                    lemma_pairs_encodable_index(pv, i as int);
                    lemma_pairs_allocs_take_step(pv, i as int);
                    lemma_pairs_allocs_take_le(pv, i + 1 as int);
                }
                let pair = &ps[i];
                let key = match crate::wire::stage_cstr(&pair.0) {
                    Ok(c) => c,
                    Err(_) => unreached(),
                };
                heap.allocate();
                proof {
                    assert(*n == Node::Dict(*ps));
                    assert(decreases_to!(*n => n->Dict_0));
                    assert(decreases_to!(*ps => ps@));
                    assert(decreases_to!(ps@ => ps@[i as int]));
                    assert(decreases_to!(ps@[i as int] => ps@[i as int].1));
                }
                let w = encode_node(&pair.1, heap);
                proof {
                    assert(values@.push(w).drop_last() =~= values@);
                    assert(keys@.push(Some(key)).drop_last() =~= keys@);
                    assert(keys_view(keys@.push(Some(key))).drop_last() =~= keys_view(keys@));
                    let t = pv.take(i + 1 as int);
                    assert(t.drop_last() =~= pv.take(i as int));
                    assert(t.last() == pv[i as int]);
                }
                values.push(w);
                keys.push(Some(key));
                i = i + 1;
            }
            proof {
                assert(pv.take(ps@.len() as int) =~= pv);
            }
            heap.allocate();
            heap.allocate();
            heap.allocate();
            WireNode {
                format: MPV_FORMAT_NODE_MAP,
                payload: WirePayload::List(Box::new(WireList { values, keys: Some(keys) })),
            }
        },
    }
}

/// Views of a wire node sequence: same length, element by element.
proof fn lemma_wire_nodes_view_props(vs: Seq<WireNode>)
    ensures
        wire_nodes_view(vs).len() == vs.len(),
        forall|i: int|
            0 <= i < vs.len() ==> wire_nodes_view(vs)[i] == wire_node_view(vs[i]),
    decreases vs,
{
    if vs.len() > 0 {
        lemma_wire_nodes_view_props(vs.drop_last());
        assert forall|i: int|
            0 <= i < vs.len() implies wire_nodes_view(vs)[i] == wire_node_view(vs[i]) by {
            if i < vs.len() - 1 {
                assert(vs.drop_last()[i] == vs[i]);
            }
        }
    }
}

/// Every tree of a well-formed sequence is well-formed.
proof fn lemma_wires_wf_index(vs: Seq<WireNodeView>, i: int)
    requires
        wires_wf(vs),
        0 <= i < vs.len(),
    ensures
        wire_wf(vs[i]),
    decreases vs,
{
    if i < vs.len() - 1 {
        lemma_wires_wf_index(vs.drop_last(), i);
        assert(vs.drop_last()[i] == vs[i]);
    }
}

/// Every non-null key of a well-formed keys array is terminated.
proof fn lemma_keys_wf_index(ks: Seq<Option<Seq<u8>>>, i: int)
    requires
        keys_wf(ks),
        0 <= i < ks.len(),
    ensures
        ks[i] matches Some(k) ==> cbuf_wf(k),
    decreases ks,
{
    if i < ks.len() - 1 {
        lemma_keys_wf_index(ks.drop_last(), i);
        assert(ks.drop_last()[i] == ks[i]);
    }
}

/// Extending a decoded prefix by one tree appends its decoding.
proof fn lemma_nodes_of_take_step(vs: Seq<WireNodeView>, i: int)
    requires
        0 <= i < vs.len(),
    ensures
        nodes_of(vs.take(i + 1)) == nodes_of(vs.take(i)).push(node_of(vs[i])),
{
    assert(vs.take(i + 1).drop_last() =~= vs.take(i));
    assert(vs.take(i + 1).last() == vs[i]);
}

/// Extending a decoded pair prefix by one entry appends its decoding when
/// its key is non-null and drops it otherwise.
proof fn lemma_pairs_of_take_step(vs: Seq<WireNodeView>, ks: Seq<Option<Seq<u8>>>, i: int)
    requires
        0 <= i < vs.len(),
        0 <= i < ks.len(),
    ensures
        pairs_of(vs.take(i + 1), ks.take(i + 1)) == pairs_of(vs.take(i), ks.take(i)) + match ks[i] {
            Some(k) => seq![(decoded_text(cbuf_body(k)), node_of(vs[i]))],
            None => Seq::<(Seq<char>, NodeView)>::empty(),
        },
{
    assert(vs.take(i + 1).drop_last() =~= vs.take(i));
    assert(vs.take(i + 1).last() == vs[i]);
    assert(ks.take(i + 1).drop_last() =~= ks.take(i));
    assert(ks.take(i + 1).last() == ks[i]);
}

/// Decode a native tagged-union tree into a fully owned value.
///
/// The format tag selects the payload member read; an unrecognized tag
/// yields the `Null` value, never a failure.  A map entry whose key
/// pointer is null is silently dropped.  The wire tree is only read; its
/// release remains with [`free_node_contents`].
pub fn from_mpv_node(node: &WireNode) -> (r: Node)
    requires
        wire_wf(node@),
    ensures
        r@ == node_of(node@),
    decreases *node,
{
    let fmt = node.format;
    if fmt == MPV_FORMAT_STRING {
        match &node.payload {
            WirePayload::Str(c) => {
                let body = crate::wire::cbuf_body_exec(c);
                Node::String(from_utf8_lossy(&body))
            },
            _ => unreached(),
        }
    } else if fmt == MPV_FORMAT_INT64 {
        match &node.payload {
            WirePayload::Int64(i) => Node::Int(*i),
            _ => unreached(),
        }
    } else if fmt == MPV_FORMAT_DOUBLE {
        match &node.payload {
            WirePayload::DoubleBits(b) => Node::Double(*b),
            _ => unreached(),
        }
    } else if fmt == MPV_FORMAT_FLAG {
        match &node.payload {
            WirePayload::Flag(f) => Node::Bool(*f != 0i32),
            _ => unreached(),
        }
    } else if fmt == MPV_FORMAT_BYTE_ARRAY {
        match &node.payload {
            WirePayload::Bytes(ba) => Node::ByteArray(copy_bytes(&ba.data)),
            _ => unreached(),
        }
    } else if fmt == MPV_FORMAT_NODE_ARRAY {
        match &node.payload {
            WirePayload::List(l) => {
                proof {
                    lemma_wire_nodes_view_props(l.values@);
                }
                let ghost wv = wire_nodes_view(l.values@);
                let mut out: Vec<Node> = Vec::new();
                let mut i: usize = 0;
                while i < l.values.len()
                    invariant
                        node.format == MPV_FORMAT_NODE_ARRAY,
                        node.payload == WirePayload::List(*l),
                        wire_wf(node@),
                        0 <= i <= l.values@.len(),
                        wv == wire_nodes_view(l.values@),
                        wv.len() == l.values@.len(),
                        forall|j: int|
                            0 <= j < l.values@.len() ==> wv[j] == wire_node_view(l.values@[j]),
                        nodes_view(out@) == nodes_of(wv.take(i as int)),
                    decreases l.values@.len() - i,
                {
                    proof {
                        assert(node@.payload matches WirePayloadView::List(vs, _) && vs == wv);
                        lemma_wires_wf_index(wv, i as int);
                        lemma_nodes_of_take_step(wv, i as int);
                        assert(decreases_to!(*node => node.payload));
                        assert(decreases_to!(node.payload => node.payload->List_0));
                        assert(node.payload->List_0 == *l);
                        assert(decreases_to!(*l => l.values));
                        assert(decreases_to!(l.values => l.values@));
                        assert(decreases_to!(l.values@ => l.values@[i as int]));
                    }
                    let d = from_mpv_node(&l.values[i]);
                    proof {
                        assert(out@.push(d).drop_last() =~= out@);
                    }
                    out.push(d);
                    i = i + 1;
                }
                proof {
                    assert(wv.take(l.values@.len() as int) =~= wv);
                }
                Node::Array(out)
            },
            _ => unreached(),
        }
    } else if fmt == MPV_FORMAT_NODE_MAP {
        match &node.payload {
            WirePayload::List(l) => {
                match &l.keys {
                    Some(keys) => {
                        proof {
                            lemma_wire_nodes_view_props(l.values@);
                        }
                        let ghost wv = wire_nodes_view(l.values@);
                        let ghost kv = keys_view(keys@);
                        let mut out: Vec<(String, Node)> = Vec::new();
                        let mut i: usize = 0;
                        while i < l.values.len()
                            invariant
                                node.format == MPV_FORMAT_NODE_MAP,
                                node.payload == WirePayload::List(*l),
                                l.keys matches Some(ks) && ks == *keys,
                                wire_wf(node@),
                                0 <= i <= l.values@.len(),
                                keys@.len() == l.values@.len(),
                                wv == wire_nodes_view(l.values@),
                                kv == keys_view(keys@),
                                wv.len() == l.values@.len(),
                                kv.len() == keys@.len(),
                                forall|j: int|
                                    0 <= j < l.values@.len() ==> wv[j] == wire_node_view(
                                        l.values@[j],
                                    ),
                                pairs_view(out@) == pairs_of(wv.take(i as int), kv.take(i as int)),
                            decreases l.values@.len() - i,
                        {
                            proof {
                                assert(node@.payload matches WirePayloadView::List(vs, ks)
                                    && vs == wv && ks == Some(kv));
                                lemma_wires_wf_index(wv, i as int);
                                lemma_keys_wf_index(kv, i as int);
                                lemma_pairs_of_take_step(wv, kv, i as int);
                                assert(kv[i as int] == key_view(keys@[i as int]));
                            }
                            let entry = match &keys[i] {
                                Some(k) => {
                                    let body = crate::wire::cbuf_body_exec(k);
                                    Some(from_utf8_lossy(&body))
                                },
                                None => None,
                            };
                            proof {
                                assert(decreases_to!(*node => node.payload));
                                assert(decreases_to!(node.payload => node.payload->List_0));
                                assert(node.payload->List_0 == *l);
                                assert(decreases_to!(*l => l.values));
                                assert(decreases_to!(l.values => l.values@));
                                assert(decreases_to!(l.values@ => l.values@[i as int]));
                            }
                            let d = from_mpv_node(&l.values[i]);
                            match entry {
                                Some(key_text) => {
                                    proof {
                                        assert(out@.push((key_text, d)).drop_last() =~= out@);
                                    }
                                    out.push((key_text, d));
                                },
                                None => {},
                            }
                            i = i + 1;
                        }
                        proof {
                            assert(wv.take(l.values@.len() as int) =~= wv);
                            assert(kv.take(keys@.len() as int) =~= kv);
                        }
                        Node::Dict(out)
                    },
                    None => unreached(),
                }
            },
            _ => unreached(),
        }
    } else {
        Node::Null
    }
}

/// A prefix never owns more allocations than the whole sequence.
proof fn lemma_wire_list_allocs_take_le(vs: Seq<WireNodeView>, i: int)
    requires
        0 <= i <= vs.len(),
    ensures
        wire_list_allocs(vs.take(i)) <= wire_list_allocs(vs),
    decreases vs,
{
    if i == vs.len() {
        assert(vs.take(i) =~= vs);
    } else {
        assert(vs.take(i) =~= vs.drop_last().take(i));
        lemma_wire_list_allocs_take_le(vs.drop_last(), i);
    }
}

/// Extending a prefix by one tree adds that tree's allocations.
proof fn lemma_wire_list_allocs_take_step(vs: Seq<WireNodeView>, i: int)
    requires
        0 <= i < vs.len(),
    ensures
        wire_list_allocs(vs.take(i + 1)) == wire_list_allocs(vs.take(i)) + wire_allocs(vs[i]),
{
    assert(vs.take(i + 1).drop_last() =~= vs.take(i));
    assert(vs.take(i + 1).last() == vs[i]);
}

/// A prefix never owns more key allocations than the whole array.
proof fn lemma_key_list_allocs_take_le(ks: Seq<Option<Seq<u8>>>, i: int)
    requires
        0 <= i <= ks.len(),
    ensures
        key_list_allocs(ks.take(i)) <= key_list_allocs(ks),
    decreases ks,
{
    if i == ks.len() {
        assert(ks.take(i) =~= ks);
    } else {
        assert(ks.take(i) =~= ks.drop_last().take(i));
        lemma_key_list_allocs_take_le(ks.drop_last(), i);
    }
}

/// Extending a prefix by one key adds one allocation when it is non-null.
proof fn lemma_key_list_allocs_take_step(ks: Seq<Option<Seq<u8>>>, i: int)
    requires
        0 <= i < ks.len(),
    ensures
        key_list_allocs(ks.take(i + 1)) == key_list_allocs(ks.take(i)) + match ks[i] {
            Some(_) => 1nat,
            None => 0nat,
        },
{
    assert(ks.take(i + 1).drop_last() =~= ks.take(i));
    assert(ks.take(i + 1).last() == ks[i]);
}

/// Record every native allocation a wire tree owns: the adoption path for
/// a tree the native side built and handed over, so that its later
/// release balances the count.
pub fn adopt_node_contents(node: &WireNode, heap: &mut NativeHeap)
    requires
        old(heap).spec_live() + wire_allocs(node@) <= u64::MAX,
    ensures
        final(heap).spec_live() == old(heap).spec_live() + wire_allocs(node@),
    decreases *node,
{
    match &node.payload {
        WirePayload::Nothing => {},
        WirePayload::Int64(_) => {},
        WirePayload::DoubleBits(_) => {},
        WirePayload::Flag(_) => {},
        WirePayload::Str(_) => {
            heap.allocate();
        },
        WirePayload::Bytes(_) => {
            heap.allocate();
            heap.allocate();
        },
        WirePayload::List(l) => {
            proof {
                lemma_wire_nodes_view_props(l.values@);
            }
            let ghost live0 = heap.spec_live();
            let ghost wv = wire_nodes_view(l.values@);
            let mut i: usize = 0;
            while i < l.values.len()
                invariant
                    node.payload == WirePayload::List(*l),
                    0 <= i <= l.values@.len(),
                    wv == wire_nodes_view(l.values@),
                    wv.len() == l.values@.len(),
                    forall|j: int|
                        0 <= j < l.values@.len() ==> wv[j] == wire_node_view(l.values@[j]),
                    heap.spec_live() == live0 + wire_list_allocs(wv.take(i as int)),
                    live0 + wire_allocs(node@) <= u64::MAX,
                    wire_allocs(node@) >= 2 + wire_list_allocs(wv),
                decreases l.values@.len() - i,
            {
                proof {
                    lemma_wire_list_allocs_take_step(wv, i as int);
                    lemma_wire_list_allocs_take_le(wv, i + 1 as int);
                    assert(decreases_to!(*node => node.payload));
                    assert(decreases_to!(node.payload => node.payload->List_0));
                    assert(node.payload->List_0 == *l);
                    assert(decreases_to!(*l => l.values));
                    assert(decreases_to!(l.values => l.values@));
                    assert(decreases_to!(l.values@ => l.values@[i as int]));
                }
                adopt_node_contents(&l.values[i], heap);
                i = i + 1;
            }
            proof {
                assert(wv.take(l.values@.len() as int) =~= wv);
            }
            match &l.keys {
                Some(keys) => {
                    let ghost kv = keys_view(keys@);
                    let ghost live1 = heap.spec_live();
                    let mut i: usize = 0;
                    while i < keys.len()
                        invariant
                            0 <= i <= keys@.len(),
                            kv == keys_view(keys@),
                            kv.len() == keys@.len(),
                            heap.spec_live() == live1 + key_list_allocs(kv.take(i as int)),
                            live1 + 3 + key_list_allocs(kv) <= u64::MAX,
                        decreases keys@.len() - i,
                    {
                        proof {
                            lemma_key_list_allocs_take_step(kv, i as int);
                            lemma_key_list_allocs_take_le(kv, i + 1 as int);
                            assert(kv[i as int] == key_view(keys@[i as int]));
                        }
                        match &keys[i] {
                            Some(_) => heap.allocate(),
                            None => {},
                        }
                        i = i + 1;
                    }
                    proof {
                        assert(kv.take(keys@.len() as int) =~= kv);
                    }
                    heap.allocate();
                },
                None => {},
            }
            heap.allocate();
            heap.allocate();
        },
    }
}

/// Release the native allocations a wire-node sequence owns, last first.
fn free_wire_list(values: Vec<WireNode>, heap: &mut NativeHeap)
    requires
        old(heap).spec_live() >= wire_list_allocs(wire_nodes_view(values@)),
    ensures
        final(heap).spec_live() == old(heap).spec_live() - wire_list_allocs(
            wire_nodes_view(values@),
        ),
    decreases values@,
{
    let ghost vs0 = values@;
    let mut values = values;
    match values.pop() {
        Some(w) => {
            proof {
                assert(wire_nodes_view(vs0).drop_last() =~= wire_nodes_view(vs0.drop_last()));
                assert(wire_nodes_view(vs0).last() == wire_node_view(vs0.last()));
                assert(values@ =~= vs0.drop_last());
                assert(w == vs0.last());
                assert(decreases_to!(vs0 => vs0[vs0.len() - 1]));
                assert(vs0.drop_last() =~= vs0.subrange(0, vs0.len() - 1));
                assert(decreases_to!(vs0 => vs0.subrange(0, vs0.len() - 1)));
            }
            free_node_contents(w, heap);
            free_wire_list(values, heap);
        },
        None => {
        },
    }
}

/// Release the native allocations a keys array's non-null keys own,
/// last first.
fn free_keys(keys: Vec<Option<CBuf>>, heap: &mut NativeHeap)
    requires
        old(heap).spec_live() >= key_list_allocs(keys_view(keys@)),
    ensures
        final(heap).spec_live() == old(heap).spec_live() - key_list_allocs(keys_view(keys@)),
    decreases keys@.len(),
{
    let ghost ks0 = keys@;
    let mut keys = keys;
    match keys.pop() {
        Some(k) => {
            proof {
                assert(keys@ =~= ks0.drop_last());
                assert(keys_view(ks0).drop_last() =~= keys_view(ks0.drop_last()));
                assert(keys_view(ks0).last() == key_view(ks0.last()));
            }
            match k {
                Some(_) => heap.release(),
                None => {},
            }
            free_keys(keys, heap);
        },
        None => {},
    }
}

/// Release every native allocation a wire tree owns: the structurally
/// symmetric mirror of the encode path.  Taking the tree by value, the
/// release consumes it, so no allocation can be released twice.
pub fn free_node_contents(node: WireNode, heap: &mut NativeHeap)
    requires
        old(heap).spec_live() >= wire_allocs(node@),
    ensures
        final(heap).spec_live() == old(heap).spec_live() - wire_allocs(node@),
    decreases node,
{
    let ghost n0 = node;
    match node.payload {
        WirePayload::Nothing => {},
        WirePayload::Int64(_) => {},
        WirePayload::DoubleBits(_) => {},
        WirePayload::Flag(_) => {},
        WirePayload::Str(_) => {
            heap.release();
        },
        WirePayload::Bytes(_) => {
            heap.release();
            heap.release();
        },
        WirePayload::List(l) => {
            proof {
                assert(n0.payload == WirePayload::List(l));
                assert(decreases_to!(n0 => n0.payload));
                assert(decreases_to!(n0.payload => n0.payload->List_0));
                assert(n0.payload->List_0 == l);
                assert(decreases_to!(l => l.values));
            }
            let inner = *l;
            let ghost l0 = inner;
            let values = inner.values;
            let keys = inner.keys;
            proof {
                assert(decreases_to!(l => l0.values));
            }
            free_wire_list(values, heap);
            match keys {
                Some(ks) => {
                    free_keys(ks, heap);
                    heap.release();
                },
                None => {},
            }
            heap.release();
            heap.release();
        },
    }
}

/// Encode a value into a freshly allocated native tagged-union tree.
///
/// On success the wire tree is exactly the staged image of the value, its
/// format tag is the value's static tag, and the modeled native heap has
/// grown by exactly the value's allocation count; the caller owes the tree
/// to [`free_node_contents`].  A value holding a text with an embedded
/// terminator is rejected with the protocol's generic error code and
/// nothing is allocated.
pub fn to_mpv_node(n: &Node, heap: &mut NativeHeap) -> (r: Result<WireNode, Error>)
    requires
        old(heap).spec_live() + node_allocs(n@) <= u64::MAX,
    ensures
        encodable(n@) ==> (r matches Ok(w) && w@ == wire_of(n@) && final(heap).spec_live()
            == old(heap).spec_live() + node_allocs(n@)),
        !encodable(n@) ==> (r matches Err(e) && e.spec_code() == mpv_error::GENERIC.spec_code()
            && final(heap).spec_live() == old(heap).spec_live()),
{
    if is_encodable(n) {
        Ok(encode_node(n, heap))
    } else {
        Err(Error::new(mpv_error::GENERIC))
    }
}


/// A staged text buffer is a well-formed native string whose body is the
/// text's UTF-8 encoding and decodes back to the text itself.
proof fn lemma_staged_cstr_props(s: Seq<char>)
    requires
        !has_nul(encode_utf8(s)),
    ensures
        cbuf_wf(staged_cstr(s)),
        cbuf_body(staged_cstr(s)) =~= encode_utf8(s),
        decoded_text(cbuf_body(staged_cstr(s))) == s,
{
    let e = encode_utf8(s);
    let b = staged_cstr(s);
    assert(b[b.len() - 1] == 0u8);
    assert forall|i: int| 0 <= i < b.len() - 1 implies b[i] != 0u8 by {
        assert(b[i] == e[i]);
    }
    assert(cbuf_body(b) =~= e);
    vstd::utf8::encode_utf8_valid_utf8(s);
    vstd::utf8::encode_utf8_decode_utf8(s);
}

/// Format-tag fidelity: the native format tag of an encoded value is
/// always the value's static tag — the scalar tags for scalars, the list
/// and map tags for arrays and maps.
pub proof fn lemma_format_tag_fidelity(n: NodeView)
    ensures
        wire_of(n).format == node_format_tag(n),
{
}

/// No leak, no double-free: the wire tree that encoding a value produces
/// owns exactly as many native allocations as the encode path records, so
/// every encode followed by its paired release returns the heap count to
/// its starting point; and the release path consumes the tree, so no
/// allocation can be released twice.
pub proof fn lemma_encode_release_balanced(n: NodeView)
    ensures
        wire_allocs(wire_of(n)) == node_allocs(n),
    decreases n,
{
    match n {
        NodeView::Array(vs) => {
            lemma_wires_of_allocs(vs);
        },
        NodeView::Dict(ps) => {
            lemma_dict_of_allocs(ps);
        },
        _ => {},
    }
}

/// Allocation balance for each element of an encoded sequence, summed.
proof fn lemma_wires_of_allocs(vs: Seq<NodeView>)
    ensures
        wire_list_allocs(wires_of(vs)) == nodes_allocs(vs),
    decreases vs,
{
    if vs.len() > 0 {
        lemma_wires_of_allocs(vs.drop_last());
        lemma_encode_release_balanced(vs.last());
        assert(wires_of(vs).drop_last() =~= wires_of(vs.drop_last()));
        assert(wires_of(vs).last() == wire_of(vs.last()));
    }
}

/// Allocation balance for the values and keys of an encoded map.
proof fn lemma_dict_of_allocs(ps: Seq<(Seq<char>, NodeView)>)
    ensures
        wire_list_allocs(wires_of_values(ps)) + key_list_allocs(keys_of(ps)) == pairs_allocs(ps),
    decreases ps,
{
    if ps.len() > 0 {
        lemma_dict_of_allocs(ps.drop_last());
        lemma_encode_release_balanced(ps.last().1);
        assert(wires_of_values(ps).drop_last() =~= wires_of_values(ps.drop_last()));
        assert(wires_of_values(ps).last() == wire_of(ps.last().1));
        assert(keys_of(ps).drop_last() =~= keys_of(ps.drop_last()));
        assert(keys_of(ps).last() == Some(staged_cstr(ps.last().0)));
    }
}

/// The wire tree that encoding a stageable value produces is well-formed
/// as the decoder requires: its tag selects its payload member, every
/// string buffer is terminated, a map's keys array parallels its values.
pub proof fn lemma_wire_of_wf(n: NodeView)
    requires
        encodable(n),
    ensures
        wire_wf(wire_of(n)),
    decreases n,
{
    match n {
        NodeView::String(s) => {
            lemma_staged_cstr_props(s);
        },
        NodeView::Array(vs) => {
            lemma_wires_of_wf(vs);
        },
        NodeView::Dict(ps) => {
            lemma_dict_of_wf(ps);
        },
        _ => {},
    }
}

/// Well-formedness of each element of an encoded sequence.
proof fn lemma_wires_of_wf(vs: Seq<NodeView>)
    requires
        nodes_encodable(vs),
    ensures
        wires_wf(wires_of(vs)),
    decreases vs,
{
    if vs.len() > 0 {
        lemma_wires_of_wf(vs.drop_last());
        lemma_wire_of_wf(vs.last());
        assert(wires_of(vs).drop_last() =~= wires_of(vs.drop_last()));
        assert(wires_of(vs).last() == wire_of(vs.last()));
    }
}

/// Well-formedness of the values and keys of an encoded map.
proof fn lemma_dict_of_wf(ps: Seq<(Seq<char>, NodeView)>)
    requires
        pairs_encodable(ps),
    ensures
        wires_wf(wires_of_values(ps)),
        keys_wf(keys_of(ps)),
        keys_of(ps).len() == ps.len(),
        wires_of_values(ps).len() == ps.len(),
    decreases ps,
{
    if ps.len() > 0 {
        lemma_dict_of_wf(ps.drop_last());
        lemma_wire_of_wf(ps.last().1);
        lemma_staged_cstr_props(ps.last().0);
        assert(wires_of_values(ps).drop_last() =~= wires_of_values(ps.drop_last()));
        assert(wires_of_values(ps).last() == wire_of(ps.last().1));
        assert(keys_of(ps).drop_last() =~= keys_of(ps.drop_last()));
        assert(keys_of(ps).last() == Some(staged_cstr(ps.last().0)));
    }
}

/// Round trip: decoding the wire tree that encoding a stageable value
/// produced gives the value back, structurally equal — map entries with
/// their keys, in their order.
pub proof fn lemma_round_trip(n: NodeView)
    requires
        encodable(n),
    ensures
        node_of(wire_of(n)) == n,
    decreases n,
{
    match n {
        NodeView::String(s) => {
            lemma_staged_cstr_props(s);
        },
        NodeView::Array(vs) => {
            lemma_nodes_round_trip(vs);
        },
        NodeView::Dict(ps) => {
            lemma_pairs_round_trip(ps);
        },
        _ => {},
    }
}

/// Round trip for each element of a sequence.
proof fn lemma_nodes_round_trip(vs: Seq<NodeView>)
    requires
        nodes_encodable(vs),
    ensures
        nodes_of(wires_of(vs)) == vs,
    decreases vs,
{
    if vs.len() > 0 {
        lemma_nodes_round_trip(vs.drop_last());
        lemma_round_trip(vs.last());
        assert(wires_of(vs).drop_last() =~= wires_of(vs.drop_last()));
        assert(wires_of(vs).last() == wire_of(vs.last()));
        assert(nodes_of(wires_of(vs)) =~= vs);
    }
}

/// Round trip for each pair of a map: every key was staged non-null, so
/// no entry is dropped and each key decodes to itself.
proof fn lemma_pairs_round_trip(ps: Seq<(Seq<char>, NodeView)>)
    requires
        pairs_encodable(ps),
    ensures
        pairs_of(wires_of_values(ps), keys_of(ps)) == ps,
    decreases ps,
{
    if ps.len() > 0 {
        lemma_pairs_round_trip(ps.drop_last());
        lemma_round_trip(ps.last().1);
        lemma_staged_cstr_props(ps.last().0);
        lemma_dict_of_wf(ps);
        assert(wires_of_values(ps).drop_last() =~= wires_of_values(ps.drop_last()));
        assert(wires_of_values(ps).last() == wire_of(ps.last().1));
        assert(keys_of(ps).drop_last() =~= keys_of(ps.drop_last()));
        assert(keys_of(ps).last() == Some(staged_cstr(ps.last().0)));
        assert(pairs_of(wires_of_values(ps), keys_of(ps)) =~= ps);
    }
}

/// Whether two byte buffers hold the same bytes.
fn bytes_eq(a: &Vec<u8>, b: &Vec<u8>) -> (r: bool)
    ensures
        r == (a@ == b@),
{
    if a.len() != b.len() {
        return false;
    }
    let mut i: usize = 0;
    while i < a.len()
        invariant
            a@.len() == b@.len(),
            0 <= i <= a@.len(),
            forall|j: int| 0 <= j < i ==> a@[j] == b@[j],
        decreases a@.len() - i,
    {
        if a[i] != b[i] {
            return false;
        }
        i = i + 1;
    }
    proof {
        assert(a@ =~= b@);
    }
    true
}

/// Structural equality of two values: equal variants, equal payloads,
/// arrays element by element, maps entry by entry in order.
pub fn node_eq(a: &Node, b: &Node) -> (r: bool)
    ensures
        r == (a@ == b@),
    decreases *a,
{
    match (a, b) {
        (Node::Null, Node::Null) => true,
        (Node::String(x), Node::String(y)) => x.eq(y),
        (Node::Int(x), Node::Int(y)) => x == y,
        (Node::Double(x), Node::Double(y)) => x == y,
        (Node::Bool(x), Node::Bool(y)) => x == y,
        (Node::ByteArray(x), Node::ByteArray(y)) => bytes_eq(x, y),
        (Node::Array(xs), Node::Array(ys)) => {
            proof {
                lemma_nodes_view_props(xs@);
                lemma_nodes_view_props(ys@);
            }
            if xs.len() != ys.len() {
                return false;
            }
            let mut i: usize = 0;
            while i < xs.len()
                invariant
                    *a == Node::Array(*xs),
                    *b == Node::Array(*ys),
                    xs@.len() == ys@.len(),
                    0 <= i <= xs@.len(),
                    nodes_view(xs@).len() == xs@.len(),
                    nodes_view(ys@).len() == ys@.len(),
                    forall|j: int| 0 <= j < xs@.len() ==> nodes_view(xs@)[j] == node_view(xs@[j]),
                    forall|j: int| 0 <= j < ys@.len() ==> nodes_view(ys@)[j] == node_view(ys@[j]),
                    forall|j: int| 0 <= j < i ==> nodes_view(xs@)[j] == nodes_view(ys@)[j],
                decreases xs@.len() - i,
            {
                proof {
                    assert(decreases_to!(*a => a->Array_0));
                    assert(decreases_to!(*xs => xs@));
                    assert(decreases_to!(xs@ => xs@[i as int]));
                }
                if !node_eq(&xs[i], &ys[i]) {
                    proof {
                        assert(a@ == NodeView::Array(nodes_view(xs@)));
                        assert(b@ == NodeView::Array(nodes_view(ys@)));
                        assert(nodes_view(xs@)[i as int] != nodes_view(ys@)[i as int]);
                    }
                    return false;
                }
                i = i + 1;
            }
            proof {
                assert(nodes_view(xs@) =~= nodes_view(ys@));
            }
            true
        },
        (Node::Dict(xs), Node::Dict(ys)) => {
            proof {
                lemma_pairs_view_props(xs@);
                lemma_pairs_view_props(ys@);
            }
            if xs.len() != ys.len() {
                return false;
            }
            let mut i: usize = 0;
            while i < xs.len()
                invariant
                    *a == Node::Dict(*xs),
                    *b == Node::Dict(*ys),
                    xs@.len() == ys@.len(),
                    0 <= i <= xs@.len(),
                    pairs_view(xs@).len() == xs@.len(),
                    pairs_view(ys@).len() == ys@.len(),
                    forall|j: int|
                        0 <= j < xs@.len() ==> pairs_view(xs@)[j] == (
                        xs@[j].0@,
                        node_view(xs@[j].1),
                        ),
                    forall|j: int|
                        0 <= j < ys@.len() ==> pairs_view(ys@)[j] == (
                        ys@[j].0@,
                        node_view(ys@[j].1),
                        ),
                    forall|j: int| 0 <= j < i ==> pairs_view(xs@)[j] == pairs_view(ys@)[j],
                decreases xs@.len() - i,
            {
                let px = &xs[i];
                let py = &ys[i];
                if !px.0.eq(&py.0) {
                    proof {
                        assert(a@ == NodeView::Dict(pairs_view(xs@)));
                        assert(b@ == NodeView::Dict(pairs_view(ys@)));
                        assert(pairs_view(xs@)[i as int].0 != pairs_view(ys@)[i as int].0);
                    }
                    return false;
                }
                proof {
                    assert(decreases_to!(*a => a->Dict_0));
                    assert(decreases_to!(*xs => xs@));
                    assert(decreases_to!(xs@ => xs@[i as int]));
                    assert(decreases_to!(xs@[i as int] => xs@[i as int].1));
                }
                if !node_eq(&px.1, &py.1) {
                    proof {
                        assert(a@ == NodeView::Dict(pairs_view(xs@)));
                        assert(b@ == NodeView::Dict(pairs_view(ys@)));
                        assert(pairs_view(xs@)[i as int].1 != pairs_view(ys@)[i as int].1);
                    }
                    return false;
                }
                i = i + 1;
            }
            proof {
                assert(pairs_view(xs@) =~= pairs_view(ys@));
            }
            true
        },
        _ => false,
    }
}


} // verus!
