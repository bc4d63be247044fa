//! Model of the native side of the marshalling boundary.
//!
//! The native protocol passes values as a fixed-layout tagged union: a
//! numeric format tag plus one payload member, where the tag fully
//! determines which member is valid.  Nested lists, maps, strings and byte
//! arrays live in separate native heap allocations.  This module mirrors
//! that layout with owned data, and counts the modeled allocations in an
//! explicit [`NativeHeap`], so that the pairing of every allocating encode
//! path with its release path is stated and checked.

use vstd::prelude::*;
use vstd::string::StrSliceExecFns;
use vstd::utf8::encode_utf8;

use crate::error::Error;
use crate::protocol::mpv_error;

verus! {

/// One native string allocation: the bytes of a null-terminated string,
/// terminator included.
#[derive(Clone, Debug, PartialEq, Eq)]
pub struct CBuf {
    pub bytes: Vec<u8>,
}

impl View for CBuf {
    type V = Seq<u8>;

    open spec fn view(&self) -> Seq<u8> {
        self.bytes@
    }
}

/// A well-formed native string buffer: non-empty, terminated by the one
/// and only zero byte it holds.
pub open spec fn cbuf_wf(b: Seq<u8>) -> bool {
    &&& b.len() >= 1
    &&& b[b.len() - 1] == 0u8
    &&& forall|i: int| 0 <= i < b.len() - 1 ==> b[i] != 0u8
}

/// The staged form of a text: its UTF-8 bytes followed by the terminator.
pub open spec fn staged_cstr(s: Seq<char>) -> Seq<u8> {
    encode_utf8(s) + seq![0u8]
}

/// The bytes of a well-formed native string buffer without the terminator.
pub open spec fn cbuf_body(b: Seq<u8>) -> Seq<u8> {
    b.take(b.len() - 1)
}

/// A native byte-array record: a size plus a pointer to a data buffer.
/// It stands for two native allocations, the record and the buffer.
#[derive(Clone, Debug, PartialEq, Eq)]
pub struct WireByteArray {
    pub data: Vec<u8>,
}

/// A native list record: a count, an allocated array of child nodes and —
/// for maps only — a parallel allocated array of key pointers, any of
/// which the native side may leave null.
#[derive(Debug)]
pub struct WireList {
    pub values: Vec<WireNode>,
    pub keys: Option<Vec<Option<CBuf>>>,
}

/// The payload member of the native tagged union.
#[derive(Debug)]
pub enum WirePayload {
    /// No payload member is populated.
    Nothing,
    /// The signed 64-bit integer member.
    Int64(i64),
    /// The 64-bit float member, carried as its bit pattern.
    DoubleBits(u64),
    /// The 4-byte flag member, 0 or 1 when the native side writes it.
    Flag(i32),
    /// The string-pointer member.
    Str(CBuf),
    /// The byte-array-pointer member.
    Bytes(WireByteArray),
    /// The list-pointer member.
    List(Box<WireList>),
}

/// The native tagged union: a format tag and the payload it selects.
#[derive(Debug)]
pub struct WireNode {
    pub format: i32,
    pub payload: WirePayload,
}

/// Mathematical image of a [`WirePayload`].
pub enum WirePayloadView {
    Nothing,
    Int64(i64),
    DoubleBits(u64),
    Flag(i32),
    Str(Seq<u8>),
    Bytes(Seq<u8>),
    List(Seq<WireNodeView>, Option<Seq<Option<Seq<u8>>>>),
}

/// Mathematical image of a [`WireNode`].
pub struct WireNodeView {
    pub format: i32,
    pub payload: WirePayloadView,
}

/// View of an optional key pointer.
pub open spec fn key_view(k: Option<CBuf>) -> Option<Seq<u8>> {
    match k {
        Some(c) => Some(c@),
        None => None,
    }
}

/// View of a key-pointer array.
pub open spec fn keys_view(ks: Seq<Option<CBuf>>) -> Seq<Option<Seq<u8>>> {
    ks.map_values(|k: Option<CBuf>| key_view(k))
}

/// View of a native node tree.
pub open spec fn wire_node_view(w: WireNode) -> WireNodeView
    decreases w,
{
    WireNodeView {
        format: w.format,
        payload: match w.payload {
            WirePayload::Nothing => WirePayloadView::Nothing,
            WirePayload::Int64(i) => WirePayloadView::Int64(i),
            WirePayload::DoubleBits(b) => WirePayloadView::DoubleBits(b),
            WirePayload::Flag(f) => WirePayloadView::Flag(f),
            WirePayload::Str(c) => WirePayloadView::Str(c@),
            WirePayload::Bytes(ba) => WirePayloadView::Bytes(ba.data@),
            WirePayload::List(l) => WirePayloadView::List(
                wire_nodes_view(l.values@),
                match l.keys {
                    Some(ks) => Some(keys_view(ks@)),
                    None => None,
                },
            ),
        },
    }
}

/// View of a native node array.
pub open spec fn wire_nodes_view(vs: Seq<WireNode>) -> Seq<WireNodeView>
    decreases vs,
{
    if vs.len() == 0 {
        Seq::empty()
    } else {
        wire_nodes_view(vs.drop_last()).push(wire_node_view(vs.last()))
    }
}

impl View for WireNode {
    type V = WireNodeView;

    open spec fn view(&self) -> WireNodeView {
        wire_node_view(*self)
    }
}

/// How many native allocations a wire tree owns.
pub open spec fn wire_allocs(w: WireNodeView) -> nat
    decreases w,
{
    match w.payload {
        WirePayloadView::Nothing => 0,
        WirePayloadView::Int64(_) => 0,
        WirePayloadView::DoubleBits(_) => 0,
        WirePayloadView::Flag(_) => 0,
        WirePayloadView::Str(_) => 1,
        WirePayloadView::Bytes(_) => 2,
        WirePayloadView::List(vs, ks) => 2 + key_array_allocs(ks) + wire_list_allocs(vs),
    }
}

/// How many native allocations a node array owns: its children's, summed.
pub open spec fn wire_list_allocs(vs: Seq<WireNodeView>) -> nat
    decreases vs,
{
    if vs.len() == 0 {
        0
    } else {
        wire_list_allocs(vs.drop_last()) + wire_allocs(vs.last())
    }
}

/// How many native allocations a key-pointer array owns: one for the
/// array itself and one per non-null key.
pub open spec fn key_array_allocs(ks: Option<Seq<Option<Seq<u8>>>>) -> nat {
    match ks {
        Some(s) => 1 + key_list_allocs(s),
        None => 0,
    }
}

/// How many native allocations the non-null keys of an array own.
pub open spec fn key_list_allocs(ks: Seq<Option<Seq<u8>>>) -> nat
    decreases ks,
{
    if ks.len() == 0 {
        0
    } else {
        key_list_allocs(ks.drop_last()) + match ks.last() {
            Some(_) => 1nat,
            None => 0nat,
        }
    }
}

/// Views of a sequence of texts.
pub open spec fn strings_view(ss: Seq<String>) -> Seq<Seq<char>> {
    ss.map_values(|s: String| s@)
}

/// The counter of outstanding modeled native allocations.  Every path that
/// models a native allocation calls [`NativeHeap::allocate`]; every release
/// path calls [`NativeHeap::release`]; a balanced pair of calls leaves the
/// count where it started.
#[derive(Debug)]
pub struct NativeHeap {
    live: u64,
}

impl NativeHeap {
    /// Number of outstanding modeled allocations.
    pub closed spec fn spec_live(self) -> u64 {
        self.live
    }

    /// A heap with no outstanding allocation.
    pub fn new() -> (r: NativeHeap)
        ensures
            r.spec_live() == 0,
    {
        NativeHeap { live: 0 }
    }

    /// Number of outstanding modeled allocations.
    pub fn live(&self) -> (r: u64)
        ensures
            r == self.spec_live(),
    {
        self.live
    }

    /// Record one native allocation.
    pub fn allocate(&mut self)
        requires
            old(self).spec_live() < u64::MAX,
        ensures
            final(self).spec_live() == old(self).spec_live() + 1,
    {
        self.live = self.live + 1;
    }

    /// Record the release of one native allocation.
    pub fn release(&mut self)
        requires
            old(self).spec_live() >= 1,
        ensures
            final(self).spec_live() == old(self).spec_live() - 1,
    {
        self.live = self.live - 1;
    }
}

/// Whether a byte sequence holds a zero byte.
pub open spec fn has_nul(bytes: Seq<u8>) -> bool {
    exists|i: int| 0 <= i < bytes.len() && bytes[i] == 0u8
}

/// The UTF-8 bytes of a text.
pub(crate) fn utf8_bytes(s: &String) -> (r: Vec<u8>)
    ensures
        r@ == encode_utf8(s@),
{
    s.as_str().as_bytes_vec()
}

/// Whether bytes hold a zero byte.
pub(crate) fn bytes_contain_nul(bytes: &Vec<u8>) -> (r: bool)
    ensures
        r == has_nul(bytes@),
{
    let mut i: usize = 0;
    while i < bytes.len()
        invariant
            0 <= i <= bytes@.len(),
            forall|j: int| 0 <= j < i ==> bytes@[j] != 0u8,
        decreases bytes@.len() - i,
    {
        if bytes[i] == 0u8 {
            return true;
        }
        i = i + 1;
    }
    false
}

/// Stage a text as a native string buffer: its UTF-8 bytes plus the
/// terminator.  A text holding an embedded terminator cannot be staged and
/// is reported with the protocol's generic error code.
pub fn stage_cstr(s: &String) -> (r: Result<CBuf, Error>)
    ensures
        !has_nul(encode_utf8(s@)) ==> (r matches Ok(c) && c@ == staged_cstr(s@) && cbuf_wf(c@)),
        has_nul(encode_utf8(s@)) ==> (r matches Err(e) && e.spec_code()
            == mpv_error::GENERIC.spec_code()),
{
    let mut bytes = utf8_bytes(s);
    if bytes_contain_nul(&bytes) {
        Err(Error::new(mpv_error::GENERIC))
    } else {
        bytes.push(0u8);
        let c = CBuf { bytes };
        proof {
            assert(c@ =~= staged_cstr(s@));
            assert forall|i: int| 0 <= i < c@.len() - 1 implies c@[i] != 0u8 by {
                assert(c@[i] == encode_utf8(s@)[i]);
            }
        }
        Ok(c)
    }
}

/// The bytes of a native string buffer without its terminator.
pub(crate) fn cbuf_body_exec(c: &CBuf) -> (r: Vec<u8>)
    requires
        c@.len() >= 1,
    ensures
        r@ == cbuf_body(c@),
{
    let end = c.bytes.len() - 1;
    let mut r: Vec<u8> = Vec::new();
    let mut i: usize = 0;
    while i < end
        invariant
            0 <= i <= end,
            end == c@.len() - 1,
            r@ == c@.take(i as int),
        decreases end - i,
    {
        r.push(c.bytes[i]);
        proof {
            assert(r@ =~= c@.take(i + 1 as int));
        }
        i = i + 1;
    }
    r
}

} // verus!
