//! The typed-format capability: one implementation per supported type.
//!
//! The native property calls always pass an untyped byte region whose
//! shape is named by a numeric format tag.  Each implementation of
//! [`Format`] knows its own tag, stages a value into a typed [`Transient`]
//! for a native set call, supplies the zero-initialized transient a native
//! get call fills, and reinterprets a populated transient back into a
//! value, releasing the native-owned sub-allocations the get left behind.

use vstd::prelude::*;
use vstd::utf8::decode_utf8;
use vstd::utf8::valid_utf8;

use crate::error::Error;
use crate::node::encodable;
use crate::node::lemma_encode_release_balanced;
use crate::node::lemma_wire_of_wf;
use crate::node::node_allocs;
use crate::node::node_of;
use crate::node::wire_of;
use crate::node::Node;
use crate::protocol::mpv_error;
use crate::protocol::MPV_FORMAT_DOUBLE;
use crate::protocol::MPV_FORMAT_FLAG;
use crate::protocol::MPV_FORMAT_INT64;
use crate::protocol::MPV_FORMAT_NODE;
use crate::protocol::MPV_FORMAT_NONE;
use crate::protocol::MPV_FORMAT_STRING;
use crate::wire::cbuf_body;
use crate::wire::cbuf_wf;
use crate::wire::has_nul;
use crate::wire::staged_cstr;
use crate::wire::wire_allocs;
use crate::wire::CBuf;
use crate::wire::NativeHeap;
use crate::wire::WireNode;
use crate::wire::WireNodeView;
use crate::wire::WirePayload;
use crate::wire::WirePayloadView;

verus! {

/// A 64-bit float carried as its IEEE 754 bit pattern, so that the
/// verified layer handles it as plain data; the unverified boundary
/// converts to and from the machine float.
#[derive(Clone, Copy, Debug, PartialEq, Eq, Structural)]
pub struct DoubleBits(pub u64);

/// The typed transient buffer a native property call reads or fills: the
/// explicit model of the untyped byte region behind the call's pointer.
#[derive(Debug)]
pub enum Transient {
    /// A string pointer cell: null until a get call fills it, or holding
    /// a staged or native-owned string buffer.
    Str(Option<CBuf>),
    /// A 4-byte flag cell.
    Flag(i32),
    /// A signed 64-bit integer cell.
    Int64(i64),
    /// A 64-bit float cell, carried as its bit pattern.
    DoubleBits(u64),
    /// A tagged-union node.
    Node(WireNode),
}

/// Mathematical image of a [`Transient`].
pub enum TransientView {
    Str(Option<Seq<u8>>),
    Flag(i32),
    Int64(i64),
    DoubleBits(u64),
    Node(WireNodeView),
}

impl View for Transient {
    type V = TransientView;

    open spec fn view(&self) -> TransientView {
        match self {
            Transient::Str(c) => TransientView::Str(
                match c {
                    Some(b) => Some(b@),
                    None => None,
                },
            ),
            Transient::Flag(f) => TransientView::Flag(*f),
            Transient::Int64(i) => TransientView::Int64(*i),
            Transient::DoubleBits(b) => TransientView::DoubleBits(*b),
            Transient::Node(w) => TransientView::Node(crate::wire::wire_node_view(*w)),
        }
    }
}

/// How many native allocations a transient owns: a filled string cell
/// owns its buffer, a node owns its tree, scalar cells own nothing.
pub open spec fn transient_allocs(t: TransientView) -> nat {
    match t {
        TransientView::Str(Some(_)) => 1,
        TransientView::Str(None) => 0,
        TransientView::Flag(_) => 0,
        TransientView::Int64(_) => 0,
        TransientView::DoubleBits(_) => 0,
        TransientView::Node(w) => wire_allocs(w),
    }
}

/// Well-formedness of a transient: any string buffer is terminated, any
/// node tree is well-formed for the decoder.
pub open spec fn transient_wf(t: TransientView) -> bool {
    match t {
        TransientView::Str(Some(b)) => cbuf_wf(b),
        TransientView::Node(w) => crate::node::wire_wf(w),
        _ => true,
    }
}

/// Whether a populated transient has the shape a format tag names: a
/// non-null string for the string tag, the matching scalar cell for the
/// scalar tags, a node for the node tag.
pub open spec fn transient_matches_format(fmt: i32, t: TransientView) -> bool {
    if fmt == MPV_FORMAT_STRING {
        t matches TransientView::Str(Some(_))
    } else if fmt == MPV_FORMAT_FLAG {
        t matches TransientView::Flag(_)
    } else if fmt == MPV_FORMAT_INT64 {
        t matches TransientView::Int64(_)
    } else if fmt == MPV_FORMAT_DOUBLE {
        t matches TransientView::DoubleBits(_)
    } else if fmt == MPV_FORMAT_NODE {
        t matches TransientView::Node(_)
    } else {
        true
    }
}

/// Release the native allocations a transient owns: the paired release of
/// every staging and of every buffer a native get call handed back.
pub fn release_transient(t: Transient, heap: &mut NativeHeap)
    requires
        old(heap).spec_live() >= transient_allocs(t@),
    ensures
        final(heap).spec_live() == old(heap).spec_live() - transient_allocs(t@),
{
    match t {
        Transient::Str(Some(_)) => heap.release(),
        Transient::Str(None) => {},
        Transient::Flag(_) => {},
        Transient::Int64(_) => {},
        Transient::DoubleBits(_) => {},
        Transient::Node(w) => crate::node::free_node_contents(w, heap),
    }
}

/// Relies on `String::from_utf8`: succeeds exactly on valid UTF-8 and
/// returns the text those bytes encode.
#[verifier::external_body]
fn string_from_utf8(bytes: Vec<u8>) -> (r: Option<String>)
    ensures
        r is Some <==> valid_utf8(bytes@),
        r matches Some(s) ==> s@ == decode_utf8(bytes@),
{
    String::from_utf8(bytes).ok()
}

/// A type that can cross the native boundary through one typed accessor.
///
/// `to_mpv` is the staging half of a native set call; `zeroed` and
/// `from_mpv` are the two halves of a native get call around the native
/// write; `from_ptr` interprets an event payload in place.
pub trait Format: Sized {
    /// The numeric format tag of this type.
    spec fn spec_format() -> i32;

    /// Whether staging this value succeeds: every text it holds is free
    /// of embedded terminators.
    spec fn stage_ok(self) -> bool;

    /// The transient this value stages to, when staging succeeds.
    spec fn staged(self) -> TransientView;

    /// How many native allocations staging this value makes.
    spec fn staged_allocs(self) -> nat;

    /// The zero-initialized transient a native get call is handed.
    spec fn zero_transient() -> TransientView;

    /// Relation between a populated transient and the value read from it.
    spec fn read_rel(t: TransientView, v: Self) -> bool;

    /// Whether reading a populated transient fails (text that is not
    /// valid UTF-8); every other read is total.
    spec fn read_fails(t: TransientView) -> bool;

    /// The format tag sent alongside every native call for this type.
    fn mpv_format() -> (r: i32)
        ensures
            r == Self::spec_format(),
    ;

    /// Interpret an event payload of this type's shape, in place.
    fn from_ptr(t: &Transient) -> (r: Result<Self, Error>)
        requires
            transient_wf(t@),
            transient_matches_format(Self::spec_format(), t@),
        ensures
            r matches Ok(v) ==> Self::read_rel(t@, v),
            r is Err <==> Self::read_fails(t@),
            r matches Err(e) ==> e.spec_code() == mpv_error::GENERIC.spec_code(),
    ;

    /// Stage this value for a native set call.  The staged transient is
    /// owed to [`release_transient`] once the native call returns.
    fn to_mpv(self, heap: &mut NativeHeap) -> (r: Result<Transient, Error>)
        requires
            old(heap).spec_live() + self.staged_allocs() <= u64::MAX,
        ensures
            r matches Ok(t) ==> self.stage_ok() && t@ == self.staged() && transient_wf(t@)
                && transient_matches_format(Self::spec_format(), t@) && transient_allocs(t@)
                == self.staged_allocs() && final(heap).spec_live() == old(heap).spec_live()
                + self.staged_allocs(),
            r is Err <==> !self.stage_ok(),
            r matches Err(e) ==> e.spec_code() == mpv_error::GENERIC.spec_code()
                && final(heap).spec_live() == old(heap).spec_live(),
    ;

    /// The zero-initialized transient whose address a native get call is
    /// given to fill.
    fn zeroed() -> (t: Transient)
        ensures
            t@ == Self::zero_transient(),
            transient_allocs(t@) == 0,
    ;

    /// Reinterpret the transient a successful native get call filled,
    /// releasing the native-owned sub-allocations it carries.
    fn from_mpv(t: Transient, heap: &mut NativeHeap) -> (r: Result<Self, Error>)
        requires
            transient_wf(t@),
            transient_matches_format(Self::spec_format(), t@),
            old(heap).spec_live() >= transient_allocs(t@),
        ensures
            final(heap).spec_live() == old(heap).spec_live() - transient_allocs(t@),
            r matches Ok(v) ==> Self::read_rel(t@, v),
            r is Err <==> Self::read_fails(t@),
            r matches Err(e) ==> e.spec_code() == mpv_error::GENERIC.spec_code(),
    ;
}

impl Format for String {
    open spec fn spec_format() -> i32 {
        MPV_FORMAT_STRING
    }

    open spec fn stage_ok(self) -> bool {
        !has_nul(vstd::utf8::encode_utf8(self@))
    }

    open spec fn staged(self) -> TransientView {
        TransientView::Str(Some(staged_cstr(self@)))
    }

    open spec fn staged_allocs(self) -> nat {
        1
    }

    open spec fn zero_transient() -> TransientView {
        TransientView::Str(None)
    }

    open spec fn read_rel(t: TransientView, v: Self) -> bool {
        &&& t matches TransientView::Str(Some(b))
        &&& valid_utf8(cbuf_body(b))
        &&& v@ == decode_utf8(cbuf_body(b))
    }

    open spec fn read_fails(t: TransientView) -> bool {
        t matches TransientView::Str(Some(b)) && !valid_utf8(cbuf_body(b))
    }

    fn mpv_format() -> i32 {
        MPV_FORMAT_STRING
    }

    fn from_ptr(t: &Transient) -> (r: Result<Self, Error>) {
        match t {
            Transient::Str(Some(c)) => {
                let body = crate::wire::cbuf_body_exec(c);
                match string_from_utf8(body) {
                    Some(s) => Ok(s),
                    None => Err(Error::new(mpv_error::GENERIC)),
                }
            },
            _ => unreached(),
        }
    }

    fn to_mpv(self, heap: &mut NativeHeap) -> (r: Result<Transient, Error>) {
        match crate::wire::stage_cstr(&self) {
            Ok(c) => {
                heap.allocate();
                Ok(Transient::Str(Some(c)))
            },
            Err(e) => Err(e),
        }
    }

    fn zeroed() -> (t: Transient) {
        Transient::Str(None)
    }

    fn from_mpv(t: Transient, heap: &mut NativeHeap) -> (r: Result<Self, Error>) {
        match t {
            Transient::Str(Some(c)) => {
                let body = crate::wire::cbuf_body_exec(&c);
                heap.release();
                match string_from_utf8(body) {
                    Some(s) => Ok(s),
                    None => Err(Error::new(mpv_error::GENERIC)),
                }
            },
            _ => unreached(),
        }
    }
}

impl Format for bool {
    open spec fn spec_format() -> i32 {
        MPV_FORMAT_FLAG
    }

    open spec fn stage_ok(self) -> bool {
        true
    }

    open spec fn staged(self) -> TransientView {
        TransientView::Flag(if self { 1i32 } else { 0i32 })
    }

    open spec fn staged_allocs(self) -> nat {
        0
    }

    open spec fn zero_transient() -> TransientView {
        TransientView::Flag(0i32)
    }

    open spec fn read_rel(t: TransientView, v: Self) -> bool {
        t matches TransientView::Flag(f) && v == (f != 0i32)
    }

    open spec fn read_fails(t: TransientView) -> bool {
        false
    }

    fn mpv_format() -> i32 {
        MPV_FORMAT_FLAG
    }

    fn from_ptr(t: &Transient) -> (r: Result<Self, Error>) {
        match t {
            Transient::Flag(f) => Ok(*f != 0i32),
            _ => unreached(),
        }
    }

    fn to_mpv(self, heap: &mut NativeHeap) -> (r: Result<Transient, Error>) {
        Ok(Transient::Flag(if self { 1i32 } else { 0i32 }))
    }

    fn zeroed() -> (t: Transient) {
        Transient::Flag(0i32)
    }

    fn from_mpv(t: Transient, heap: &mut NativeHeap) -> (r: Result<Self, Error>) {
        match t {
            Transient::Flag(f) => Ok(f != 0i32),
            _ => unreached(),
        }
    }
}

impl Format for i64 {
    open spec fn spec_format() -> i32 {
        MPV_FORMAT_INT64
    }

    open spec fn stage_ok(self) -> bool {
        true
    }

    open spec fn staged(self) -> TransientView {
        TransientView::Int64(self)
    }

    open spec fn staged_allocs(self) -> nat {
        0
    }

    open spec fn zero_transient() -> TransientView {
        TransientView::Int64(0i64)
    }

    open spec fn read_rel(t: TransientView, v: Self) -> bool {
        t matches TransientView::Int64(i) && v == i
    }

    open spec fn read_fails(t: TransientView) -> bool {
        false
    }

    fn mpv_format() -> i32 {
        MPV_FORMAT_INT64
    }

    fn from_ptr(t: &Transient) -> (r: Result<Self, Error>) {
        match t {
            Transient::Int64(i) => Ok(*i),
            _ => unreached(),
        }
    }

    fn to_mpv(self, heap: &mut NativeHeap) -> (r: Result<Transient, Error>) {
        Ok(Transient::Int64(self))
    }

    fn zeroed() -> (t: Transient) {
        Transient::Int64(0i64)
    }

    fn from_mpv(t: Transient, heap: &mut NativeHeap) -> (r: Result<Self, Error>) {
        match t {
            Transient::Int64(i) => Ok(i),
            _ => unreached(),
        }
    }
}

impl Format for DoubleBits {
    open spec fn spec_format() -> i32 {
        MPV_FORMAT_DOUBLE
    }

    open spec fn stage_ok(self) -> bool {
        true
    }

    open spec fn staged(self) -> TransientView {
        TransientView::DoubleBits(self.0)
    }

    open spec fn staged_allocs(self) -> nat {
        0
    }

    open spec fn zero_transient() -> TransientView {
        TransientView::DoubleBits(0u64)
    }

    open spec fn read_rel(t: TransientView, v: Self) -> bool {
        t matches TransientView::DoubleBits(b) && v == DoubleBits(b)
    }

    open spec fn read_fails(t: TransientView) -> bool {
        false
    }

    fn mpv_format() -> i32 {
        MPV_FORMAT_DOUBLE
    }

    fn from_ptr(t: &Transient) -> (r: Result<Self, Error>) {
        match t {
            Transient::DoubleBits(b) => Ok(DoubleBits(*b)),
            _ => unreached(),
        }
    }

    fn to_mpv(self, heap: &mut NativeHeap) -> (r: Result<Transient, Error>) {
        Ok(Transient::DoubleBits(self.0))
    }

    fn zeroed() -> (t: Transient) {
        Transient::DoubleBits(0u64)
    }

    fn from_mpv(t: Transient, heap: &mut NativeHeap) -> (r: Result<Self, Error>) {
        match t {
            Transient::DoubleBits(b) => Ok(DoubleBits(b)),
            _ => unreached(),
        }
    }
}

impl Format for Node {
    open spec fn spec_format() -> i32 {
        MPV_FORMAT_NODE
    }

    open spec fn stage_ok(self) -> bool {
        encodable(self@)
    }

    open spec fn staged(self) -> TransientView {
        TransientView::Node(wire_of(self@))
    }

    open spec fn staged_allocs(self) -> nat {
        node_allocs(self@)
    }

    open spec fn zero_transient() -> TransientView {
        TransientView::Node(
            WireNodeView { format: MPV_FORMAT_NONE, payload: WirePayloadView::Nothing },
        )
    }

    open spec fn read_rel(t: TransientView, v: Self) -> bool {
        t matches TransientView::Node(w) && v@ == node_of(w)
    }

    open spec fn read_fails(t: TransientView) -> bool {
        false
    }

    fn mpv_format() -> i32 {
        MPV_FORMAT_NODE
    }

    fn from_ptr(t: &Transient) -> (r: Result<Self, Error>) {
        match t {
            Transient::Node(w) => Ok(crate::node::from_mpv_node(w)),
            _ => unreached(),
        }
    }

    fn to_mpv(self, heap: &mut NativeHeap) -> (r: Result<Transient, Error>) {
        proof {
            lemma_encode_release_balanced(self@);
        }
        let ghost v = self@;
        match crate::node::to_mpv_node(&self, heap) {
            Ok(w) => {
                proof {
                    lemma_wire_of_wf(v);
                }
                Ok(Transient::Node(w))
            },
            Err(e) => Err(e),
        }
    }

    fn zeroed() -> (t: Transient) {
        Transient::Node(WireNode { format: MPV_FORMAT_NONE, payload: WirePayload::Nothing })
    }

    fn from_mpv(t: Transient, heap: &mut NativeHeap) -> (r: Result<Self, Error>) {
        match t {
            Transient::Node(w) => {
                let v = crate::node::from_mpv_node(&w);
                crate::node::free_node_contents(w, heap);
                Ok(v)
            },
            _ => unreached(),
        }
    }
}

} // verus!
