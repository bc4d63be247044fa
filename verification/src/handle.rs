//! The compute half of the typed property calls.
//!
//! A native property call takes a null-terminated property name, a
//! numeric format tag and an untyped pointer.  These functions stage the
//! name and the value for a write, stage the name and the zeroed
//! transient for a read, and finish a read by mapping the call's numeric
//! result and reinterpreting the filled transient — releasing its native
//! sub-allocations on the error path as well as on the success path.

use vstd::prelude::*;
use vstd::utf8::encode_utf8;

use crate::error::Error;
use crate::format::release_transient;
use crate::format::transient_allocs;
use crate::format::transient_matches_format;
use crate::format::transient_wf;
use crate::format::Format;
use crate::format::Transient;
use crate::protocol::mpv_error;
use crate::wire::has_nul;
use crate::wire::staged_cstr;
use crate::wire::CBuf;
use crate::wire::NativeHeap;

verus! {

/// A staged property call: the terminated name buffer, the format tag,
/// and the typed transient the native call reads or fills.
#[derive(Debug)]
pub struct PropertyCall {
    pub name: CBuf,
    pub format: i32,
    pub data: Transient,
}

/// Stage a typed property write: the name null-terminated, the value
/// staged into its transient.  A name or value holding an embedded
/// terminator is rejected with the protocol's generic error code, and
/// nothing stays allocated.
pub fn stage_property_write<T: Format>(name: &String, value: T, heap: &mut NativeHeap) -> (r:
    Result<PropertyCall, Error>)
    requires
        old(heap).spec_live() + value.staged_allocs() <= u64::MAX,
    ensures
        r matches Ok(c) ==> !has_nul(encode_utf8(name@)) && value.stage_ok() && c.name@
            == staged_cstr(name@) && c.format == T::spec_format() && c.data@ == value.staged()
            && transient_wf(c.data@) && transient_matches_format(T::spec_format(), c.data@)
            && transient_allocs(c.data@) == value.staged_allocs() && final(heap).spec_live()
            == old(heap).spec_live() + value.staged_allocs(),
        r is Err <==> has_nul(encode_utf8(name@)) || !value.stage_ok(),
        r matches Err(e) ==> e.spec_code() == mpv_error::GENERIC.spec_code()
            && final(heap).spec_live() == old(heap).spec_live(),
{
    let name_buf = match crate::wire::stage_cstr(name) {
        Ok(c) => c,
        Err(e) => {
            return Err(e);
        },
    };
    match value.to_mpv(heap) {
        Ok(t) => Ok(PropertyCall { name: name_buf, format: T::mpv_format(), data: t }),
        Err(e) => Err(e),
    }
}

/// Stage a typed property read: the name null-terminated, the transient
/// zero-initialized in this type's shape for the native call to fill.  A
/// name holding an embedded terminator is rejected with the protocol's
/// generic error code.
pub fn stage_property_read<T: Format>(name: &String) -> (r: Result<PropertyCall, Error>)
    ensures
        r matches Ok(c) ==> !has_nul(encode_utf8(name@)) && c.name@ == staged_cstr(name@)
            && c.format == T::spec_format() && c.data@ == T::zero_transient()
            && transient_allocs(c.data@) == 0,
        r is Err <==> has_nul(encode_utf8(name@)),
        r matches Err(e) ==> e.spec_code() == mpv_error::GENERIC.spec_code(),
{
    match crate::wire::stage_cstr(name) {
        Ok(c) => Ok(PropertyCall { name: c, format: T::mpv_format(), data: T::zeroed() }),
        Err(e) => Err(e),
    }
}

/// Finish a typed property read around the native call's numeric result.
///
/// A failed call passes its error through unchanged, and the transient's
/// state — filled or not — is still released; a successful call has its
/// filled transient reinterpreted as the requested type.
pub fn finish_property_read<T: Format>(code: i32, data: Transient, heap: &mut NativeHeap) -> (r:
    Result<T, Error>)
    requires
        transient_wf(data@),
        code == 0i32 ==> transient_matches_format(T::spec_format(), data@),
        old(heap).spec_live() >= transient_allocs(data@),
    ensures
        final(heap).spec_live() == old(heap).spec_live() - transient_allocs(data@),
        code != 0i32 ==> (r matches Err(e) && e.spec_code() == code),
        code == 0i32 ==> match r {
            Ok(v) => T::read_rel(data@, v),
            Err(e) => T::read_fails(data@) && e.spec_code() == mpv_error::GENERIC.spec_code(),
        },
{
    if code != 0i32 {
        release_transient(data, heap);
        Err(Error::from_code(code))
    } else {
        T::from_mpv(data, heap)
    }
}

} // verus!
