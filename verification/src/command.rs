//! Staging of command arguments for the native call boundary.
//!
//! The native command call takes an array of pointers to null-terminated
//! strings, itself terminated by a null pointer.  This module stages the
//! argument list into that exact shape, and builds the on-screen-display
//! message command — command name, text, duration in milliseconds as
//! decimal digits — the same way.

use vstd::prelude::*;
use vstd::string::StringExecFns;
use vstd::utf8::encode_utf8;

use crate::error::Error;
use crate::protocol::mpv_error;
use crate::wire::has_nul;
use crate::wire::keys_view;
use crate::wire::staged_cstr;
use crate::wire::strings_view;
use crate::wire::CBuf;

verus! {

/// A staged argument array: one staged string buffer per argument, then
/// the terminating null pointer.
#[derive(Debug)]
pub struct CommandArgs {
    pub ptrs: Vec<Option<CBuf>>,
}

impl View for CommandArgs {
    type V = Seq<Option<Seq<u8>>>;

    open spec fn view(&self) -> Seq<Option<Seq<u8>>> {
        keys_view(self.ptrs@)
    }
}

/// Whether every text of a list can be staged: none holds an embedded
/// terminator byte.
pub open spec fn args_encodable(texts: Seq<Seq<char>>) -> bool {
    forall|i: int| 0 <= i < texts.len() ==> !has_nul(encode_utf8(#[trigger] texts[i]))
}

/// The staged image of an argument list: each text as a terminated
/// buffer, in order, then the null pointer.
pub open spec fn staged_args(texts: Seq<Seq<char>>) -> Seq<Option<Seq<u8>>> {
    Seq::new(
        texts.len() + 1,
        |i: int|
            if i < texts.len() {
                Some(staged_cstr(texts[i]))
            } else {
                None
            },
    )
}

/// Stage a command's pre-split arguments for the native call: each
/// argument null-terminated, the array closed by a null pointer.  An
/// argument holding an embedded terminator is rejected with the
/// protocol's generic error code.
pub fn stage_command_args(args: &Vec<String>) -> (r: Result<CommandArgs, Error>)
    ensures
        args_encodable(strings_view(args@)) ==> (r matches Ok(c) && c@ == staged_args(
            strings_view(args@),
        )),
        !args_encodable(strings_view(args@)) ==> (r matches Err(e) && e.spec_code()
            == mpv_error::GENERIC.spec_code()),
{
    let mut ptrs: Vec<Option<CBuf>> = Vec::new();
    let mut i: usize = 0;
    while i < args.len()
        invariant
            0 <= i <= args@.len(),
            ptrs@.len() == i,
            forall|j: int|
                0 <= j < i ==> !has_nul(encode_utf8(#[trigger] strings_view(args@)[j])),
            forall|j: int|
                0 <= j < i ==> keys_view(ptrs@)[j] == Some(
                    staged_cstr(#[trigger] strings_view(args@)[j]),
                ),
        decreases args@.len() - i,
    {
        match crate::wire::stage_cstr(&args[i]) {
            Ok(c) => {
                ptrs.push(Some(c));
            },
            Err(e) => {
                proof {
                    assert(strings_view(args@)[i as int] == args@[i as int]@);
                    assert(!args_encodable(strings_view(args@)));
                }
                return Err(e);
            },
        }
        i = i + 1;
    }
    ptrs.push(None);
    proof {
        assert(keys_view(ptrs@) =~= staged_args(strings_view(args@)));
    }
    Ok(CommandArgs { ptrs })
}

/// The decimal digits of a number, most significant first.
pub open spec fn dec_digits(n: nat) -> Seq<u8>
    decreases n,
{
    if n < 10 {
        seq![(48 + n) as u8]
    } else {
        dec_digits(n / 10).push((48 + n % 10) as u8)
    }
}

/// The decimal representation of a number, as ASCII digit bytes.
pub fn u64_dec_bytes(n: u64) -> (r: Vec<u8>)
    ensures
        r@ == dec_digits(n as nat),
    decreases n,
{
    if n < 10 {
        let mut v: Vec<u8> = Vec::new();
        v.push(48u8 + (n as u8));
        v
    } else {
        let mut v = u64_dec_bytes(n / 10);
        v.push(48u8 + ((n % 10) as u8));
        v
    }
}

/// The staged on-screen-display command: the command name, the message
/// text, and the duration in milliseconds as decimal digits, each
/// null-terminated, then the null pointer.
pub open spec fn staged_osd_args(text: Seq<char>, duration_ms: nat) -> Seq<Option<Seq<u8>>> {
    seq![
        Some(staged_cstr("show-text"@)),
        Some(staged_cstr(text)),
        Some(dec_digits(duration_ms).push(0u8)),
        None,
    ]
}

/// The command name literal can always be staged.
proof fn lemma_show_text_stageable()
    ensures
        !has_nul(encode_utf8("show-text"@)),
{
    reveal_strlit("show-text");
    let s = "show-text"@;
    assert(vstd::utf8::is_ascii_chars(s));
    vstd::utf8::is_ascii_chars_encode_utf8(s);
    assert forall|i: int| 0 <= i < encode_utf8(s).len() implies encode_utf8(s)[i] != 0u8 by {
        assert(encode_utf8(s)[i] == s[i] as u8);
    }
}

/// Every decimal digit byte is non-zero.
proof fn lemma_dec_digits_nonzero(n: nat)
    ensures
        forall|i: int| 0 <= i < dec_digits(n).len() ==> #[trigger] dec_digits(n)[i] != 0u8,
        dec_digits(n).len() >= 1,
    decreases n,
{
    if n >= 10 {
        lemma_dec_digits_nonzero(n / 10);
        assert forall|i: int| 0 <= i < dec_digits(n).len() implies #[trigger] dec_digits(n)[i]
            != 0u8 by {
            if i < dec_digits(n).len() - 1 {
                assert(dec_digits(n)[i] == dec_digits(n / 10)[i]);
            }
        }
    }
}

/// Stage the on-screen-display message command: `show-text`, the text,
/// and the duration in milliseconds.  A text holding an embedded
/// terminator is rejected with the protocol's generic error code.
pub fn osd_command_args(text: &String, duration_ms: u64) -> (r: Result<CommandArgs, Error>)
    ensures
        !has_nul(encode_utf8(text@)) ==> (r matches Ok(c) && c@ == staged_osd_args(
            text@,
            duration_ms as nat,
        )),
        has_nul(encode_utf8(text@)) ==> (r matches Err(e) && e.spec_code()
            == mpv_error::GENERIC.spec_code()),
{
    proof {
        lemma_show_text_stageable();
    }
    let cmd = String::from_str("show-text");
    let c0 = match crate::wire::stage_cstr(&cmd) {
        Ok(c) => c,
        Err(_) => unreached(),
    };
    let c1 = match crate::wire::stage_cstr(text) {
        Ok(c) => c,
        Err(e) => {
            return Err(e);
        },
    };
    let mut digits = u64_dec_bytes(duration_ms);
    digits.push(0u8);
    let c2 = CBuf { bytes: digits };
    let mut ptrs: Vec<Option<CBuf>> = Vec::new();
    ptrs.push(Some(c0));
    ptrs.push(Some(c1));
    ptrs.push(Some(c2));
    ptrs.push(None);
    proof {
        assert(keys_view(ptrs@) =~= staged_osd_args(text@, duration_ms as nat));
    }
    Ok(CommandArgs { ptrs })
}

} // verus!
