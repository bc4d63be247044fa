//! Structured errors carrying the numeric status of a failed native call.

use vstd::prelude::*;
use vstd::string::StringExecFns;

use crate::protocol::mpv_error;

verus! {

/// The description attached to a numeric status, mirroring the native
/// error-to-string lookup.  Codes outside the closed set share one text.
pub open spec fn spec_error_message(code: i32) -> Seq<char> {
    if code == 0i32 {
        "success"@
    } else if code == -1i32 {
        "event queue full"@
    } else if code == -2i32 {
        "memory allocation failed"@
    } else if code == -3i32 {
        "core not initialized"@
    } else if code == -4i32 {
        "invalid parameter"@
    } else if code == -5i32 {
        "option not found"@
    } else if code == -6i32 {
        "unsupported format for accessing option"@
    } else if code == -7i32 {
        "error setting option"@
    } else if code == -8i32 {
        "property not found"@
    } else if code == -9i32 {
        "unsupported format for accessing property"@
    } else if code == -10i32 {
        "property unavailable"@
    } else if code == -11i32 {
        "error accessing property"@
    } else if code == -12i32 {
        "error running command"@
    } else if code == -13i32 {
        "loading failed"@
    } else if code == -14i32 {
        "audio output initialization failed"@
    } else if code == -15i32 {
        "video output initialization failed"@
    } else if code == -16i32 {
        "no audio or video data played"@
    } else if code == -17i32 {
        "unrecognized file format"@
    } else if code == -18i32 {
        "not supported"@
    } else if code == -19i32 {
        "not implemented"@
    } else if code == -20i32 {
        "something happened"@
    } else {
        "unknown error code"@
    }
}

/// Every status code has a non-empty description.
pub proof fn lemma_error_message_nonempty(code: i32)
    ensures
        spec_error_message(code).len() > 0,
{
    reveal_strlit("success");
    reveal_strlit("event queue full");
    reveal_strlit("memory allocation failed");
    reveal_strlit("core not initialized");
    reveal_strlit("invalid parameter");
    reveal_strlit("option not found");
    reveal_strlit("unsupported format for accessing option");
    reveal_strlit("error setting option");
    reveal_strlit("property not found");
    reveal_strlit("unsupported format for accessing property");
    reveal_strlit("property unavailable");
    reveal_strlit("error accessing property");
    reveal_strlit("error running command");
    reveal_strlit("loading failed");
    reveal_strlit("audio output initialization failed");
    reveal_strlit("video output initialization failed");
    reveal_strlit("no audio or video data played");
    reveal_strlit("unrecognized file format");
    reveal_strlit("not supported");
    reveal_strlit("not implemented");
    reveal_strlit("something happened");
    reveal_strlit("unknown error code");
}

/// A failed native call: the original numeric status code, never downgraded.
#[derive(Clone, Copy, Debug, PartialEq, Eq, Structural)]
pub struct Error(i32);

impl Error {
    /// The numeric status this error carries.
    pub closed spec fn spec_code(self) -> i32 {
        self.0
    }

    /// Wrap a status from the closed set.
    pub fn new(error: mpv_error) -> (r: Error)
        ensures
            r.spec_code() == error.spec_code(),
    {
        Error(error.code())
    }

    /// Wrap a raw numeric status, keeping the original number even when it
    /// lies outside the closed set.
    pub fn from_code(code: i32) -> (r: Error)
        ensures
            r.spec_code() == code,
    {
        Error(code)
    }

    /// The numeric status code, as the native call returned it.
    pub fn code(&self) -> (r: i32)
        ensures
            r == self.spec_code(),
    {
        self.0
    }

    /// A human-readable, never empty description of the status, mirroring
    /// the native error-to-string lookup.
    pub fn message(&self) -> (r: String)
        ensures
            r@ == spec_error_message(self.spec_code()),
            r@.len() > 0,
    {
        proof {
            lemma_error_message_nonempty(self.0);
        }
        let c = self.0;
        if c == 0i32 {
            String::from_str("success")
        } else if c == -1i32 {
            String::from_str("event queue full")
        } else if c == -2i32 {
            String::from_str("memory allocation failed")
        } else if c == -3i32 {
            String::from_str("core not initialized")
        } else if c == -4i32 {
            String::from_str("invalid parameter")
        } else if c == -5i32 {
            String::from_str("option not found")
        } else if c == -6i32 {
            String::from_str("unsupported format for accessing option")
        } else if c == -7i32 {
            String::from_str("error setting option")
        } else if c == -8i32 {
            String::from_str("property not found")
        } else if c == -9i32 {
            String::from_str("unsupported format for accessing property")
        } else if c == -10i32 {
            String::from_str("property unavailable")
        } else if c == -11i32 {
            String::from_str("error accessing property")
        } else if c == -12i32 {
            String::from_str("error running command")
        } else if c == -13i32 {
            String::from_str("loading failed")
        } else if c == -14i32 {
            String::from_str("audio output initialization failed")
        } else if c == -15i32 {
            String::from_str("video output initialization failed")
        } else if c == -16i32 {
            String::from_str("no audio or video data played")
        } else if c == -17i32 {
            String::from_str("unrecognized file format")
        } else if c == -18i32 {
            String::from_str("not supported")
        } else if c == -19i32 {
            String::from_str("not implemented")
        } else if c == -20i32 {
            String::from_str("something happened")
        } else {
            String::from_str("unknown error code")
        }
    }
}

/// The result a numeric status stands for: success for zero, an error
/// carrying the exact code otherwise.
pub closed spec fn spec_result_of(code: i32) -> Result<(), Error> {
    if code == 0i32 {
        Ok(())
    } else {
        Err(Error(code))
    }
}

/// What [`spec_result_of`] yields: success exactly on zero, otherwise an
/// error carrying the original code.
pub proof fn lemma_spec_result_of(code: i32)
    ensures
        code == 0i32 <==> spec_result_of(code) is Ok,
        spec_result_of(code) matches Err(e) ==> e.spec_code() == code,
{
}

/// Translate the numeric result of a native call: zero is success, every
/// other value becomes a structured error carrying that exact code.
pub fn mpv_result(code: i32) -> (r: Result<(), Error>)
    ensures
        r == spec_result_of(code),
        code == 0i32 ==> r == Result::<(), Error>::Ok(()),
        code != 0i32 ==> (r matches Result::Err(e) && e.spec_code() == code),
{
    if code == 0i32 {
        Ok(())
    } else {
        Err(Error::from_code(code))
    }
}

} // verus!
