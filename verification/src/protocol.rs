//! Numeric constants of the native protocol: format tags, error codes,
//! event discriminants, log levels and end-file reasons.
//!
//! The native side fixes every number here; none of them may be renumbered.

#![allow(non_camel_case_types)]

use vstd::prelude::*;
use vstd::string::StringExecFns;

verus! {

/// Format tag of an absent value.
pub const MPV_FORMAT_NONE: i32 = 0;
/// Format tag of a null-terminated string.
pub const MPV_FORMAT_STRING: i32 = 1;
/// Format tag of a boolean, carried as a 4-byte integer holding 0 or 1.
pub const MPV_FORMAT_FLAG: i32 = 3;
/// Format tag of a signed 64-bit integer.
pub const MPV_FORMAT_INT64: i32 = 4;
/// Format tag of a 64-bit float.
pub const MPV_FORMAT_DOUBLE: i32 = 5;
/// Format tag of a recursive tagged node.
pub const MPV_FORMAT_NODE: i32 = 6;
/// Format tag of a byte array (size plus data pointer).
pub const MPV_FORMAT_BYTE_ARRAY: i32 = 7;
/// Format tag of an ordered list of nodes.
pub const MPV_FORMAT_NODE_ARRAY: i32 = 8;
/// Format tag of a keyed map of nodes.
pub const MPV_FORMAT_NODE_MAP: i32 = 9;

/// The closed set of status codes the native calls return.
/// `SUCCESS` is 0; every failure is a distinct negative code.
#[derive(Clone, Copy, Debug, PartialEq, Eq, Structural)]
pub enum mpv_error {
    SUCCESS,
    EVENT_QUEUE_FULL,
    NOMEM,
    UNINITIALIZED,
    INVALID_PARAMETER,
    OPTION_NOT_FOUND,
    OPTION_FORMAT,
    OPTION_ERROR,
    PROPERTY_NOT_FOUND,
    PROPERTY_FORMAT,
    PROPERTY_UNAVAILABLE,
    PROPERTY_ERROR,
    COMMAND,
    LOADING_FAILED,
    AO_INIT_FAILED,
    VO_INIT_FAILED,
    NOTHING_TO_PLAY,
    UNKNOWN_FORMAT,
    UNSUPPORTED,
    NOT_IMPLEMENTED,
    GENERIC,
}

impl mpv_error {
    /// The numeric value the native side uses for this status.
    pub open spec fn spec_code(self) -> i32 {
        match self {
            mpv_error::SUCCESS => 0i32,
            mpv_error::EVENT_QUEUE_FULL => -1i32,
            mpv_error::NOMEM => -2i32,
            mpv_error::UNINITIALIZED => -3i32,
            mpv_error::INVALID_PARAMETER => -4i32,
            mpv_error::OPTION_NOT_FOUND => -5i32,
            mpv_error::OPTION_FORMAT => -6i32,
            mpv_error::OPTION_ERROR => -7i32,
            mpv_error::PROPERTY_NOT_FOUND => -8i32,
            mpv_error::PROPERTY_FORMAT => -9i32,
            mpv_error::PROPERTY_UNAVAILABLE => -10i32,
            mpv_error::PROPERTY_ERROR => -11i32,
            mpv_error::COMMAND => -12i32,
            mpv_error::LOADING_FAILED => -13i32,
            mpv_error::AO_INIT_FAILED => -14i32,
            mpv_error::VO_INIT_FAILED => -15i32,
            mpv_error::NOTHING_TO_PLAY => -16i32,
            mpv_error::UNKNOWN_FORMAT => -17i32,
            mpv_error::UNSUPPORTED => -18i32,
            mpv_error::NOT_IMPLEMENTED => -19i32,
            mpv_error::GENERIC => -20i32,
        }
    }

    /// Numeric value of this status.
    pub fn code(self) -> (r: i32)
        ensures
            r == self.spec_code(),
    {
        match self {
            mpv_error::SUCCESS => 0i32,
            mpv_error::EVENT_QUEUE_FULL => -1i32,
            mpv_error::NOMEM => -2i32,
            mpv_error::UNINITIALIZED => -3i32,
            mpv_error::INVALID_PARAMETER => -4i32,
            mpv_error::OPTION_NOT_FOUND => -5i32,
            mpv_error::OPTION_FORMAT => -6i32,
            mpv_error::OPTION_ERROR => -7i32,
            mpv_error::PROPERTY_NOT_FOUND => -8i32,
            mpv_error::PROPERTY_FORMAT => -9i32,
            mpv_error::PROPERTY_UNAVAILABLE => -10i32,
            mpv_error::PROPERTY_ERROR => -11i32,
            mpv_error::COMMAND => -12i32,
            mpv_error::LOADING_FAILED => -13i32,
            mpv_error::AO_INIT_FAILED => -14i32,
            mpv_error::VO_INIT_FAILED => -15i32,
            mpv_error::NOTHING_TO_PLAY => -16i32,
            mpv_error::UNKNOWN_FORMAT => -17i32,
            mpv_error::UNSUPPORTED => -18i32,
            mpv_error::NOT_IMPLEMENTED => -19i32,
            mpv_error::GENERIC => -20i32,
        }
    }

    /// The status a numeric value stands for, when it is in the closed set.
    pub open spec fn spec_from_code(code: i32) -> Option<mpv_error> {
        if code == 0i32 {
            Some(mpv_error::SUCCESS)
        } else if code == -1i32 {
            Some(mpv_error::EVENT_QUEUE_FULL)
        } else if code == -2i32 {
            Some(mpv_error::NOMEM)
        } else if code == -3i32 {
            Some(mpv_error::UNINITIALIZED)
        } else if code == -4i32 {
            Some(mpv_error::INVALID_PARAMETER)
        } else if code == -5i32 {
            Some(mpv_error::OPTION_NOT_FOUND)
        } else if code == -6i32 {
            Some(mpv_error::OPTION_FORMAT)
        } else if code == -7i32 {
            Some(mpv_error::OPTION_ERROR)
        } else if code == -8i32 {
            Some(mpv_error::PROPERTY_NOT_FOUND)
        } else if code == -9i32 {
            Some(mpv_error::PROPERTY_FORMAT)
        } else if code == -10i32 {
            Some(mpv_error::PROPERTY_UNAVAILABLE)
        } else if code == -11i32 {
            Some(mpv_error::PROPERTY_ERROR)
        } else if code == -12i32 {
            Some(mpv_error::COMMAND)
        } else if code == -13i32 {
            Some(mpv_error::LOADING_FAILED)
        } else if code == -14i32 {
            Some(mpv_error::AO_INIT_FAILED)
        } else if code == -15i32 {
            Some(mpv_error::VO_INIT_FAILED)
        } else if code == -16i32 {
            Some(mpv_error::NOTHING_TO_PLAY)
        } else if code == -17i32 {
            Some(mpv_error::UNKNOWN_FORMAT)
        } else if code == -18i32 {
            Some(mpv_error::UNSUPPORTED)
        } else if code == -19i32 {
            Some(mpv_error::NOT_IMPLEMENTED)
        } else if code == -20i32 {
            Some(mpv_error::GENERIC)
        } else {
            None
        }
    }

    /// Classify a numeric status; codes outside the closed set yield `None`.
    pub fn from_code(code: i32) -> (r: Option<mpv_error>)
        ensures
            r == mpv_error::spec_from_code(code),
    {
        if code == 0i32 {
            Some(mpv_error::SUCCESS)
        } else if code == -1i32 {
            Some(mpv_error::EVENT_QUEUE_FULL)
        } else if code == -2i32 {
            Some(mpv_error::NOMEM)
        } else if code == -3i32 {
            Some(mpv_error::UNINITIALIZED)
        } else if code == -4i32 {
            Some(mpv_error::INVALID_PARAMETER)
        } else if code == -5i32 {
            Some(mpv_error::OPTION_NOT_FOUND)
        } else if code == -6i32 {
            Some(mpv_error::OPTION_FORMAT)
        } else if code == -7i32 {
            Some(mpv_error::OPTION_ERROR)
        } else if code == -8i32 {
            Some(mpv_error::PROPERTY_NOT_FOUND)
        } else if code == -9i32 {
            Some(mpv_error::PROPERTY_FORMAT)
        } else if code == -10i32 {
            Some(mpv_error::PROPERTY_UNAVAILABLE)
        } else if code == -11i32 {
            Some(mpv_error::PROPERTY_ERROR)
        } else if code == -12i32 {
            Some(mpv_error::COMMAND)
        } else if code == -13i32 {
            Some(mpv_error::LOADING_FAILED)
        } else if code == -14i32 {
            Some(mpv_error::AO_INIT_FAILED)
        } else if code == -15i32 {
            Some(mpv_error::VO_INIT_FAILED)
        } else if code == -16i32 {
            Some(mpv_error::NOTHING_TO_PLAY)
        } else if code == -17i32 {
            Some(mpv_error::UNKNOWN_FORMAT)
        } else if code == -18i32 {
            Some(mpv_error::UNSUPPORTED)
        } else if code == -19i32 {
            Some(mpv_error::NOT_IMPLEMENTED)
        } else if code == -20i32 {
            Some(mpv_error::GENERIC)
        } else {
            None
        }
    }
}

/// Round-tripping a status through its numeric code gives the status back,
/// and every code in the closed set maps to the status that carries it.
pub proof fn lemma_error_code_round_trip(e: mpv_error)
    ensures
        mpv_error::spec_from_code(e.spec_code()) == Some(e),
{
}

/// The discriminants of the event records the native queue delivers.
/// `IDLE` and `TICK` are kept for completeness; the native side has
/// deprecated them and the decoder treats them as unknown.
#[derive(Clone, Copy, Debug, PartialEq, Eq, Structural)]
pub enum mpv_event_id {
    NONE,
    SHUTDOWN,
    LOG_MESSAGE,
    GET_PROPERTY_REPLY,
    SET_PROPERTY_REPLY,
    COMMAND_REPLY,
    START_FILE,
    END_FILE,
    FILE_LOADED,
    IDLE,
    TICK,
    CLIENT_MESSAGE,
    VIDEO_RECONFIG,
    AUDIO_RECONFIG,
    SEEK,
    PLAYBACK_RESTART,
    PROPERTY_CHANGE,
    QUEUE_OVERFLOW,
    HOOK,
}

impl mpv_event_id {
    /// The numeric discriminant the native side uses for this event kind.
    pub open spec fn spec_id(self) -> i32 {
        match self {
            mpv_event_id::NONE => 0i32,
            mpv_event_id::SHUTDOWN => 1i32,
            mpv_event_id::LOG_MESSAGE => 2i32,
            mpv_event_id::GET_PROPERTY_REPLY => 3i32,
            mpv_event_id::SET_PROPERTY_REPLY => 4i32,
            mpv_event_id::COMMAND_REPLY => 5i32,
            mpv_event_id::START_FILE => 6i32,
            mpv_event_id::END_FILE => 7i32,
            mpv_event_id::FILE_LOADED => 8i32,
            mpv_event_id::IDLE => 11i32,
            mpv_event_id::TICK => 14i32,
            mpv_event_id::CLIENT_MESSAGE => 16i32,
            mpv_event_id::VIDEO_RECONFIG => 17i32,
            mpv_event_id::AUDIO_RECONFIG => 18i32,
            mpv_event_id::SEEK => 20i32,
            mpv_event_id::PLAYBACK_RESTART => 21i32,
            mpv_event_id::PROPERTY_CHANGE => 22i32,
            mpv_event_id::QUEUE_OVERFLOW => 24i32,
            mpv_event_id::HOOK => 25i32,
        }
    }

    /// Numeric discriminant of this event kind.
    pub fn id(self) -> (r: i32)
        ensures
            r == self.spec_id(),
    {
        match self {
            mpv_event_id::NONE => 0i32,
            mpv_event_id::SHUTDOWN => 1i32,
            mpv_event_id::LOG_MESSAGE => 2i32,
            mpv_event_id::GET_PROPERTY_REPLY => 3i32,
            mpv_event_id::SET_PROPERTY_REPLY => 4i32,
            mpv_event_id::COMMAND_REPLY => 5i32,
            mpv_event_id::START_FILE => 6i32,
            mpv_event_id::END_FILE => 7i32,
            mpv_event_id::FILE_LOADED => 8i32,
            mpv_event_id::IDLE => 11i32,
            mpv_event_id::TICK => 14i32,
            mpv_event_id::CLIENT_MESSAGE => 16i32,
            mpv_event_id::VIDEO_RECONFIG => 17i32,
            mpv_event_id::AUDIO_RECONFIG => 18i32,
            mpv_event_id::SEEK => 20i32,
            mpv_event_id::PLAYBACK_RESTART => 21i32,
            mpv_event_id::PROPERTY_CHANGE => 22i32,
            mpv_event_id::QUEUE_OVERFLOW => 24i32,
            mpv_event_id::HOOK => 25i32,
        }
    }

    /// The event kind a numeric discriminant stands for; discriminants
    /// outside the known set stand for nothing.
    pub open spec fn spec_from_id(id: i32) -> Option<mpv_event_id> {
        if id == 0i32 {
            Some(mpv_event_id::NONE)
        } else if id == 1i32 {
            Some(mpv_event_id::SHUTDOWN)
        } else if id == 2i32 {
            Some(mpv_event_id::LOG_MESSAGE)
        } else if id == 3i32 {
            Some(mpv_event_id::GET_PROPERTY_REPLY)
        } else if id == 4i32 {
            Some(mpv_event_id::SET_PROPERTY_REPLY)
        } else if id == 5i32 {
            Some(mpv_event_id::COMMAND_REPLY)
        } else if id == 6i32 {
            Some(mpv_event_id::START_FILE)
        } else if id == 7i32 {
            Some(mpv_event_id::END_FILE)
        } else if id == 8i32 {
            Some(mpv_event_id::FILE_LOADED)
        } else if id == 11i32 {
            Some(mpv_event_id::IDLE)
        } else if id == 14i32 {
            Some(mpv_event_id::TICK)
        } else if id == 16i32 {
            Some(mpv_event_id::CLIENT_MESSAGE)
        } else if id == 17i32 {
            Some(mpv_event_id::VIDEO_RECONFIG)
        } else if id == 18i32 {
            Some(mpv_event_id::AUDIO_RECONFIG)
        } else if id == 20i32 {
            Some(mpv_event_id::SEEK)
        } else if id == 21i32 {
            Some(mpv_event_id::PLAYBACK_RESTART)
        } else if id == 22i32 {
            Some(mpv_event_id::PROPERTY_CHANGE)
        } else if id == 24i32 {
            Some(mpv_event_id::QUEUE_OVERFLOW)
        } else if id == 25i32 {
            Some(mpv_event_id::HOOK)
        } else {
            None
        }
    }

    /// Classify a numeric discriminant; unknown discriminants yield `None`.
    pub fn from_id(id: i32) -> (r: Option<mpv_event_id>)
        ensures
            r == mpv_event_id::spec_from_id(id),
    {
        if id == 0i32 {
            Some(mpv_event_id::NONE)
        } else if id == 1i32 {
            Some(mpv_event_id::SHUTDOWN)
        } else if id == 2i32 {
            Some(mpv_event_id::LOG_MESSAGE)
        } else if id == 3i32 {
            Some(mpv_event_id::GET_PROPERTY_REPLY)
        } else if id == 4i32 {
            Some(mpv_event_id::SET_PROPERTY_REPLY)
        } else if id == 5i32 {
            Some(mpv_event_id::COMMAND_REPLY)
        } else if id == 6i32 {
            Some(mpv_event_id::START_FILE)
        } else if id == 7i32 {
            Some(mpv_event_id::END_FILE)
        } else if id == 8i32 {
            Some(mpv_event_id::FILE_LOADED)
        } else if id == 11i32 {
            Some(mpv_event_id::IDLE)
        } else if id == 14i32 {
            Some(mpv_event_id::TICK)
        } else if id == 16i32 {
            Some(mpv_event_id::CLIENT_MESSAGE)
        } else if id == 17i32 {
            Some(mpv_event_id::VIDEO_RECONFIG)
        } else if id == 18i32 {
            Some(mpv_event_id::AUDIO_RECONFIG)
        } else if id == 20i32 {
            Some(mpv_event_id::SEEK)
        } else if id == 21i32 {
            Some(mpv_event_id::PLAYBACK_RESTART)
        } else if id == 22i32 {
            Some(mpv_event_id::PROPERTY_CHANGE)
        } else if id == 24i32 {
            Some(mpv_event_id::QUEUE_OVERFLOW)
        } else if id == 25i32 {
            Some(mpv_event_id::HOOK)
        } else {
            None
        }
    }
}

impl mpv_event_id {
    /// The name of this event kind, mirroring the native event-name lookup.
    pub fn name(self) -> (r: String)
        ensures
            r@ == spec_event_name(self),
            r@.len() > 0,
    {
        proof {
            lemma_event_name_nonempty(self);
        }
        match self {
            mpv_event_id::NONE => String::from_str("none"),
            mpv_event_id::SHUTDOWN => String::from_str("shutdown"),
            mpv_event_id::LOG_MESSAGE => String::from_str("log-message"),
            mpv_event_id::GET_PROPERTY_REPLY => String::from_str("get-property-reply"),
            mpv_event_id::SET_PROPERTY_REPLY => String::from_str("set-property-reply"),
            mpv_event_id::COMMAND_REPLY => String::from_str("command-reply"),
            mpv_event_id::START_FILE => String::from_str("start-file"),
            mpv_event_id::END_FILE => String::from_str("end-file"),
            mpv_event_id::FILE_LOADED => String::from_str("file-loaded"),
            mpv_event_id::IDLE => String::from_str("idle"),
            mpv_event_id::TICK => String::from_str("tick"),
            mpv_event_id::CLIENT_MESSAGE => String::from_str("client-message"),
            mpv_event_id::VIDEO_RECONFIG => String::from_str("video-reconfig"),
            mpv_event_id::AUDIO_RECONFIG => String::from_str("audio-reconfig"),
            mpv_event_id::SEEK => String::from_str("seek"),
            mpv_event_id::PLAYBACK_RESTART => String::from_str("playback-restart"),
            mpv_event_id::PROPERTY_CHANGE => String::from_str("property-change"),
            mpv_event_id::QUEUE_OVERFLOW => String::from_str("event-queue-overflow"),
            mpv_event_id::HOOK => String::from_str("hook"),
        }
    }
}

/// Round-tripping an event kind through its numeric discriminant gives the
/// kind back.
pub proof fn lemma_event_id_round_trip(e: mpv_event_id)
    ensures
        mpv_event_id::spec_from_id(e.spec_id()) == Some(e),
{
}

/// The name attached to an event kind, mirroring the native event-name
/// lookup.
pub open spec fn spec_event_name(e: mpv_event_id) -> Seq<char> {
    match e {
        mpv_event_id::NONE => "none"@,
        mpv_event_id::SHUTDOWN => "shutdown"@,
        mpv_event_id::LOG_MESSAGE => "log-message"@,
        mpv_event_id::GET_PROPERTY_REPLY => "get-property-reply"@,
        mpv_event_id::SET_PROPERTY_REPLY => "set-property-reply"@,
        mpv_event_id::COMMAND_REPLY => "command-reply"@,
        mpv_event_id::START_FILE => "start-file"@,
        mpv_event_id::END_FILE => "end-file"@,
        mpv_event_id::FILE_LOADED => "file-loaded"@,
        mpv_event_id::IDLE => "idle"@,
        mpv_event_id::TICK => "tick"@,
        mpv_event_id::CLIENT_MESSAGE => "client-message"@,
        mpv_event_id::VIDEO_RECONFIG => "video-reconfig"@,
        mpv_event_id::AUDIO_RECONFIG => "audio-reconfig"@,
        mpv_event_id::SEEK => "seek"@,
        mpv_event_id::PLAYBACK_RESTART => "playback-restart"@,
        mpv_event_id::PROPERTY_CHANGE => "property-change"@,
        mpv_event_id::QUEUE_OVERFLOW => "event-queue-overflow"@,
        mpv_event_id::HOOK => "hook"@,
    }
}

/// Every event kind has a non-empty name.
pub proof fn lemma_event_name_nonempty(e: mpv_event_id)
    ensures
        spec_event_name(e).len() > 0,
{
    reveal_strlit("none");
    reveal_strlit("shutdown");
    reveal_strlit("log-message");
    reveal_strlit("get-property-reply");
    reveal_strlit("set-property-reply");
    reveal_strlit("command-reply");
    reveal_strlit("start-file");
    reveal_strlit("end-file");
    reveal_strlit("file-loaded");
    reveal_strlit("idle");
    reveal_strlit("tick");
    reveal_strlit("client-message");
    reveal_strlit("video-reconfig");
    reveal_strlit("audio-reconfig");
    reveal_strlit("seek");
    reveal_strlit("playback-restart");
    reveal_strlit("property-change");
    reveal_strlit("event-queue-overflow");
    reveal_strlit("hook");
}

/// Severity levels of the native log-message events.
#[derive(Clone, Copy, Debug, PartialEq, Eq, Structural)]
pub enum mpv_log_level {
    MPV_LOG_LEVEL_NONE,
    MPV_LOG_LEVEL_FATAL,
    MPV_LOG_LEVEL_ERROR,
    MPV_LOG_LEVEL_WARN,
    MPV_LOG_LEVEL_INFO,
    MPV_LOG_LEVEL_V,
    MPV_LOG_LEVEL_DEBUG,
    MPV_LOG_LEVEL_TRACE,
}

impl mpv_log_level {
    /// The numeric value the native side uses for this level.
    pub open spec fn spec_level(self) -> i32 {
        match self {
            mpv_log_level::MPV_LOG_LEVEL_NONE => 0i32,
            mpv_log_level::MPV_LOG_LEVEL_FATAL => 10i32,
            mpv_log_level::MPV_LOG_LEVEL_ERROR => 20i32,
            mpv_log_level::MPV_LOG_LEVEL_WARN => 30i32,
            mpv_log_level::MPV_LOG_LEVEL_INFO => 40i32,
            mpv_log_level::MPV_LOG_LEVEL_V => 50i32,
            mpv_log_level::MPV_LOG_LEVEL_DEBUG => 60i32,
            mpv_log_level::MPV_LOG_LEVEL_TRACE => 70i32,
        }
    }

    /// Numeric value of this level.
    pub fn level(self) -> (r: i32)
        ensures
            r == self.spec_level(),
    {
        match self {
            mpv_log_level::MPV_LOG_LEVEL_NONE => 0i32,
            mpv_log_level::MPV_LOG_LEVEL_FATAL => 10i32,
            mpv_log_level::MPV_LOG_LEVEL_ERROR => 20i32,
            mpv_log_level::MPV_LOG_LEVEL_WARN => 30i32,
            mpv_log_level::MPV_LOG_LEVEL_INFO => 40i32,
            mpv_log_level::MPV_LOG_LEVEL_V => 50i32,
            mpv_log_level::MPV_LOG_LEVEL_DEBUG => 60i32,
            mpv_log_level::MPV_LOG_LEVEL_TRACE => 70i32,
        }
    }
}

/// Reasons the native side gives for the end of playback of a file.
#[derive(Clone, Copy, Debug, PartialEq, Eq, Structural)]
pub enum mpv_end_file_reason {
    MPV_END_FILE_REASON_EOF,
    MPV_END_FILE_REASON_STOP,
    MPV_END_FILE_REASON_QUIT,
    MPV_END_FILE_REASON_ERROR,
    MPV_END_FILE_REASON_REDIRECT,
}

impl mpv_end_file_reason {
    /// The numeric value the native side uses for this reason.
    pub open spec fn spec_reason(self) -> i32 {
        match self {
            mpv_end_file_reason::MPV_END_FILE_REASON_EOF => 0i32,
            mpv_end_file_reason::MPV_END_FILE_REASON_STOP => 2i32,
            mpv_end_file_reason::MPV_END_FILE_REASON_QUIT => 3i32,
            mpv_end_file_reason::MPV_END_FILE_REASON_ERROR => 4i32,
            mpv_end_file_reason::MPV_END_FILE_REASON_REDIRECT => 5i32,
        }
    }

    /// Numeric value of this reason.
    pub fn reason(self) -> (r: i32)
        ensures
            r == self.spec_reason(),
    {
        match self {
            mpv_end_file_reason::MPV_END_FILE_REASON_EOF => 0i32,
            mpv_end_file_reason::MPV_END_FILE_REASON_STOP => 2i32,
            mpv_end_file_reason::MPV_END_FILE_REASON_QUIT => 3i32,
            mpv_end_file_reason::MPV_END_FILE_REASON_ERROR => 4i32,
            mpv_end_file_reason::MPV_END_FILE_REASON_REDIRECT => 5i32,
        }
    }
}

} // verus!
