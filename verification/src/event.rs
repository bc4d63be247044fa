//! The event decoder: from a raw event record — discriminant, error code,
//! correlation id, payload — to a safe, owned [`Event`] value.
//!
//! Each decode is a pure function of one record; no state persists across
//! calls.  Reply-bearing events carry the record's error code as a
//! `Result`, property-carrying events keep their payload for lazy, typed
//! extraction through the [`Format`] capability, and a discriminant
//! outside the known set degrades to the null event, never to a failure.

use vstd::prelude::*;

use crate::error::spec_result_of;
use crate::error::Error;
use crate::format::transient_matches_format;
use crate::format::transient_wf;
use crate::format::Format;
use crate::format::Transient;
use crate::format::TransientView;
use crate::protocol::mpv_event_id;
use crate::wire::strings_view;

verus! {

/// Data of a property event: the property's name, the numeric format tag
/// of its payload, and the payload itself, typed on demand.
pub struct Property {
    pub name: String,
    pub format: i32,
    pub data: Transient,
}

/// Mathematical image of a [`Property`].
pub struct PropertyView {
    pub name: Seq<char>,
    pub format: i32,
    pub data: TransientView,
}

impl View for Property {
    type V = PropertyView;

    open spec fn view(&self) -> PropertyView {
        PropertyView { name: self.name@, format: self.format, data: self.data@ }
    }
}

/// Well-formedness of a property payload: the transient is well-formed
/// and has the shape its format tag names.
pub open spec fn property_wf(p: PropertyView) -> bool {
    &&& transient_wf(p.data)
    &&& transient_matches_format(p.format, p.data)
}

impl Property {
    /// Name of the property.
    pub fn name(&self) -> (r: &str)
        ensures
            r@ == self@.name,
    {
        self.name.as_str()
    }

    /// Read the payload as `T`.  A payload whose format tag is not `T`'s
    /// yields no value — a format mismatch, never a failure — as does a
    /// payload whose text cannot be decoded.
    pub fn data<T: Format>(&self) -> (r: Option<T>)
        requires
            property_wf(self@),
        ensures
            self.format != T::spec_format() ==> r is None,
            self.format == T::spec_format() ==> match r {
                Some(v) => T::read_rel(self@.data, v),
                None => T::read_fails(self@.data),
            },
    {
        if self.format == T::mpv_format() {
            match T::from_ptr(&self.data) {
                Ok(v) => Some(v),
                Err(_) => None,
            }
        } else {
            None
        }
    }
}

/// Data of a log-message event.
pub struct LogMessage {
    pub prefix: String,
    pub level: String,
    pub text: String,
    pub log_level: i32,
}

/// Mathematical image of a [`LogMessage`].
pub struct LogMessageView {
    pub prefix: Seq<char>,
    pub level: Seq<char>,
    pub text: Seq<char>,
    pub log_level: i32,
}

impl View for LogMessage {
    type V = LogMessageView;

    open spec fn view(&self) -> LogMessageView {
        LogMessageView {
            prefix: self.prefix@,
            level: self.level@,
            text: self.text@,
            log_level: self.log_level,
        }
    }
}

/// Data of a start-file event.
#[derive(Clone, Copy, Debug, PartialEq, Eq, Structural)]
pub struct StartFile {
    pub playlist_entry_id: i64,
}

impl StartFile {
    /// Playlist entry ID of the file being loaded now.
    pub fn playlist_entry_id(&self) -> (r: i64)
        ensures
            r == self.playlist_entry_id,
    {
        self.playlist_entry_id
    }
}

/// Data of an end-file event.
#[derive(Clone, Copy, Debug, PartialEq, Eq, Structural)]
pub struct EndFile {
    pub reason: i32,
    pub error: i32,
    pub playlist_entry_id: i64,
    pub playlist_insert_id: i64,
    pub playlist_insert_num_entries: i32,
}

/// Data of a client-message event: the ordered script-message arguments.
pub struct ClientMessage {
    pub args: Vec<String>,
}

impl View for ClientMessage {
    type V = Seq<Seq<char>>;

    open spec fn view(&self) -> Seq<Seq<char>> {
        strings_view(self.args@)
    }
}

impl ClientMessage {
    /// The ordered message arguments.
    pub fn args(&self) -> (r: &Vec<String>)
        ensures
            strings_view(r@) == self@,
    {
        &self.args
    }
}

/// Data of a hook event: the hook's name and the continuation id that
/// must later be handed to the hook-continue call.
pub struct Hook {
    pub name: String,
    pub id: u64,
}

/// Mathematical image of a [`Hook`].
pub struct HookView {
    pub name: Seq<char>,
    pub id: u64,
}

impl View for Hook {
    type V = HookView;

    open spec fn view(&self) -> HookView {
        HookView { name: self.name@, id: self.id }
    }
}

impl Hook {
    /// The hook name as registered with the hook-add call.
    pub fn name(&self) -> (r: &str)
        ensures
            r@ == self@.name,
    {
        self.name.as_str()
    }

    /// The continuation id owed to the hook-continue call.
    pub fn id(&self) -> (r: u64)
        ensures
            r == self@.id,
    {
        self.id
    }
}

/// The payload of a raw event record; its shape is determined by the
/// record's discriminant.
pub enum EventData {
    /// No payload.
    Nothing,
    Property(Property),
    LogMessage(LogMessage),
    StartFile(StartFile),
    EndFile(EndFile),
    ClientMessage(ClientMessage),
    Hook(Hook),
}

/// A raw event record as the native queue delivers it: discriminant,
/// error code, correlation id and payload.
pub struct EventRecord {
    pub event_id: i32,
    pub error: i32,
    pub reply_userdata: u64,
    pub data: EventData,
}

/// Well-formedness of a raw record: the payload has the shape the
/// discriminant names.  A discriminant outside the known set constrains
/// nothing; the decoder does not read its payload.
pub open spec fn record_wf(rec: EventRecord) -> bool {
    match mpv_event_id::spec_from_id(rec.event_id) {
        Some(mpv_event_id::LOG_MESSAGE) => rec.data matches EventData::LogMessage(_),
        Some(mpv_event_id::GET_PROPERTY_REPLY) => rec.data matches EventData::Property(p)
            && property_wf(p@),
        Some(mpv_event_id::PROPERTY_CHANGE) => rec.data matches EventData::Property(p)
            && property_wf(p@),
        Some(mpv_event_id::START_FILE) => rec.data matches EventData::StartFile(_),
        Some(mpv_event_id::END_FILE) => rec.data matches EventData::EndFile(_),
        Some(mpv_event_id::CLIENT_MESSAGE) => rec.data matches EventData::ClientMessage(_),
        Some(mpv_event_id::HOOK) => rec.data matches EventData::Hook(_),
        _ => true,
    }
}

/// An event received from the native queue, decoded into an owned value.
pub enum Event {
    /// Nothing happened, or the record's discriminant lies outside the
    /// known set: timeouts, sporadic wakeups, event kinds newer than this
    /// reader.
    Null,
    /// The player quits and disconnects all clients.
    Shutdown,
    /// A log message, as requested from the native side.
    LogMessage(LogMessage),
    /// Reply to an asynchronous property read: the call's result, the
    /// caller's correlation id, and the property payload.
    GetPropertyReply(Result<(), Error>, u64, Property),
    /// Reply to an asynchronous property write.
    SetPropertyReply(Result<(), Error>, u64),
    /// Reply to an asynchronous command.
    CommandReply(Result<(), Error>, u64),
    /// Playback of a file is about to start.
    StartFile(StartFile),
    /// Playback of a file ended.
    EndFile(EndFile),
    /// The file has been loaded and decoding starts.
    FileLoaded,
    /// A script message addressed to this client.
    ClientMessage(ClientMessage),
    /// The video output was reconfigured.
    VideoReconfig,
    /// The audio output was reconfigured.
    AudioReconfig,
    /// A seek was initiated.
    Seek,
    /// Playback was reinitialized after a discontinuity.
    PlaybackRestart,
    /// An observed property changed: the registration's correlation id
    /// and the property payload.
    PropertyChange(u64, Property),
    /// The native event ring buffer overflowed and dropped events.
    QueueOverflow,
    /// A registered hook fired: the registration's correlation id and the
    /// hook payload, whose continuation id is owed back.
    Hook(u64, Hook),
}

impl Event {
    /// The discriminant this event was decoded from, with the null event
    /// standing for every unknown discriminant.
    pub open spec fn spec_event_id(self) -> mpv_event_id {
        match self {
            Event::Null => mpv_event_id::NONE,
            Event::Shutdown => mpv_event_id::SHUTDOWN,
            Event::LogMessage(_) => mpv_event_id::LOG_MESSAGE,
            Event::GetPropertyReply(_, _, _) => mpv_event_id::GET_PROPERTY_REPLY,
            Event::SetPropertyReply(_, _) => mpv_event_id::SET_PROPERTY_REPLY,
            Event::CommandReply(_, _) => mpv_event_id::COMMAND_REPLY,
            Event::StartFile(_) => mpv_event_id::START_FILE,
            Event::EndFile(_) => mpv_event_id::END_FILE,
            Event::FileLoaded => mpv_event_id::FILE_LOADED,
            Event::ClientMessage(_) => mpv_event_id::CLIENT_MESSAGE,
            Event::VideoReconfig => mpv_event_id::VIDEO_RECONFIG,
            Event::AudioReconfig => mpv_event_id::AUDIO_RECONFIG,
            Event::Seek => mpv_event_id::SEEK,
            Event::PlaybackRestart => mpv_event_id::PLAYBACK_RESTART,
            Event::PropertyChange(_, _) => mpv_event_id::PROPERTY_CHANGE,
            Event::QueueOverflow => mpv_event_id::QUEUE_OVERFLOW,
            Event::Hook(_, _) => mpv_event_id::HOOK,
        }
    }

    /// The discriminant this event was decoded from.
    pub fn event_id(&self) -> (r: mpv_event_id)
        ensures
            r == self.spec_event_id(),
    {
        match self {
            Event::Null => mpv_event_id::NONE,
            Event::Shutdown => mpv_event_id::SHUTDOWN,
            Event::LogMessage(_) => mpv_event_id::LOG_MESSAGE,
            Event::GetPropertyReply(_, _, _) => mpv_event_id::GET_PROPERTY_REPLY,
            Event::SetPropertyReply(_, _) => mpv_event_id::SET_PROPERTY_REPLY,
            Event::CommandReply(_, _) => mpv_event_id::COMMAND_REPLY,
            Event::StartFile(_) => mpv_event_id::START_FILE,
            Event::EndFile(_) => mpv_event_id::END_FILE,
            Event::FileLoaded => mpv_event_id::FILE_LOADED,
            Event::ClientMessage(_) => mpv_event_id::CLIENT_MESSAGE,
            Event::VideoReconfig => mpv_event_id::VIDEO_RECONFIG,
            Event::AudioReconfig => mpv_event_id::AUDIO_RECONFIG,
            Event::Seek => mpv_event_id::SEEK,
            Event::PlaybackRestart => mpv_event_id::PLAYBACK_RESTART,
            Event::PropertyChange(_, _) => mpv_event_id::PROPERTY_CHANGE,
            Event::QueueOverflow => mpv_event_id::QUEUE_OVERFLOW,
            Event::Hook(_, _) => mpv_event_id::HOOK,
        }
    }

    /// Decode one raw event record.
    ///
    /// The discriminant selects the event; reply-bearing events carry the
    /// record's error code as a result; payloads move into the event
    /// unchanged.  A discriminant outside the known set — including the
    /// deprecated ones — yields the null event.
    pub fn from_record(rec: EventRecord) -> (r: Event)
        requires
            record_wf(rec),
        ensures
            ({
                let kind = mpv_event_id::spec_from_id(rec.event_id);
                &&& kind == Some(mpv_event_id::SHUTDOWN) ==> r is Shutdown
                &&& kind == Some(mpv_event_id::LOG_MESSAGE) ==> ({
                    &&& r matches Event::LogMessage(m)
                    &&& rec.data matches EventData::LogMessage(m0)
                    &&& m@ == m0@
                })
                &&& kind == Some(mpv_event_id::GET_PROPERTY_REPLY) ==> ({
                    &&& r matches Event::GetPropertyReply(res, u, p)
                    &&& res == spec_result_of(rec.error)
                    &&& u == rec.reply_userdata
                    &&& rec.data matches EventData::Property(p0)
                    &&& p@ == p0@
                    &&& property_wf(p@)
                })
                &&& kind == Some(mpv_event_id::SET_PROPERTY_REPLY) ==> ({
                    &&& r matches Event::SetPropertyReply(res, u)
                    &&& res == spec_result_of(rec.error)
                    &&& u == rec.reply_userdata
                })
                &&& kind == Some(mpv_event_id::COMMAND_REPLY) ==> ({
                    &&& r matches Event::CommandReply(res, u)
                    &&& res == spec_result_of(rec.error)
                    &&& u == rec.reply_userdata
                })
                &&& kind == Some(mpv_event_id::START_FILE) ==> ({
                    &&& r matches Event::StartFile(s)
                    &&& rec.data matches EventData::StartFile(s0)
                    &&& s == s0
                })
                &&& kind == Some(mpv_event_id::END_FILE) ==> ({
                    &&& r matches Event::EndFile(e)
                    &&& rec.data matches EventData::EndFile(e0)
                    &&& e == e0
                })
                &&& kind == Some(mpv_event_id::FILE_LOADED) ==> r is FileLoaded
                &&& kind == Some(mpv_event_id::CLIENT_MESSAGE) ==> ({
                    &&& r matches Event::ClientMessage(m)
                    &&& rec.data matches EventData::ClientMessage(m0)
                    &&& m@ == m0@
                })
                &&& kind == Some(mpv_event_id::VIDEO_RECONFIG) ==> r is VideoReconfig
                &&& kind == Some(mpv_event_id::AUDIO_RECONFIG) ==> r is AudioReconfig
                &&& kind == Some(mpv_event_id::SEEK) ==> r is Seek
                &&& kind == Some(mpv_event_id::PLAYBACK_RESTART) ==> r is PlaybackRestart
                &&& kind == Some(mpv_event_id::PROPERTY_CHANGE) ==> ({
                    &&& r matches Event::PropertyChange(u, p)
                    &&& u == rec.reply_userdata
                    &&& rec.data matches EventData::Property(p0)
                    &&& p@ == p0@
                    &&& property_wf(p@)
                })
                &&& kind == Some(mpv_event_id::QUEUE_OVERFLOW) ==> r is QueueOverflow
                &&& kind == Some(mpv_event_id::HOOK) ==> ({
                    &&& r matches Event::Hook(u, h)
                    &&& u == rec.reply_userdata
                    &&& rec.data matches EventData::Hook(h0)
                    &&& h@ == h0@
                })
                &&& (kind is None || kind == Some(mpv_event_id::NONE) || kind == Some(
                    mpv_event_id::IDLE,
                ) || kind == Some(mpv_event_id::TICK)) ==> r is Null
            }),
    {
        match mpv_event_id::from_id(rec.event_id) {
            Some(id) => match id {
                mpv_event_id::SHUTDOWN => Event::Shutdown,
                mpv_event_id::LOG_MESSAGE => match rec.data {
                    EventData::LogMessage(m) => Event::LogMessage(m),
                    _ => unreached(),
                },
                mpv_event_id::GET_PROPERTY_REPLY => match rec.data {
                    EventData::Property(p) => Event::GetPropertyReply(
                        crate::error::mpv_result(rec.error),
                        rec.reply_userdata,
                        p,
                    ),
                    _ => unreached(),
                },
                mpv_event_id::SET_PROPERTY_REPLY => Event::SetPropertyReply(
                    crate::error::mpv_result(rec.error),
                    rec.reply_userdata,
                ),
                mpv_event_id::COMMAND_REPLY => Event::CommandReply(
                    crate::error::mpv_result(rec.error),
                    rec.reply_userdata,
                ),
                mpv_event_id::START_FILE => match rec.data {
                    EventData::StartFile(s) => Event::StartFile(s),
                    _ => unreached(),
                },
                mpv_event_id::END_FILE => match rec.data {
                    EventData::EndFile(e) => Event::EndFile(e),
                    _ => unreached(),
                },
                mpv_event_id::FILE_LOADED => Event::FileLoaded,
                mpv_event_id::CLIENT_MESSAGE => match rec.data {
                    EventData::ClientMessage(m) => Event::ClientMessage(m),
                    _ => unreached(),
                },
                mpv_event_id::VIDEO_RECONFIG => Event::VideoReconfig,
                mpv_event_id::AUDIO_RECONFIG => Event::AudioReconfig,
                mpv_event_id::SEEK => Event::Seek,
                mpv_event_id::PLAYBACK_RESTART => Event::PlaybackRestart,
                mpv_event_id::PROPERTY_CHANGE => match rec.data {
                    EventData::Property(p) => Event::PropertyChange(rec.reply_userdata, p),
                    _ => unreached(),
                },
                mpv_event_id::QUEUE_OVERFLOW => Event::QueueOverflow,
                mpv_event_id::HOOK => match rec.data {
                    EventData::Hook(h) => Event::Hook(rec.reply_userdata, h),
                    _ => unreached(),
                },
                mpv_event_id::NONE => Event::Null,
                mpv_event_id::IDLE => Event::Null,
                mpv_event_id::TICK => Event::Null,
            },
            None => Event::Null,
        }
    }
}

} // verus!
