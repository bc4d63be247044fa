use mpv_client::event::EventData;
use mpv_client::{
    mpv_error, mpv_event_id, ClientMessage, Error, Event, EventRecord, Hook, Property, StartFile,
    Transient,
};

fn record(event_id: i32, error: i32, reply_userdata: u64, data: EventData) -> EventRecord {
    EventRecord {
        event_id,
        error,
        reply_userdata,
        data,
    }
}

#[test]
fn unknown_discriminant_yields_null_event() {
    let r = Event::from_record(record(999, 0, 0, EventData::Nothing));
    assert!(matches!(r, Event::Null));
    let r = Event::from_record(record(-3, 0, 0, EventData::Nothing));
    assert!(matches!(r, Event::Null));
    // Discriminant 0 and the deprecated discriminants also decode to the
    // null event.
    assert!(matches!(
        Event::from_record(record(0, 0, 0, EventData::Nothing)),
        Event::Null
    ));
    assert!(matches!(
        Event::from_record(record(11, 0, 0, EventData::Nothing)),
        Event::Null
    ));
    assert!(matches!(
        Event::from_record(record(14, 0, 0, EventData::Nothing)),
        Event::Null
    ));
}

#[test]
fn parameterless_markers_decode() {
    assert!(matches!(
        Event::from_record(record(1, 0, 0, EventData::Nothing)),
        Event::Shutdown
    ));
    assert!(matches!(
        Event::from_record(record(8, 0, 0, EventData::Nothing)),
        Event::FileLoaded
    ));
    assert!(matches!(
        Event::from_record(record(17, 0, 0, EventData::Nothing)),
        Event::VideoReconfig
    ));
    assert!(matches!(
        Event::from_record(record(18, 0, 0, EventData::Nothing)),
        Event::AudioReconfig
    ));
    assert!(matches!(
        Event::from_record(record(20, 0, 0, EventData::Nothing)),
        Event::Seek
    ));
    assert!(matches!(
        Event::from_record(record(21, 0, 0, EventData::Nothing)),
        Event::PlaybackRestart
    ));
    assert!(matches!(
        Event::from_record(record(24, 0, 0, EventData::Nothing)),
        Event::QueueOverflow
    ));
}

#[test]
fn error_code_mapping_surfaces_original_code() {
    // A native call returning -8 (property not found) must surface as a
    // structured error carrying -8 and a non-empty message.
    let r = mpv_client::mpv_result(-8);
    match r {
        Err(e) => {
            assert_eq!(e.code(), -8);
            assert!(!e.message().is_empty());
        }
        Ok(()) => panic!("-8 is a failure"),
    }
    assert!(mpv_client::mpv_result(0).is_ok());
}

#[test]
fn reply_events_carry_error_and_correlation_id() {
    let prop = Property {
        name: String::from("volume"),
        format: 4,
        data: Transient::Int64(55),
    };
    let r = Event::from_record(record(3, -8, 77, EventData::Property(prop)));
    match r {
        Event::GetPropertyReply(res, reply, p) => {
            assert_eq!(reply, 77);
            assert_eq!(res.unwrap_err().code(), -8);
            assert_eq!(p.name(), "volume");
        }
        other => panic!("expected get-property reply, got {:?}", other.event_id().id()),
    }

    let r = Event::from_record(record(4, 0, 5, EventData::Nothing));
    match r {
        Event::SetPropertyReply(res, reply) => {
            assert_eq!(reply, 5);
            assert!(res.is_ok());
        }
        _ => panic!("expected set-property reply"),
    }

    let r = Event::from_record(record(5, -12, 9, EventData::Nothing));
    match r {
        Event::CommandReply(res, reply) => {
            assert_eq!(reply, 9);
            assert_eq!(res.unwrap_err().code(), -12);
        }
        _ => panic!("expected command reply"),
    }
}

#[test]
fn property_change_format_mismatch_yields_no_value() {
    // A property-change record carrying the 64-bit integer tag, read as a
    // boolean: no value, never a failure.
    let prop = Property {
        name: String::from("pause"),
        format: 4,
        data: Transient::Int64(1),
    };
    let r = Event::from_record(record(22, 0, 13, EventData::Property(prop)));
    match r {
        Event::PropertyChange(reply, p) => {
            assert_eq!(reply, 13);
            let as_bool: Option<bool> = p.data();
            assert!(as_bool.is_none());
            let as_int: Option<i64> = p.data();
            assert_eq!(as_int, Some(1));
        }
        _ => panic!("expected property change"),
    }
}

#[test]
fn property_data_reads_each_format() {
    let p = Property {
        name: String::from("title"),
        format: 1,
        data: Transient::Str(Some(mpv_client::wire::CBuf {
            bytes: b"abc\0".to_vec(),
        })),
    };
    let s: Option<String> = p.data();
    assert_eq!(s.as_deref(), Some("abc"));
    let b: Option<bool> = p.data();
    assert!(b.is_none());
}

#[test]
fn start_file_and_hook_and_client_message_payloads() {
    let r = Event::from_record(record(
        6,
        0,
        0,
        EventData::StartFile(StartFile {
            playlist_entry_id: 3,
        }),
    ));
    match r {
        Event::StartFile(s) => assert_eq!(s.playlist_entry_id(), 3),
        _ => panic!("expected start-file"),
    }

    let r = Event::from_record(record(
        25,
        0,
        21,
        EventData::Hook(Hook {
            name: String::from("on_load"),
            id: 42,
        }),
    ));
    match r {
        Event::Hook(reply, h) => {
            assert_eq!(reply, 21);
            assert_eq!(h.name(), "on_load");
            assert_eq!(h.id(), 42);
        }
        _ => panic!("expected hook"),
    }

    let r = Event::from_record(record(
        16,
        0,
        0,
        EventData::ClientMessage(ClientMessage {
            args: vec![String::from("key-binding"), String::from("go")],
        }),
    ));
    match r {
        Event::ClientMessage(m) => {
            assert_eq!(m.args().len(), 2);
            assert_eq!(m.args()[0], "key-binding");
            assert_eq!(m.args()[1], "go");
        }
        _ => panic!("expected client message"),
    }
}

#[test]
fn event_id_enum_round_trips() {
    let all = [
        mpv_event_id::NONE,
        mpv_event_id::SHUTDOWN,
        mpv_event_id::LOG_MESSAGE,
        mpv_event_id::GET_PROPERTY_REPLY,
        mpv_event_id::SET_PROPERTY_REPLY,
        mpv_event_id::COMMAND_REPLY,
        mpv_event_id::START_FILE,
        mpv_event_id::END_FILE,
        mpv_event_id::FILE_LOADED,
        mpv_event_id::IDLE,
        mpv_event_id::TICK,
        mpv_event_id::CLIENT_MESSAGE,
        mpv_event_id::VIDEO_RECONFIG,
        mpv_event_id::AUDIO_RECONFIG,
        mpv_event_id::SEEK,
        mpv_event_id::PLAYBACK_RESTART,
        mpv_event_id::PROPERTY_CHANGE,
        mpv_event_id::QUEUE_OVERFLOW,
        mpv_event_id::HOOK,
    ];
    for e in all {
        assert_eq!(mpv_event_id::from_id(e.id()), Some(e));
    }
    assert_eq!(mpv_event_id::from_id(12), None);
    assert_eq!(mpv_event_id::from_id(26), None);
    assert_eq!(mpv_event_id::SHUTDOWN.id(), 1);
    assert_eq!(mpv_event_id::HOOK.id(), 25);
}

#[test]
fn decoded_event_reports_its_discriminant() {
    let r = Event::from_record(record(1, 0, 0, EventData::Nothing));
    assert_eq!(r.event_id(), mpv_event_id::SHUTDOWN);
    let r = Event::from_record(record(999, 0, 0, EventData::Nothing));
    assert_eq!(r.event_id(), mpv_event_id::NONE);
}

#[test]
fn error_struct_keeps_raw_code() {
    let e = Error::from_code(-33);
    assert_eq!(e.code(), -33);
    assert!(!e.message().is_empty());
    let e = Error::new(mpv_error::PROPERTY_NOT_FOUND);
    assert_eq!(e.code(), -8);
    assert_eq!(e.message(), "property not found");
}

#[test]
fn error_enum_codes_round_trip() {
    let all = [
        (mpv_error::SUCCESS, 0),
        (mpv_error::EVENT_QUEUE_FULL, -1),
        (mpv_error::NOMEM, -2),
        (mpv_error::UNINITIALIZED, -3),
        (mpv_error::INVALID_PARAMETER, -4),
        (mpv_error::OPTION_NOT_FOUND, -5),
        (mpv_error::OPTION_FORMAT, -6),
        (mpv_error::OPTION_ERROR, -7),
        (mpv_error::PROPERTY_NOT_FOUND, -8),
        (mpv_error::PROPERTY_FORMAT, -9),
        (mpv_error::PROPERTY_UNAVAILABLE, -10),
        (mpv_error::PROPERTY_ERROR, -11),
        (mpv_error::COMMAND, -12),
        (mpv_error::LOADING_FAILED, -13),
        (mpv_error::AO_INIT_FAILED, -14),
        (mpv_error::VO_INIT_FAILED, -15),
        (mpv_error::NOTHING_TO_PLAY, -16),
        (mpv_error::UNKNOWN_FORMAT, -17),
        (mpv_error::UNSUPPORTED, -18),
        (mpv_error::NOT_IMPLEMENTED, -19),
        (mpv_error::GENERIC, -20),
    ];
    for (e, code) in all {
        assert_eq!(e.code(), code);
        assert_eq!(mpv_error::from_code(code), Some(e));
        assert!(!Error::new(e).message().is_empty());
    }
    assert_eq!(mpv_error::from_code(-21), None);
    assert_eq!(mpv_error::from_code(1), None);
}

#[test]
fn event_names_match_the_protocol() {
    assert_eq!(mpv_event_id::NONE.name(), "none");
    assert_eq!(mpv_event_id::SHUTDOWN.name(), "shutdown");
    assert_eq!(mpv_event_id::LOG_MESSAGE.name(), "log-message");
    assert_eq!(mpv_event_id::GET_PROPERTY_REPLY.name(), "get-property-reply");
    assert_eq!(mpv_event_id::PROPERTY_CHANGE.name(), "property-change");
    assert_eq!(mpv_event_id::QUEUE_OVERFLOW.name(), "event-queue-overflow");
    assert_eq!(mpv_event_id::HOOK.name(), "hook");
}
