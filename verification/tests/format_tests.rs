use mpv_client::format::release_transient;
use mpv_client::wire::CBuf;
use mpv_client::{DoubleBits, Format, NativeHeap, Node, Transient};

#[test]
fn format_tags_per_type() {
    assert_eq!(<String as Format>::mpv_format(), 1);
    assert_eq!(<bool as Format>::mpv_format(), 3);
    assert_eq!(<i64 as Format>::mpv_format(), 4);
    assert_eq!(<DoubleBits as Format>::mpv_format(), 5);
    assert_eq!(<Node as Format>::mpv_format(), 6);
}

#[test]
fn string_staging_is_null_terminated() {
    // "hello" must stage to exactly six bytes: five characters plus the
    // terminator.
    let mut heap = NativeHeap::new();
    let t = String::from("hello").to_mpv(&mut heap).expect("staging");
    match &t {
        Transient::Str(Some(c)) => {
            assert_eq!(c.bytes.len(), 6);
            assert_eq!(c.bytes, b"hello\0".to_vec());
        }
        other => panic!("expected staged string, got {:?}", other),
    }
    assert_eq!(heap.live(), 1);
    release_transient(t, &mut heap);
    assert_eq!(heap.live(), 0);
}

#[test]
fn string_with_terminator_fails_to_stage() {
    let mut heap = NativeHeap::new();
    let r = String::from("a\0b").to_mpv(&mut heap);
    match r {
        Err(e) => assert_eq!(e.code(), -20),
        Ok(_) => panic!("must fail"),
    }
    assert_eq!(heap.live(), 0);
}

#[test]
fn string_read_releases_native_buffer() {
    let mut heap = NativeHeap::new();
    // Model a buffer the native get call allocated and handed back.
    heap.allocate();
    let t = Transient::Str(Some(CBuf {
        bytes: b"norm\0".to_vec(),
    }));
    let s = <String as Format>::from_mpv(t, &mut heap).expect("valid text");
    assert_eq!(s, "norm");
    assert_eq!(heap.live(), 0);
}

#[test]
fn string_read_rejects_invalid_text() {
    let mut heap = NativeHeap::new();
    heap.allocate();
    let t = Transient::Str(Some(CBuf {
        bytes: vec![0xff, 0xfe, 0],
    }));
    match <String as Format>::from_mpv(t, &mut heap) {
        Err(e) => assert_eq!(e.code(), -20),
        Ok(s) => panic!("expected failure, got {:?}", s),
    }
    // The buffer is released even on the error path.
    assert_eq!(heap.live(), 0);
}

#[test]
fn scalar_zeroed_and_read() {
    assert!(matches!(<bool as Format>::zeroed(), Transient::Flag(0)));
    assert!(matches!(<i64 as Format>::zeroed(), Transient::Int64(0)));
    assert!(matches!(
        <String as Format>::zeroed(),
        Transient::Str(None)
    ));

    let mut heap = NativeHeap::new();
    assert!(<bool as Format>::from_mpv(Transient::Flag(1), &mut heap).unwrap());
    assert!(!<bool as Format>::from_mpv(Transient::Flag(0), &mut heap).unwrap());
    assert_eq!(
        <i64 as Format>::from_mpv(Transient::Int64(-5), &mut heap).unwrap(),
        -5
    );
    let bits = 2.5f64.to_bits();
    let d = <DoubleBits as Format>::from_mpv(Transient::DoubleBits(bits), &mut heap).unwrap();
    assert_eq!(f64::from_bits(d.0), 2.5);
    assert_eq!(heap.live(), 0);
}

#[test]
fn node_staging_and_release_balance() {
    let mut heap = NativeHeap::new();
    let v = Node::Array(vec![
        Node::String(String::from("a")),
        Node::ByteArray(vec![1]),
    ]);
    let t = v.to_mpv(&mut heap).expect("staging");
    assert!(heap.live() > 0);
    release_transient(t, &mut heap);
    assert_eq!(heap.live(), 0);
}

#[test]
fn node_read_frees_wire_tree() {
    let mut heap = NativeHeap::new();
    let v = Node::Dict(vec![(String::from("k"), Node::Int(3))]);
    let expected = Node::Dict(vec![(String::from("k"), Node::Int(3))]);
    let t = v.to_mpv(&mut heap).expect("staging");
    let back = <Node as Format>::from_mpv(t, &mut heap).expect("read");
    assert!(mpv_client::node::node_eq(&expected, &back));
    assert_eq!(heap.live(), 0);
}
