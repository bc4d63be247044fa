use mpv_client::node::node_eq;
use mpv_client::wire::{CBuf, WireByteArray, WireList, WirePayload};
use mpv_client::{free_node_contents, from_mpv_node, to_mpv_node, NativeHeap, Node, WireNode};

fn encode(n: &Node, heap: &mut NativeHeap) -> WireNode {
    to_mpv_node(n, heap).expect("value should stage")
}

fn round_trip(n: Node) {
    let mut heap = NativeHeap::new();
    let wire = encode(&n, &mut heap);
    let back = from_mpv_node(&wire);
    assert!(node_eq(&n, &back));
    free_node_contents(wire, &mut heap);
    assert_eq!(heap.live(), 0);
}

#[test]
fn round_trip_scalars() {
    round_trip(Node::Null);
    round_trip(Node::Int(-42));
    round_trip(Node::Int(i64::MAX));
    round_trip(Node::Bool(true));
    round_trip(Node::Bool(false));
    round_trip(Node::Double(3.25f64.to_bits()));
    round_trip(Node::String(String::from("hello")));
    round_trip(Node::String(String::new()));
}

#[test]
fn round_trip_byte_arrays() {
    round_trip(Node::ByteArray(vec![0u8, 1, 2, 255]));
    round_trip(Node::ByteArray(Vec::new()));
}

#[test]
fn round_trip_nested() {
    let v = Node::Array(vec![
        Node::Int(1),
        Node::Array(vec![Node::String(String::from("x")), Node::Null]),
        Node::Dict(vec![(String::from("k"), Node::Bool(true))]),
    ]);
    round_trip(v);
}

#[test]
fn round_trip_map_scenario() {
    // Map({"a": Int(1), "b": Array([String("x"), Bool(true)])})
    let v = Node::Dict(vec![
        (String::from("a"), Node::Int(1)),
        (
            String::from("b"),
            Node::Array(vec![Node::String(String::from("x")), Node::Bool(true)]),
        ),
    ]);
    let mut heap = NativeHeap::new();
    let wire = encode(&v, &mut heap);
    let back = from_mpv_node(&wire);
    match &back {
        Node::Dict(pairs) => {
            assert_eq!(pairs.len(), 2);
            assert_eq!(pairs[0].0, "a");
            assert!(matches!(pairs[0].1, Node::Int(1)));
            assert_eq!(pairs[1].0, "b");
            match &pairs[1].1 {
                Node::Array(items) => {
                    assert_eq!(items.len(), 2);
                    assert!(matches!(&items[0], Node::String(s) if s == "x"));
                    assert!(matches!(items[1], Node::Bool(true)));
                }
                other => panic!("expected array, got {:?}", other),
            }
        }
        other => panic!("expected map, got {:?}", other),
    }
    assert!(node_eq(&v, &back));
    free_node_contents(wire, &mut heap);
    assert_eq!(heap.live(), 0);
}

#[test]
fn format_tags_are_preserved() {
    let mut heap = NativeHeap::new();
    let cases: Vec<(Node, i32)> = vec![
        (Node::Null, 0),
        (Node::String(String::from("s")), 1),
        (Node::Bool(true), 3),
        (Node::Int(7), 4),
        (Node::Double(1.5f64.to_bits()), 5),
        (Node::ByteArray(vec![9]), 7),
        (Node::Array(vec![Node::Int(1)]), 8),
        (Node::Dict(vec![(String::from("k"), Node::Null)]), 9),
    ];
    for (n, tag) in cases {
        let wire = encode(&n, &mut heap);
        assert_eq!(wire.format, tag);
        free_node_contents(wire, &mut heap);
    }
    assert_eq!(heap.live(), 0);
}

#[test]
fn encode_counts_and_release_balances() {
    let v = Node::Dict(vec![
        (String::from("a"), Node::String(String::from("text"))),
        (String::from("b"), Node::ByteArray(vec![1, 2, 3])),
    ]);
    let mut heap = NativeHeap::new();
    let wire = encode(&v, &mut heap);
    // list record + values array + keys array + two keys + one string
    // buffer + byte-array record + byte buffer
    assert_eq!(heap.live(), 8);
    free_node_contents(wire, &mut heap);
    assert_eq!(heap.live(), 0);
}

#[test]
fn embedded_terminator_is_rejected() {
    let mut heap = NativeHeap::new();
    let bad = Node::String(String::from("a\0b"));
    let r = to_mpv_node(&bad, &mut heap);
    match r {
        Err(e) => assert_eq!(e.code(), -20),
        Ok(_) => panic!("embedded terminator must be rejected"),
    }
    assert_eq!(heap.live(), 0);

    let bad_key = Node::Dict(vec![(String::from("k\0"), Node::Int(1))]);
    assert!(to_mpv_node(&bad_key, &mut heap).is_err());
    assert_eq!(heap.live(), 0);
}

#[test]
fn unknown_wire_tag_decodes_to_null() {
    let w = WireNode {
        format: 42,
        payload: WirePayload::Nothing,
    };
    assert!(matches!(from_mpv_node(&w), Node::Null));
    // The on-screen-display string tag is not handled by the decoder.
    let w2 = WireNode {
        format: 2,
        payload: WirePayload::Nothing,
    };
    assert!(matches!(from_mpv_node(&w2), Node::Null));
}

#[test]
fn null_map_key_is_silently_dropped() {
    let w = WireNode {
        format: 9,
        payload: WirePayload::List(Box::new(WireList {
            values: vec![
                WireNode {
                    format: 4,
                    payload: WirePayload::Int64(1),
                },
                WireNode {
                    format: 4,
                    payload: WirePayload::Int64(2),
                },
            ],
            keys: Some(vec![
                None,
                Some(CBuf {
                    bytes: b"kept\0".to_vec(),
                }),
            ]),
        })),
    };
    match from_mpv_node(&w) {
        Node::Dict(pairs) => {
            assert_eq!(pairs.len(), 1);
            assert_eq!(pairs[0].0, "kept");
            assert!(matches!(pairs[0].1, Node::Int(2)));
        }
        other => panic!("expected map, got {:?}", other),
    }
}

#[test]
fn byte_array_wire_shape() {
    let mut heap = NativeHeap::new();
    let wire = encode(&Node::ByteArray(vec![7, 8]), &mut heap);
    match &wire.payload {
        WirePayload::Bytes(WireByteArray { data }) => assert_eq!(data, &vec![7u8, 8u8]),
        other => panic!("expected byte array payload, got {:?}", other),
    }
    free_node_contents(wire, &mut heap);
}

#[test]
fn node_eq_distinguishes() {
    assert!(!node_eq(&Node::Int(1), &Node::Int(2)));
    assert!(!node_eq(&Node::Int(1), &Node::Bool(true)));
    assert!(!node_eq(
        &Node::Array(vec![Node::Int(1)]),
        &Node::Array(vec![Node::Int(1), Node::Int(2)])
    ));
    assert!(node_eq(
        &Node::Dict(vec![(String::from("a"), Node::Null)]),
        &Node::Dict(vec![(String::from("a"), Node::Null)])
    ));
    assert!(!node_eq(
        &Node::Dict(vec![(String::from("a"), Node::Null)]),
        &Node::Dict(vec![(String::from("b"), Node::Null)])
    ));
}
