use mpv_client::handle::{finish_property_read, stage_property_read, stage_property_write};
use mpv_client::{NativeHeap, Node, Transient};

#[test]
fn property_write_stages_name_tag_and_value() {
    let mut heap = NativeHeap::new();
    let call = stage_property_write::<i64>(&String::from("volume"), 5, &mut heap).expect("stages");
    assert_eq!(call.name.bytes, b"volume\0".to_vec());
    assert_eq!(call.format, 4);
    assert!(matches!(call.data, Transient::Int64(5)));
    assert_eq!(heap.live(), 0);
}

#[test]
fn property_write_rejects_bad_name() {
    let mut heap = NativeHeap::new();
    match stage_property_write::<bool>(&String::from("vol\0ume"), true, &mut heap) {
        Err(e) => assert_eq!(e.code(), -20),
        Ok(_) => panic!("embedded terminator must be rejected"),
    }
    assert_eq!(heap.live(), 0);
}

#[test]
fn property_read_stages_zeroed_transient() {
    let call = stage_property_read::<bool>(&String::from("pause")).expect("stages");
    assert_eq!(call.name.bytes, b"pause\0".to_vec());
    assert_eq!(call.format, 3);
    assert!(matches!(call.data, Transient::Flag(0)));
}

#[test]
fn property_read_finishes_on_success() {
    let mut heap = NativeHeap::new();
    let v = finish_property_read::<i64>(0, Transient::Int64(9), &mut heap).expect("success");
    assert_eq!(v, 9);
    assert_eq!(heap.live(), 0);
}

#[test]
fn property_read_failure_passes_error_and_releases() {
    let mut heap = NativeHeap::new();
    // Stage a node so the transient owns allocations, then fail the call:
    // the error passes through unchanged and the staging is released.
    let value = Node::Array(vec![Node::String(String::from("x"))]);
    let call = stage_property_write::<Node>(&String::from("p"), value, &mut heap).expect("stages");
    assert!(heap.live() > 0);
    match finish_property_read::<Node>(-10, call.data, &mut heap) {
        Err(e) => assert_eq!(e.code(), -10),
        Ok(_) => panic!("the native failure must pass through"),
    }
    assert_eq!(heap.live(), 0);
}
