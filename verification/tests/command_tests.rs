use mpv_client::command::{osd_command_args, u64_dec_bytes};
use mpv_client::stage_command_args;

#[test]
fn command_args_are_staged_null_terminated() {
    let args = vec![
        String::from("loadfile"),
        String::from("song.mp3"),
        String::from("append"),
    ];
    let staged = stage_command_args(&args).expect("plain arguments stage");
    assert_eq!(staged.ptrs.len(), 4);
    assert_eq!(staged.ptrs[0].as_ref().unwrap().bytes, b"loadfile\0".to_vec());
    assert_eq!(staged.ptrs[1].as_ref().unwrap().bytes, b"song.mp3\0".to_vec());
    assert_eq!(staged.ptrs[2].as_ref().unwrap().bytes, b"append\0".to_vec());
    assert!(staged.ptrs[3].is_none());
}

#[test]
fn empty_command_stages_to_lone_terminator() {
    let staged = stage_command_args(&Vec::new()).expect("empty list stages");
    assert_eq!(staged.ptrs.len(), 1);
    assert!(staged.ptrs[0].is_none());
}

#[test]
fn command_arg_with_terminator_is_rejected() {
    let args = vec![String::from("ok"), String::from("bad\0arg")];
    match stage_command_args(&args) {
        Err(e) => assert_eq!(e.code(), -20),
        Ok(_) => panic!("embedded terminator must be rejected"),
    }
}

#[test]
fn decimal_digits_are_exact() {
    assert_eq!(u64_dec_bytes(0), b"0".to_vec());
    assert_eq!(u64_dec_bytes(7), b"7".to_vec());
    assert_eq!(u64_dec_bytes(10), b"10".to_vec());
    assert_eq!(u64_dec_bytes(1234567890), b"1234567890".to_vec());
    assert_eq!(
        u64_dec_bytes(u64::MAX),
        b"18446744073709551615".to_vec()
    );
}

#[test]
fn osd_message_command_shape() {
    let staged = osd_command_args(&String::from("hi there"), 1500).expect("staging");
    assert_eq!(staged.ptrs.len(), 4);
    assert_eq!(
        staged.ptrs[0].as_ref().unwrap().bytes,
        b"show-text\0".to_vec()
    );
    assert_eq!(staged.ptrs[1].as_ref().unwrap().bytes, b"hi there\0".to_vec());
    assert_eq!(staged.ptrs[2].as_ref().unwrap().bytes, b"1500\0".to_vec());
    assert!(staged.ptrs[3].is_none());
}

#[test]
fn osd_message_with_terminator_is_rejected() {
    match osd_command_args(&String::from("a\0b"), 100) {
        Err(e) => assert_eq!(e.code(), -20),
        Ok(_) => panic!("embedded terminator must be rejected"),
    }
}
