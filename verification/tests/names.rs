//! Names: which are accepted, and what the C string holds.

use memfd::name::to_c_string;
use memfd::{create, NulError, OpenOptions};

#[test]
fn name_becomes_a_c_string() {
    let args = create(b"foobar").unwrap();
    assert_eq!(vec![b'f', b'o', b'o', b'b', b'a', b'r', 0], args.name);
    assert_eq!(Ok(b"foobar\0".to_vec()), to_c_string(b"foobar"));
}

#[test]
fn empty_name_is_accepted() {
    let args = create(b"").unwrap();
    assert_eq!(vec![0u8], args.name);
    assert_eq!(Ok(vec![0u8]), to_c_string(b""));
}

#[test]
fn name_need_not_be_utf8() {
    let args = create(&[0xff, 0xfe, 0x80, 0x01]).unwrap();
    assert_eq!(vec![0xff, 0xfe, 0x80, 0x01, 0x00], args.name);
}

#[test]
fn long_name_is_accepted() {
    let name = vec![b'x'; 5000];
    let args = create(&name).unwrap();
    assert_eq!(5001, args.name.len());
    assert_eq!(&name[..], &args.name[..5000]);
    assert_eq!(0, args.name[5000]);
}

#[test]
fn zero_byte_in_the_middle_is_rejected() {
    let err = create(b"foo\0bar").unwrap_err();
    assert_eq!(NulError { position: 3 }, err);
    assert_eq!(Err(NulError { position: 3 }), to_c_string(b"foo\0bar"));
}

#[test]
fn zero_byte_at_the_start_is_rejected() {
    assert_eq!(0, create(b"\0foobar").unwrap_err().position);
    assert_eq!(0, create(b"\0").unwrap_err().position);
}

#[test]
fn zero_byte_at_the_end_is_rejected() {
    assert_eq!(6, create(b"foobar\0").unwrap_err().position);
}

#[test]
fn first_of_several_zero_bytes_is_reported() {
    assert_eq!(1, create(b"a\0b\0\0c\0").unwrap_err().position);
    assert_eq!(Err(NulError { position: 2 }), to_c_string(&[1, 2, 0, 0, 0]));
}

#[test]
fn builder_rejects_the_same_names() {
    let mut options = OpenOptions::new();
    options.close_on_exec(true).allow_sealing(true);
    assert_eq!(4, options.create(b"name\0").unwrap_err().position);
    assert!(options.create(b"name").is_ok());
}

#[test]
fn c_string_has_one_zero_byte_and_it_is_last() {
    for name in [&b""[..], b"a", b"foobar", b"\x01\x02\x03", &[0xffu8; 300]] {
        let c = to_c_string(name).unwrap();
        assert_eq!(name.len() + 1, c.len());
        assert_eq!(name, &c[..name.len()]);
        assert_eq!(Some(name.len()), c.iter().position(|b| *b == 0));
    }
}
