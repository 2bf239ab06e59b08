use wasm::dispatch::{check_method_name, classify_method_name};
use wasm::Error;

#[test]
fn empty_method_name_is_refused() {
    assert!(matches!(check_method_name(b""), Err(Error::EmptyMethodName)));
}

#[test]
fn private_method_name_is_refused() {
    assert!(matches!(check_method_name(b"_init"), Err(Error::PrivateMethod)));
    assert!(matches!(check_method_name(b"_"), Err(Error::PrivateMethod)));
}

#[test]
fn invalid_utf8_method_name_is_refused() {
    assert!(matches!(check_method_name(&[0x66, 0xff, 0xfe]), Err(Error::BadUtf8)));
    assert!(matches!(check_method_name(&[0xc3]), Err(Error::BadUtf8)));
}

#[test]
fn valid_method_name_is_decoded() {
    match check_method_name(b"transfer") {
        Ok(s) => assert_eq!(s, "transfer"),
        other => panic!("unexpected {:?}", other),
    }
    match check_method_name("d\u{e9}p\u{f4}t".as_bytes()) {
        Ok(s) => assert_eq!(s, "d\u{e9}p\u{f4}t"),
        other => panic!("unexpected {:?}", other),
    }
    match check_method_name(b"run_") {
        Ok(s) => assert_eq!(s, "run_"),
        other => panic!("unexpected {:?}", other),
    }
}

#[test]
fn classification_order() {
    assert!(matches!(classify_method_name(b"", None), Err(Error::EmptyMethodName)));
    assert!(matches!(classify_method_name(b"_x", None), Err(Error::PrivateMethod)));
    assert!(matches!(
        classify_method_name(b"_x", Some("_x".to_string())),
        Err(Error::PrivateMethod)
    ));
    assert!(matches!(classify_method_name(b"x", None), Err(Error::BadUtf8)));
    match classify_method_name(b"x", Some("x".to_string())) {
        Ok(s) => assert_eq!(s, "x"),
        other => panic!("unexpected {:?}", other),
    }
}
