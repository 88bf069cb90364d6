use native_boundary::translate::{
    c_str_len, from_c_string, from_glib, has_interior_nul, into_glib, same_bytes, same_text,
    to_c_string, Inhibit, GFALSE, GTRUE,
};

#[test]
fn booleans_go_out_as_zero_and_one() {
    assert_eq!(into_glib(true), 1);
    assert_eq!(into_glib(false), 0);
    assert_eq!(GTRUE, 1);
    assert_eq!(GFALSE, 0);
}

#[test]
fn every_nonzero_flag_is_true() {
    assert!(!from_glib(0));
    assert!(from_glib(1));
    assert!(from_glib(-1));
    assert!(from_glib(2));
    assert!(from_glib(i32::MAX));
    assert!(from_glib(i32::MIN));
}

#[test]
fn boolean_round_trip() {
    for flag in [true, false] {
        assert_eq!(from_glib(into_glib(flag)), flag);
    }
    assert_eq!(into_glib(from_glib(42)), 1);
}

#[test]
fn inhibit_is_its_flag() {
    assert_eq!(Inhibit(true).into_glib(), 1);
    assert_eq!(Inhibit(false).into_glib(), 0);
}

#[test]
fn c_string_adds_the_nul() {
    assert_eq!(to_c_string(b"changed"), b"changed\0".to_vec());
    assert_eq!(to_c_string(b""), vec![0u8]);
}

#[test]
fn c_string_keeps_an_interior_nul() {
    assert_eq!(to_c_string(b"a\0b"), b"a\0b\0".to_vec());
}

#[test]
fn native_text_ends_at_the_first_nul() {
    assert_eq!(from_c_string(b"foo\0garbage"), b"foo".to_vec());
    assert_eq!(from_c_string(b"\0"), Vec::<u8>::new());
    assert_eq!(from_c_string(b""), Vec::<u8>::new());
    assert_eq!(from_c_string(b"no nul"), b"no nul".to_vec());
}

#[test]
fn c_str_len_counts_up_to_the_nul() {
    assert_eq!(c_str_len(b"key\0"), 3);
    assert_eq!(c_str_len(b"\0key"), 0);
    assert_eq!(c_str_len(b"key"), 3);
    assert_eq!(c_str_len(b""), 0);
}

#[test]
fn interior_nul_is_found() {
    assert!(has_interior_nul(b"a\0b"));
    assert!(has_interior_nul(b"\0"));
    assert!(!has_interior_nul(b"ab"));
    assert!(!has_interior_nul(b""));
}

#[test]
fn text_without_nul_survives_the_trip() {
    for text in ["", "x", "schema-id", "gr\u{fc}n"] {
        let sent = to_c_string(text.as_bytes());
        assert_eq!(from_c_string(&sent), text.as_bytes().to_vec());
    }
}

#[test]
fn text_with_nul_is_cut() {
    let sent = to_c_string(b"a\0b");
    assert_eq!(from_c_string(&sent), b"a".to_vec());
}

#[test]
fn same_text_compares_contents() {
    assert!(same_text("foo", "foo"));
    assert!(same_text("", ""));
    assert!(!same_text("foo", "bar"));
    assert!(!same_text("foo", "fo"));
    assert!(!same_text("foo", "foo "));
}

#[test]
fn same_bytes_compares_contents() {
    assert!(same_bytes(&[1, 2, 3], &[1, 2, 3]));
    assert!(!same_bytes(&[1, 2, 3], &[1, 2, 4]));
    assert!(!same_bytes(&[1, 2, 3], &[1, 2]));
    assert!(same_bytes(&[], &[]));
}
