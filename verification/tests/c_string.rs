use cgit::c_string::{contains_nul, find_nul, CString, FromVecWithNulError, NulError};

#[test]
fn new_appends_the_terminator() {
    let c = CString::new("trace2.eventNesting").unwrap();
    assert_eq!(c.as_bytes(), b"trace2.eventNesting");
    assert_eq!(c.as_bytes_with_nul(), b"trace2.eventNesting\0");
    assert_eq!(c.into_bytes_with_nul(), b"trace2.eventNesting\0".to_vec());
}

#[test]
fn new_of_the_empty_string_is_the_terminator_alone() {
    let c = CString::new("").unwrap();
    assert_eq!(c.as_bytes(), b"");
    assert_eq!(c.as_bytes_with_nul(), b"\0");
}

#[test]
fn new_keeps_multibyte_characters_as_their_bytes() {
    let c = CString::new("caf\u{e9}").unwrap();
    assert_eq!(c.as_bytes(), &[0x63, 0x61, 0x66, 0xc3, 0xa9]);
    assert_eq!(c.as_bytes_with_nul(), &[0x63, 0x61, 0x66, 0xc3, 0xa9, 0x00]);
}

#[test]
fn new_rejects_an_embedded_nul_with_its_position() {
    assert_eq!(CString::new("ab\0cd"), Err(NulError { position: 2 }));
    assert_eq!(CString::new("\0"), Err(NulError { position: 0 }));
    assert_eq!(CString::new("path\0"), Err(NulError { position: 4 }));
}

#[test]
fn new_names_the_first_of_several_nuls() {
    assert_eq!(CString::new("a\0b\0c\0"), Err(NulError { position: 1 }));
}

#[test]
fn from_vec_with_nul_accepts_one_trailing_nul() {
    let c = CString::from_vec_with_nul(b"Alice\0".to_vec()).unwrap();
    assert_eq!(c.as_bytes(), b"Alice");
    assert_eq!(c, CString::new("Alice").unwrap());
}

#[test]
fn from_vec_with_nul_accepts_the_terminator_alone() {
    let c = CString::from_vec_with_nul(vec![0]).unwrap();
    assert_eq!(c.as_bytes(), b"");
}

#[test]
fn from_vec_with_nul_names_an_interior_nul() {
    assert_eq!(
        CString::from_vec_with_nul(b"ab\0cd\0".to_vec()),
        Err(FromVecWithNulError::InteriorNul(2))
    );
    assert_eq!(
        CString::from_vec_with_nul(b"\0\0".to_vec()),
        Err(FromVecWithNulError::InteriorNul(0))
    );
    assert_eq!(
        CString::from_vec_with_nul(b"ab\0cd".to_vec()),
        Err(FromVecWithNulError::InteriorNul(2))
    );
}

#[test]
fn from_vec_with_nul_wants_a_terminator() {
    assert_eq!(
        CString::from_vec_with_nul(b"Alice".to_vec()),
        Err(FromVecWithNulError::NotNulTerminated)
    );
    assert_eq!(
        CString::from_vec_with_nul(Vec::new()),
        Err(FromVecWithNulError::NotNulTerminated)
    );
}

#[test]
fn marshalling_and_taking_back_round_trip() {
    let out = CString::new("user.name").unwrap().into_bytes_with_nul();
    let back = CString::from_vec_with_nul(out).unwrap();
    assert_eq!(back.as_bytes(), b"user.name");
}

#[test]
fn a_clone_is_equal_and_owned_apart() {
    let a = CString::new("core.editor").unwrap();
    let b = a.clone();
    assert_eq!(a, b);
    let mut taken = b.into_bytes_with_nul();
    taken[0] = b'X';
    assert_eq!(a.as_bytes(), b"core.editor");
}

#[test]
fn find_nul_gives_the_first_index() {
    assert_eq!(find_nul(b"abc"), None);
    assert_eq!(find_nul(b""), None);
    assert_eq!(find_nul(b"abc\0"), Some(3));
    assert_eq!(find_nul(b"\0abc\0"), Some(0));
    assert_eq!(find_nul(&[1, 2, 0, 0, 3]), Some(2));
}

#[test]
fn contains_nul_sees_any_nul() {
    assert!(!contains_nul("/etc/gitconfig"));
    assert!(!contains_nul(""));
    assert!(contains_nul("/etc/\0gitconfig"));
    assert!(contains_nul("\0"));
}
