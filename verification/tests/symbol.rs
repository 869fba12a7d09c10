use upgrayedd::symbol::InterceptedSymbol;

#[test]
fn accepts_plain_exported_name() {
    let sym = InterceptedSymbol::new(b"read".to_vec()).expect("plain name");
    assert_eq!(sym.name().as_slice(), b"read");
}

#[test]
fn c_name_appends_one_nul() {
    let sym = InterceptedSymbol::new(b"malloc".to_vec()).expect("plain name");
    assert_eq!(sym.c_name().as_slice(), b"malloc\0");
}

#[test]
fn accepts_single_letter_name() {
    let sym = InterceptedSymbol::new(b"f".to_vec()).expect("one letter is a name");
    assert_eq!(sym.c_name().as_slice(), b"f\0");
}

#[test]
fn rejects_empty_name() {
    assert!(InterceptedSymbol::new(Vec::new()).is_none());
}

#[test]
fn rejects_interior_nul() {
    assert!(InterceptedSymbol::new(b"rea\0d".to_vec()).is_none());
}
