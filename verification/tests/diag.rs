use upgrayedd::diag::fatal_message;
use upgrayedd::symbol::InterceptedSymbol;

#[test]
fn fatal_message_is_prefix_name_newline() {
    let sym = InterceptedSymbol::new(b"getuid".to_vec()).expect("plain name");
    let msg = fatal_message(&sym);
    assert_eq!(
        msg.as_slice(),
        b"barf: upgrayedd tried to hook something that broke rust's runtime: getuid\n".as_slice(),
    );
}

#[test]
fn fatal_message_ends_with_exact_name_before_newline() {
    let sym = InterceptedSymbol::new(b"malloc".to_vec()).expect("plain name");
    let msg = fatal_message(&sym);
    assert_eq!(msg.last(), Some(&b'\n'));
    let body = &msg[..msg.len() - 1];
    assert!(body.ends_with(b"malloc"));
}
