use cry::error::CryError;
use cry::passphrase::{accept_passphrase, passphrase_from_file};

#[test]
fn pass_file_first_line_is_used() {
    assert_eq!(passphrase_from_file(b"hunter2\nsecond line\n").unwrap(), b"hunter2");
    assert_eq!(passphrase_from_file(b"windows\r\nnext").unwrap(), b"windows");
    assert_eq!(passphrase_from_file(b"no newline").unwrap(), b"no newline");
}

#[test]
fn empty_pass_file_line_is_refused() {
    assert!(matches!(passphrase_from_file(b""), Err(CryError::EmptyPassphrase)));
    assert!(matches!(passphrase_from_file(b"\nsecret"), Err(CryError::EmptyPassphrase)));
    assert!(matches!(passphrase_from_file(b"\r\n"), Err(CryError::EmptyPassphrase)));
}

#[test]
fn prompted_passphrase_rules() {
    let pass = "correct horse".to_string();
    assert_eq!(accept_passphrase(&pass, None).unwrap(), b"correct horse");
    assert_eq!(accept_passphrase(&pass, Some(&pass.clone())).unwrap(), b"correct horse");
    let other = "correct hose".to_string();
    assert!(matches!(
        accept_passphrase(&pass, Some(&other)),
        Err(CryError::PassphraseMismatch)
    ));
    assert!(matches!(
        accept_passphrase(&String::new(), Some(&other)),
        Err(CryError::EmptyPassphrase)
    ));
}
