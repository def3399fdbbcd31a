use cry::error::CryError;
use cry::keygen::{
    check_targets, derive_targets, ensure_writable, keygen_targets, names, openssh_path,
    openssh_pub_path, DeriveArgs, KeyAlgorithm, KeygenArgs,
};

fn keygen_args(algo: KeyAlgorithm, openssh: bool) -> KeygenArgs {
    KeygenArgs {
        algo,
        bits: 3072,
        output: "k".to_string(),
        sub_id: None,
        force: false,
        openssh,
        comment: "CryDNA".to_string(),
    }
}

fn derive_args(algo: KeyAlgorithm, openssh: bool) -> DeriveArgs {
    DeriveArgs {
        algo,
        bits: 3072,
        passphrase: None,
        namespace: "default".to_string(),
        output: "work".to_string(),
        sub_id: None,
        force: false,
        openssh,
        comment: "CryDNA".to_string(),
    }
}

#[test]
fn names_for_asymmetric_keys() {
    let (p, q) = names("k", &KeyAlgorithm::Ed25519);
    assert_eq!(p, "k.cry_id");
    assert_eq!(q.as_deref(), Some("k.cry_pub_id"));
    let (p, q) = names("server", &KeyAlgorithm::Rsa);
    assert_eq!(p, "server.cry_id");
    assert_eq!(q.as_deref(), Some("server.cry_pub_id"));
}

#[test]
fn names_for_symmetric_key_has_no_public_file() {
    let (p, q) = names("aes", &KeyAlgorithm::Aes256Gcm);
    assert_eq!(p, "aes.cry_id");
    assert_eq!(q, None);
}

#[test]
fn openssh_paths_extend_the_given_path() {
    assert_eq!(openssh_path("k.cry_id"), "k.cry_id.openssh_id");
    assert_eq!(openssh_pub_path("k.cry_id"), "k.cry_id.openssh_pub");
    assert_eq!(openssh_path(""), ".openssh_id");
}

#[test]
fn ensure_writable_refuses_existing_without_force() {
    match ensure_writable("out.cry_id", true, false) {
        Err(CryError::FileExists(p)) => assert_eq!(p, "out.cry_id"),
        other => panic!("expected FileExists, got {other:?}"),
    }
}

#[test]
fn ensure_writable_allows_with_force_or_when_absent() {
    assert!(ensure_writable("out.cry_id", true, true).is_ok());
    assert!(ensure_writable("out.cry_id", false, false).is_ok());
    assert!(ensure_writable("out.cry_id", false, true).is_ok());
}

#[test]
fn keygen_targets_per_algorithm() {
    assert_eq!(
        keygen_targets(&keygen_args(KeyAlgorithm::Ed25519, false)),
        vec!["k.cry_id", "k.cry_pub_id"]
    );
    assert_eq!(
        keygen_targets(&keygen_args(KeyAlgorithm::Ed25519, true)),
        vec!["k.cry_id", "k.cry_pub_id", "k.cry_id.openssh_id", "k.cry_id.openssh_pub"]
    );
    assert_eq!(
        keygen_targets(&keygen_args(KeyAlgorithm::Rsa, true)),
        vec!["k.cry_id", "k.cry_pub_id"]
    );
    assert_eq!(keygen_targets(&keygen_args(KeyAlgorithm::Aes256Gcm, true)), vec!["k.cry_id"]);
}

#[test]
fn derive_targets_skip_refused_rsa() {
    assert!(derive_targets(&derive_args(KeyAlgorithm::Rsa, false)).is_empty());
    assert_eq!(
        derive_targets(&derive_args(KeyAlgorithm::Aes256Gcm, false)),
        vec!["work.cry_id"]
    );
    assert_eq!(
        derive_targets(&derive_args(KeyAlgorithm::Ed25519, true)),
        vec![
            "work.cry_id",
            "work.cry_pub_id",
            "work.cry_id.openssh_id",
            "work.cry_id.openssh_pub"
        ]
    );
}

#[test]
fn check_targets_reports_first_existing_file() {
    let paths: Vec<String> = vec!["a".into(), "b".into(), "c".into()];
    match check_targets(&paths, &vec![false, true, true], false) {
        Err(CryError::FileExists(p)) => assert_eq!(p, "b"),
        other => panic!("expected FileExists, got {other:?}"),
    }
    assert!(check_targets(&paths, &vec![false, true, true], true).is_ok());
    assert!(check_targets(&paths, &vec![false, false, false], false).is_ok());
    assert!(check_targets(&Vec::new(), &Vec::new(), false).is_ok());
}
