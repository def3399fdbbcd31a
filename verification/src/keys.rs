//! Key material for `keygen` and `derive`, and the text of the key files.

use vstd::prelude::*;
use crate::keygen::{names, private_key_path, public_key_path, DeriveArgs, KeyAlgorithm, KeygenArgs};
use crate::crypto::{
    argon2id_hash, argon2id_key, ed25519_public_key, ed25519_verifying_key, hex_encode, hex_lower,
    random_key_bytes, random_signing_key, rsa_bits_supported, rsa_generate_pem, rsa_pem_modulus_bits,
    rsa_public_pem_of, sha256, sha256_digest, utf8_text, RsaKeyError,
};
use crate::error::{fails_with, invalid_format_from, lemma_message_prefix, CryError, CryErrorView};
use crate::passphrase::{chosen_passphrase, chosen_passphrase_spec};

verus! {

/// The text of the key files to write: the private (or symmetric) key file,
/// and the public key file when there is one.
pub struct KeyFiles {
    pub private_text: String,
    pub public_text: Option<String>,
}

/// Files for a symmetric key: its hex text, and no public file.
pub open spec fn aes_files_spec(f: KeyFiles, key: Seq<u8>) -> bool {
    f.private_text@ == hex_lower(key) && f.public_text is None
}

/// Files for an Ed25519 key: the hex of the secret key, and the hex of its public key.
pub open spec fn ed25519_files_spec(f: KeyFiles, secret: Seq<u8>) -> bool {
    &&& f.private_text@ == hex_lower(secret)
    &&& f.public_text is Some
    &&& f.public_text->0@ == hex_lower(ed25519_public_key(secret))
}

/// The key files for a 256-bit symmetric key.
pub fn aes_key_files(key: &[u8; 32]) -> (res: KeyFiles)
    ensures
        aes_files_spec(res, key@),
{
    KeyFiles { private_text: hex_encode(key), public_text: None }
}

/// The key files for an Ed25519 secret key.
pub fn ed25519_key_files(secret: &[u8; 32]) -> (res: KeyFiles)
    ensures
        ed25519_files_spec(res, secret@),
{
    let public = ed25519_verifying_key(secret);
    KeyFiles { private_text: hex_encode(secret), public_text: Some(hex_encode(&public)) }
}

/// `prefix` followed by `detail`, as an `InvalidFormat` error.
fn invalid_format(prefix: &str, detail: &str) -> (e: CryError)
    ensures
        e@ == CryErrorView::InvalidFormat(prefix@ + detail@),
{
    let mut m = String::from_str(prefix);
    m.append(detail);
    CryError::InvalidFormat(m)
}

/// The key files, or the error, from the outcome of making an RSA key: a
/// generation failure and an encoding failure each give their own message.
pub fn rsa_key_outcome(made: Result<(String, String), RsaKeyError>) -> (res: Result<
    KeyFiles,
    CryError,
>)
    ensures
        match made {
            Ok((p, q)) => res is Ok && res->Ok_0.private_text@ == p@ && res->Ok_0.public_text
                is Some && res->Ok_0.public_text->0@ == q@,
            Err(RsaKeyError::Generate(m)) => fails_with(
                res,
                CryErrorView::InvalidFormat("RSA generation failed: "@ + m@),
            ),
            Err(RsaKeyError::Encode(m)) => fails_with(
                res,
                CryErrorView::InvalidFormat("RSA key encoding failed: "@ + m@),
            ),
        },
{
    match made {
        Ok((private_text, public_text)) => Ok(
            KeyFiles { private_text, public_text: Some(public_text) },
        ),
        Err(RsaKeyError::Generate(m)) => Err(invalid_format("RSA generation failed: ", m.as_str())),
        Err(RsaKeyError::Encode(m)) => Err(invalid_format("RSA key encoding failed: ", m.as_str())),
    }
}

/// Freshly generated key files, with the Ed25519 secret key when the key is
/// an Ed25519 key (its OpenSSH forms are made from it).
pub struct GeneratedKey {
    pub files: KeyFiles,
    pub ed25519_secret: Option<[u8; 32]>,
}

/// Fresh random key files for `algo` (`bits` is the RSA modulus size).
/// Symmetric and Ed25519 keys always succeed, and so do RSA keys of a
/// supported size; for smaller RSA sizes generation may fail, and then the
/// error says which step failed.
pub fn generate_key_files(algo: &KeyAlgorithm, bits: usize) -> (res: Result<GeneratedKey, CryError>)
    ensures
        *algo == KeyAlgorithm::Aes256Gcm ==> res is Ok && res->Ok_0.ed25519_secret is None
            && exists|k: Seq<u8>| k.len() == 32 && #[trigger] aes_files_spec(res->Ok_0.files, k),
        *algo == KeyAlgorithm::Ed25519 ==> res is Ok && res->Ok_0.ed25519_secret is Some
            && ed25519_files_spec(res->Ok_0.files, res->Ok_0.ed25519_secret->0@),
        *algo == KeyAlgorithm::Rsa && res is Ok ==> res->Ok_0.ed25519_secret is None
            && rsa_pem_modulus_bits(res->Ok_0.files.private_text@) == bits
            && res->Ok_0.files.public_text is Some && res->Ok_0.files.public_text->0@
            == rsa_public_pem_of(res->Ok_0.files.private_text@),
        *algo == KeyAlgorithm::Rsa && rsa_bits_supported(bits as nat) ==> res is Ok,
        *algo == KeyAlgorithm::Rsa && res is Err ==> invalid_format_from(
            res->Err_0@,
            "RSA generation failed: "@,
        ) || invalid_format_from(res->Err_0@, "RSA key encoding failed: "@),
{
    match algo {
        KeyAlgorithm::Aes256Gcm => {
            let key = random_key_bytes();
            let files = aes_key_files(&key);
            assert(aes_files_spec(files, key@));
            Ok(GeneratedKey { files, ed25519_secret: None })
        },
        KeyAlgorithm::Ed25519 => {
            let secret = random_signing_key();
            let files = ed25519_key_files(&secret);
            Ok(GeneratedKey { files, ed25519_secret: Some(secret) })
        },
        KeyAlgorithm::Rsa => {
            let made = rsa_generate_pem(bits);
            let ghost g = made;
            match rsa_key_outcome(made) {
                Ok(files) => Ok(GeneratedKey { files, ed25519_secret: None }),
                Err(e) => {
                    proof {
                        match g {
                            Err(RsaKeyError::Generate(m)) => {
                                lemma_message_prefix("RSA generation failed: "@, m@);
                            },
                            Err(RsaKeyError::Encode(m)) => {
                                lemma_message_prefix("RSA key encoding failed: "@, m@);
                            },
                            Ok(_) => {},
                        }
                    }
                    Err(e)
                },
            }
        },
    }
}

/// How `{:?}` prints a key algorithm.
pub open spec fn algorithm_name(algo: KeyAlgorithm) -> Seq<char> {
    match algo {
        KeyAlgorithm::Ed25519 => "Ed25519"@,
        KeyAlgorithm::Rsa => "Rsa"@,
        KeyAlgorithm::Aes256Gcm => "Aes256Gcm"@,
    }
}

/// The sub-identity, if any, as characters.
pub open spec fn sub_id_view(sub_id: Option<String>) -> Option<Seq<char>> {
    match sub_id {
        Some(s) => Some(s@),
        None => None,
    }
}

/// `<namespace>|<algorithm>|cry:derive`, followed by `|<sub-id>` when a
/// sub-identity is given: the text whose SHA-256 digest salts a derived key.
pub open spec fn derive_salt_text_spec(
    namespace: Seq<char>,
    algo: KeyAlgorithm,
    sub_id: Option<Seq<char>>,
) -> Seq<char> {
    namespace + "|"@ + algorithm_name(algo) + "|cry:derive"@ + match sub_id {
        Some(s) => "|"@ + s,
        None => Seq::empty(),
    }
}

/// Memory cost of the key derivation, in KiB (64 MiB).
pub const KDF_M_COST: u32 = 65536;

/// Iterations of the key derivation.
pub const KDF_T_COST: u32 = 3;

/// Lanes of the key derivation.
pub const KDF_P_COST: u32 = 1;

/// The symmetric key derived from `passphrase` in `namespace` for `sub_id`.
pub open spec fn derived_aes_key(
    passphrase: Seq<u8>,
    namespace: Seq<char>,
    sub_id: Option<Seq<char>>,
) -> Seq<u8> {
    argon2id_key(
        KDF_M_COST,
        KDF_T_COST,
        KDF_P_COST,
        passphrase,
        sha256(
            vstd::utf8::encode_utf8(
                derive_salt_text_spec(namespace, KeyAlgorithm::Aes256Gcm, sub_id),
            ),
        ),
    )
}

fn algorithm_debug_name(algo: &KeyAlgorithm) -> (res: &'static str)
    ensures
        res@ == algorithm_name(*algo),
{
    match algo {
        KeyAlgorithm::Ed25519 => "Ed25519",
        KeyAlgorithm::Rsa => "Rsa",
        KeyAlgorithm::Aes256Gcm => "Aes256Gcm",
    }
}

/// The salt text `<namespace>|<algorithm>|cry:derive[|<sub-id>]`.
pub fn derive_salt_text(namespace: &str, algo: &KeyAlgorithm, sub_id: &Option<String>) -> (res:
    String)
    ensures
        res@ == derive_salt_text_spec(namespace@, *algo, sub_id_view(*sub_id)),
{
    let mut s = String::from_str(namespace);
    s.append("|");
    s.append(algorithm_debug_name(algo));
    s.append("|cry:derive");
    match sub_id {
        Some(sub) => {
            s.append("|");
            s.append(sub.as_str());
        },
        None => {},
    }
    s
}

/// Derive a 256-bit symmetric key from a passphrase, a namespace and an
/// optional sub-identity: Argon2id (64 MiB, 3 iterations, 1 lane) over the
/// passphrase, salted with the SHA-256 digest of the salt text
/// `<namespace>|Aes256Gcm|cry:derive[|<sub-id>]`.
/// The only input the KDF refuses is a passphrase longer than 0xFFFF_FFFF bytes.
pub fn derive_aes_key(passphrase: &[u8], namespace: &str, sub_id: &Option<String>) -> (res:
    Result<[u8; 32], CryError>)
    ensures
        passphrase@.len() <= 0xFFFF_FFFF ==> res is Ok && res->Ok_0@ == derived_aes_key(
            passphrase@,
            namespace@,
            sub_id_view(*sub_id),
        ),
        passphrase@.len() > 0xFFFF_FFFF ==> fails_with(
            res,
            CryErrorView::Kdf("password is too long"@),
        ),
{
    let salt_text = derive_salt_text(namespace, &KeyAlgorithm::Aes256Gcm, sub_id);
    let salt = sha256_digest(salt_text.as_str().as_bytes());
    match argon2id_hash(KDF_M_COST, KDF_T_COST, KDF_P_COST, passphrase, &salt) {
        Ok(okm) => Ok(okm),
        Err(m) => Err(CryError::Kdf(m)),
    }
}

/// The message with which deterministic RSA derivation is refused.
pub open spec fn rsa_refusal_message() -> Seq<char> {
    "Deterministic RSA derivation is intentionally disabled"@
}

/// The key files that `derive` writes. The passphrase is the one given with
/// the options when there is one, else `prompted`. An Ed25519 key comes from
/// the CryDNA identity derived for these options, whose secret key is
/// `identity_secret`; a symmetric key is derived here from the passphrase,
/// namespace and sub-identity; RSA is refused.
pub fn derive_key_files(
    args: &DeriveArgs,
    prompted: Option<&[u8]>,
    identity_secret: Option<&[u8; 32]>,
) -> (res: Result<KeyFiles, CryError>)
    requires
        args.passphrase is None ==> prompted is Some,
        args.algo == KeyAlgorithm::Ed25519 ==> identity_secret is Some,
    ensures
        args.algo == KeyAlgorithm::Ed25519 ==> res is Ok && ed25519_files_spec(
            res->Ok_0,
            identity_secret->0@,
        ),
        args.algo == KeyAlgorithm::Aes256Gcm && chosen_passphrase_spec(args.passphrase, prompted).len()
            <= 0xFFFF_FFFF ==> res is Ok && aes_files_spec(
            res->Ok_0,
            derived_aes_key(
                chosen_passphrase_spec(args.passphrase, prompted),
                args.namespace@,
                sub_id_view(args.sub_id),
            ),
        ),
        args.algo == KeyAlgorithm::Aes256Gcm && chosen_passphrase_spec(args.passphrase, prompted).len()
            > 0xFFFF_FFFF ==> fails_with(res, CryErrorView::Kdf("password is too long"@)),
        args.algo == KeyAlgorithm::Rsa ==> fails_with(
            res,
            CryErrorView::InvalidFormat(rsa_refusal_message()),
        ),
{
    match args.algo {
        KeyAlgorithm::Ed25519 => {
            let secret = identity_secret.unwrap();
            Ok(ed25519_key_files(secret))
        },
        KeyAlgorithm::Aes256Gcm => {
            let passphrase = chosen_passphrase(&args.passphrase, prompted);
            let key = derive_aes_key(passphrase.as_slice(), args.namespace.as_str(), &args.sub_id)?;
            Ok(aes_key_files(&key))
        },
        KeyAlgorithm::Rsa => Err(
            CryError::InvalidFormat(
                String::from_str("Deterministic RSA derivation is intentionally disabled"),
            ),
        ),
    }
}

/// One key file to write: where, what, and whether to check again, just
/// before writing, that it may be written.
pub struct FileWrite {
    pub path: String,
    pub contents: String,
    pub recheck: bool,
}

pub struct FileWriteView {
    pub path: Seq<char>,
    pub contents: Seq<char>,
    pub recheck: bool,
}

impl View for FileWrite {
    type V = FileWriteView;

    open spec fn view(&self) -> FileWriteView {
        FileWriteView { path: self.path@, contents: self.contents@, recheck: self.recheck }
    }
}

/// The public key text of key files, if any.
pub open spec fn public_view(files: KeyFiles) -> Option<Seq<char>> {
    match files.public_text {
        Some(p) => Some(p@),
        None => None,
    }
}

/// The key files to write for output base `base`, in order: the private key
/// at `<base>.cry_id` and, when there is one, the public key at
/// `<base>.cry_pub_id`. Hex key files are checked again before writing; PEM
/// files are not.
pub open spec fn key_file_writes_spec(
    base: Seq<char>,
    algo: KeyAlgorithm,
    private_text: Seq<char>,
    public_text: Option<Seq<char>>,
) -> Seq<FileWriteView> {
    let recheck = algo != KeyAlgorithm::Rsa;
    let first = FileWriteView { path: private_key_path(base), contents: private_text, recheck };
    match public_text {
        Some(p) => seq![
            first,
            FileWriteView { path: public_key_path(base), contents: p, recheck },
        ],
        None => seq![first],
    }
}

pub open spec fn writes_view(w: Vec<FileWrite>) -> Seq<FileWriteView> {
    w@.map_values(|f: FileWrite| f@)
}

/// The key files to write, as `key_file_writes_spec` says.
pub fn key_file_writes(base: &str, algo: &KeyAlgorithm, files: KeyFiles) -> (res: Vec<FileWrite>)
    requires
        (files.public_text is Some) == (*algo != KeyAlgorithm::Aes256Gcm),
    ensures
        writes_view(res) == key_file_writes_spec(
            base@,
            *algo,
            files.private_text@,
            public_view(files),
        ),
{
    let ghost old_files = files;
    let (p, q) = names(base, algo);
    let recheck = match algo {
        KeyAlgorithm::Rsa => false,
        _ => true,
    };
    let mut res: Vec<FileWrite> = Vec::new();
    let KeyFiles { private_text, public_text } = files;
    res.push(FileWrite { path: p, contents: private_text, recheck });
    match public_text {
        Some(text) => {
            let path = q.unwrap();
            res.push(FileWrite { path, contents: text, recheck });
        },
        None => {},
    }
    assert(writes_view(res) =~= key_file_writes_spec(
        base@,
        *algo,
        old_files.private_text@,
        public_view(old_files),
    ));
    res
}

/// The OpenSSH key passphrase as text: it must have been given, and must be UTF-8.
pub fn openssh_passphrase_text(passphrase: Option<&[u8]>) -> (res: Result<String, CryError>)
    ensures
        passphrase is None ==> fails_with(
            res,
            CryErrorView::InvalidFormat("missing OpenSSH passphrase"@),
        ),
        passphrase is Some && !vstd::utf8::valid_utf8(passphrase->0@) ==> fails_with(
            res,
            CryErrorView::InvalidFormat("OpenSSH passphrase must be valid UTF-8"@),
        ),
        passphrase is Some && vstd::utf8::valid_utf8(passphrase->0@) ==> res is Ok
            && res->Ok_0@ == vstd::utf8::decode_utf8(passphrase->0@),
{
    match passphrase {
        None => Err(CryError::InvalidFormat(String::from_str("missing OpenSSH passphrase"))),
        Some(bytes) => match utf8_text(bytes) {
            Some(text) => Ok(text),
            None => Err(
                CryError::InvalidFormat(String::from_str("OpenSSH passphrase must be valid UTF-8")),
            ),
        },
    }
}

/// The key files that `keygen` writes, with fresh random keys: a symmetric
/// key and an Ed25519 secret key are 32 random bytes (written as hex, with the
/// Ed25519 public key beside it); RSA keys are written as PEM. An Ed25519
/// secret key is returned too, for its OpenSSH forms.
pub fn keygen_writes(args: &KeygenArgs) -> (res: Result<(Vec<FileWrite>, Option<[u8; 32]>), CryError>)
    ensures
        args.algo == KeyAlgorithm::Aes256Gcm ==> res is Ok && res->Ok_0.1 is None && exists|
            k: Seq<u8>,
        |
            k.len() == 32 && writes_view(res->Ok_0.0) == #[trigger] key_file_writes_spec(
                args.output@,
                args.algo,
                hex_lower(k),
                None,
            ),
        args.algo == KeyAlgorithm::Ed25519 ==> res is Ok && res->Ok_0.1 is Some && writes_view(
            res->Ok_0.0,
        ) == key_file_writes_spec(
            args.output@,
            args.algo,
            hex_lower(res->Ok_0.1->0@),
            Some(hex_lower(ed25519_public_key(res->Ok_0.1->0@))),
        ),
        args.algo == KeyAlgorithm::Rsa && res is Ok ==> res->Ok_0.1 is None && exists|
            a: Seq<char>,
        |
            rsa_pem_modulus_bits(a) == args.bits && writes_view(res->Ok_0.0)
                == #[trigger] key_file_writes_spec(
                args.output@,
                args.algo,
                a,
                Some(rsa_public_pem_of(a)),
            ),
        args.algo == KeyAlgorithm::Rsa && rsa_bits_supported(args.bits as nat) ==> res is Ok,
        args.algo == KeyAlgorithm::Rsa && res is Err ==> invalid_format_from(
            res->Err_0@,
            "RSA generation failed: "@,
        ) || invalid_format_from(res->Err_0@, "RSA key encoding failed: "@),
{
    let generated = generate_key_files(&args.algo, args.bits)?;
    let GeneratedKey { files, ed25519_secret } = generated;
    let ghost f = files;
    let writes = key_file_writes(args.output.as_str(), &args.algo, files);
    proof {
        if args.algo == KeyAlgorithm::Aes256Gcm {
            let k = choose|k: Seq<u8>| k.len() == 32 && #[trigger] aes_files_spec(f, k);
            assert(key_file_writes_spec(args.output@, args.algo, hex_lower(k), None)
                == key_file_writes_spec(args.output@, args.algo, f.private_text@, public_view(f)));
        }
        if args.algo == KeyAlgorithm::Ed25519 {
            let s = ed25519_secret->0@;
            assert(key_file_writes_spec(
                args.output@,
                args.algo,
                hex_lower(s),
                Some(hex_lower(ed25519_public_key(s))),
            ) == key_file_writes_spec(args.output@, args.algo, f.private_text@, public_view(f)));
        }
        if args.algo == KeyAlgorithm::Rsa {
            let a = f.private_text@;
            assert(key_file_writes_spec(args.output@, args.algo, a, Some(rsa_public_pem_of(a)))
                == key_file_writes_spec(args.output@, args.algo, f.private_text@, public_view(f)));
        }
    }
    Ok((writes, ed25519_secret))
}

/// The key files that `derive` writes: the Ed25519 identity's secret key and
/// public key as hex, or the derived symmetric key as hex; RSA is refused.
/// The passphrase is the one given with the options, else `prompted`.
pub fn derive_writes(
    args: &DeriveArgs,
    prompted: Option<&[u8]>,
    identity_secret: Option<&[u8; 32]>,
) -> (res: Result<Vec<FileWrite>, CryError>)
    requires
        args.passphrase is None ==> prompted is Some,
        args.algo == KeyAlgorithm::Ed25519 ==> identity_secret is Some,
    ensures
        args.algo == KeyAlgorithm::Ed25519 ==> res is Ok && writes_view(res->Ok_0)
            == key_file_writes_spec(
            args.output@,
            args.algo,
            hex_lower(identity_secret->0@),
            Some(hex_lower(ed25519_public_key(identity_secret->0@))),
        ),
        args.algo == KeyAlgorithm::Aes256Gcm && chosen_passphrase_spec(args.passphrase, prompted).len()
            <= 0xFFFF_FFFF ==> res is Ok && writes_view(res->Ok_0) == key_file_writes_spec(
            args.output@,
            args.algo,
            hex_lower(
                derived_aes_key(
                    chosen_passphrase_spec(args.passphrase, prompted),
                    args.namespace@,
                    sub_id_view(args.sub_id),
                ),
            ),
            None,
        ),
        args.algo == KeyAlgorithm::Aes256Gcm && chosen_passphrase_spec(args.passphrase, prompted).len()
            > 0xFFFF_FFFF ==> fails_with(res, CryErrorView::Kdf("password is too long"@)),
        args.algo == KeyAlgorithm::Rsa ==> fails_with(
            res,
            CryErrorView::InvalidFormat(rsa_refusal_message()),
        ),
{
    let files = derive_key_files(args, prompted, identity_secret)?;
    let ghost f = files;
    let writes = key_file_writes(args.output.as_str(), &args.algo, files);
    proof {
        if args.algo == KeyAlgorithm::Ed25519 {
            assert(public_view(f) == Some(hex_lower(ed25519_public_key(identity_secret->0@))));
        }
    }
    Ok(writes)
}

} // verus!
