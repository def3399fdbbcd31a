//! Calls into the outside cryptography crates. Every item here is trusted:
//! Verus believes its contract without reading its body.

use vstd::prelude::*;
use rand::RngCore;
use rsa::pkcs8::{EncodePrivateKey, EncodePublicKey};
use sha2::Digest;

verus! {

/// Lower-case hexadecimal digit for `n < 16`.
pub open spec fn hex_digit(n: int) -> char {
    if n < 10 {
        (48 + n) as char
    } else {
        (87 + n) as char
    }
}

/// Lower-case hexadecimal text of `bytes`, two digits per byte, high nibble first.
pub open spec fn hex_lower(bytes: Seq<u8>) -> Seq<char>
    decreases bytes.len(),
{
    if bytes.len() == 0 {
        seq![]
    } else {
        seq![hex_digit((bytes[0] / 16) as int), hex_digit((bytes[0] % 16) as int)] + hex_lower(bytes.drop_first())
    }
}

/// `hex::encode`: the documentation states that it encodes the bytes as
/// lower-case hex, two digits per byte; the contract says exactly that.
#[verifier::external_body]
pub(crate) fn hex_encode(bytes: &[u8]) -> (res: String)
    ensures
        res@ == hex_lower(bytes@),
{
    hex::encode(bytes)
}

/// The SHA-256 digest of `data`.
pub uninterp spec fn sha256(data: Seq<u8>) -> Seq<u8>;

/// `<sha2::Sha256 as Digest>::digest`: the contract names the 32-byte result
/// `sha256(data)` and says nothing more of it.
#[verifier::external_body]
pub(crate) fn sha256_digest(data: &[u8]) -> (res: [u8; 32])
    ensures
        res@ == sha256(data@),
{
    sha2::Sha256::digest(data).into()
}

/// Parameters that `argon2::Params::new` accepts (the checks in its source).
pub open spec fn argon2_params_valid(m_cost: u32, t_cost: u32, p_cost: u32) -> bool {
    &&& 8 <= m_cost
    &&& p_cost * 8 <= m_cost
    &&& 1 <= t_cost
    &&& 1 <= p_cost <= 0xFF_FFFF
}

/// The 32-byte Argon2id (version 0x13) output for these costs, password and salt.
pub uninterp spec fn argon2id_key(
    m_cost: u32,
    t_cost: u32,
    p_cost: u32,
    password: Seq<u8>,
    salt: Seq<u8>,
) -> Seq<u8>;

/// `argon2::Argon2::hash_password_into` with Argon2id, version 0x13 and a
/// 32-byte output. Its source rejects, in this order, a password longer than
/// 0xFFFF_FFFF bytes, a salt shorter than 8 bytes and a salt longer than
/// 0xFFFF_FFFF bytes, with the messages stated here; otherwise the contract
/// names the key `argon2id_key(..)`. It says nothing of the memory that is used.
#[verifier::external_body]
pub(crate) fn argon2id_hash(
    m_cost: u32,
    t_cost: u32,
    p_cost: u32,
    password: &[u8],
    salt: &[u8],
) -> (res: Result<[u8; 32], String>)
    requires
        argon2_params_valid(m_cost, t_cost, p_cost),
    ensures
        password@.len() > 0xFFFF_FFFF ==> res is Err && res->Err_0@ == "password is too long"@,
        password@.len() <= 0xFFFF_FFFF && salt@.len() < 8 ==> res is Err && res->Err_0@
            == "salt is too short"@,
        password@.len() <= 0xFFFF_FFFF && salt@.len() > 0xFFFF_FFFF ==> res is Err
            && res->Err_0@ == "salt is too long"@,
        password@.len() <= 0xFFFF_FFFF && 8 <= salt@.len() <= 0xFFFF_FFFF ==> res is Ok
            && res->Ok_0@ == argon2id_key(m_cost, t_cost, p_cost, password@, salt@),
{
    let mut okm = [0u8; 32];
    let params = argon2::Params::new(m_cost, t_cost, p_cost, Some(okm.len())).unwrap();
    let kdf = argon2::Argon2::new(argon2::Algorithm::Argon2id, argon2::Version::V0x13, params);
    match kdf.hash_password_into(password, salt, &mut okm) {
        Ok(()) => Ok(okm),
        Err(e) => Err(e.to_string()),
    }
}

/// The Ed25519 public key that belongs to a 32-byte secret key.
pub uninterp spec fn ed25519_public_key(secret: Seq<u8>) -> Seq<u8>;

/// `ed25519_dalek::SigningKey::from_bytes(..).verifying_key().to_bytes()`:
/// the contract names the result `ed25519_public_key(secret)`.
#[verifier::external_body]
pub(crate) fn ed25519_verifying_key(secret: &[u8; 32]) -> (res: [u8; 32])
    ensures
        res@ == ed25519_public_key(secret@),
{
    ed25519_dalek::SigningKey::from_bytes(secret).verifying_key().to_bytes()
}

/// `ed25519_dalek::SigningKey::generate` from the operating system's random
/// source, as its 32 secret bytes. Nothing is stated of the bytes.
#[verifier::external_body]
pub(crate) fn random_signing_key() -> (res: [u8; 32]) {
    ed25519_dalek::SigningKey::generate(&mut rand::rngs::OsRng).to_bytes()
}

/// `RngCore::fill_bytes` on `rand::rngs::OsRng` into 32 bytes. Nothing is stated
/// of the bytes.
#[verifier::external_body]
pub(crate) fn random_key_bytes() -> (res: [u8; 32]) {
    let mut key = [0u8; 32];
    rand::rngs::OsRng.fill_bytes(&mut key);
    key
}

/// The size in bits of the modulus of the RSA private key in PKCS#8 PEM text `pem`.
pub uninterp spec fn rsa_pem_modulus_bits(pem: Seq<char>) -> nat;

/// The SPKI PEM text (LF line endings) of the public half of the RSA private
/// key in PKCS#8 PEM text `private_pem`.
pub uninterp spec fn rsa_public_pem_of(private_pem: Seq<char>) -> Seq<char>;

/// RSA modulus sizes for which generation and encoding always succeed: from
/// 64 bits up to 2^28 bits.
pub open spec fn rsa_bits_supported(bits: nat) -> bool {
    64 <= bits <= 0x1000_0000
}

/// Where making an RSA key failed, with the crate's error text.
pub enum RsaKeyError {
    Generate(String),
    Encode(String),
}

/// `rsa::RsaPrivateKey::new` with `OsRng`, then `to_pkcs8_pem` of the key and
/// `to_public_key_pem` of `RsaPublicKey::from` it (LF line endings). The key is
/// random; what holds of every successful outcome is stated: the generator
/// loops until the modulus has exactly `bits` bits, and the second text is the
/// public key of the first. From 64 bits up the generator's only refusal
/// (too few primes below 64 bits) cannot happen, it redraws primes until the
/// key is valid, and validation sets no size cap; the bound above is where the
/// encoded private key would pass the DER length limit of 256 MiB. Below 64
/// bits the outcome depends on the size and is left open.
#[verifier::external_body]
pub(crate) fn rsa_generate_pem(bits: usize) -> (res: Result<(String, String), RsaKeyError>)
    ensures
        res is Ok ==> rsa_pem_modulus_bits(res->Ok_0.0@) == bits && res->Ok_0.1@
            == rsa_public_pem_of(res->Ok_0.0@),
        rsa_bits_supported(bits as nat) ==> res is Ok,
{
    let key = match rsa::RsaPrivateKey::new(&mut rand::rngs::OsRng, bits) {
        Ok(k) => k,
        Err(e) => return Err(RsaKeyError::Generate(e.to_string())),
    };
    let private = match key.to_pkcs8_pem(rsa::pkcs8::LineEnding::LF) {
        Ok(pem) => pem.to_string(),
        Err(e) => return Err(RsaKeyError::Encode(e.to_string())),
    };
    match rsa::RsaPublicKey::from(&key).to_public_key_pem(rsa::pkcs8::LineEnding::LF) {
        Ok(public) => Ok((private, public)),
        Err(e) => Err(RsaKeyError::Encode(e.to_string())),
    }
}

/// A comment that the SSH encodings take. They fail only when a length
/// overflows: a `u32` length prefix, or the PEM encoder's length arithmetic in
/// `usize`, which multiplies the byte length by 4 and so overflows on a 32-bit
/// target from 1 GiB. Below 1 GiB (less room for the key itself) neither can.
pub open spec fn ssh_comment_fits(comment: Seq<char>) -> bool {
    vstd::utf8::encode_utf8(comment).len() < 0x3FFF_0000
}

/// A comment short enough for an encrypted OpenSSH key that carries it to be
/// read back: the decoder refuses any length prefix over 0xFFFFF, and the
/// encrypted section holds the comment and at most 146 bytes more.
pub open spec fn ssh_comment_reads_back(comment: Seq<char>) -> bool {
    vstd::utf8::encode_utf8(comment).len() < 0xF_FF00
}

/// The 64 keypair bytes hold a secret key and its own public key.
pub open spec fn consistent_ed25519_keypair(keypair: Seq<u8>) -> bool {
    keypair.len() == 64 && keypair.subrange(32, 64) == ed25519_public_key(keypair.subrange(0, 32))
}

/// The unencrypted OpenSSH private key text (LF line endings) of an Ed25519
/// keypair given as secret key followed by public key, with `comment`.
pub uninterp spec fn openssh_private_key_text(keypair: Seq<u8>, comment: Seq<char>) -> Seq<char>;

/// Where building or encoding an OpenSSH key failed, with the crate's error text.
pub enum OpensshKeyError {
    Build(String),
    Encode(String),
}

/// `ssh_key::private::Ed25519Keypair::from_bytes`, `ssh_key::PrivateKey::new`
/// and `PrivateKey::to_openssh(LineEnding::LF)`. The encoding is deterministic
/// (its check integer comes from the key bytes), so the contract names the text
/// `openssh_private_key_text(keypair, comment)`. The source rejects only a
/// public half that does not belong to the secret half, and lengths that
/// overflow the encoding; so a consistent keypair with a comment that fits succeeds.
#[verifier::external_body]
pub(crate) fn openssh_ed25519_private_key(keypair: &[u8; 64], comment: &str) -> (res: Result<
    String,
    OpensshKeyError,
>)
    ensures
        res is Ok ==> res->Ok_0@ == openssh_private_key_text(keypair@, comment@),
        consistent_ed25519_keypair(keypair@) && ssh_comment_fits(comment@) ==> res is Ok,
{
    let pair = match ssh_key::private::Ed25519Keypair::from_bytes(keypair) {
        Ok(p) => p,
        Err(e) => return Err(OpensshKeyError::Build(e.to_string())),
    };
    let data = ssh_key::private::KeypairData::Ed25519(pair);
    let key = match ssh_key::PrivateKey::new(data, comment) {
        Ok(k) => k,
        Err(e) => return Err(OpensshKeyError::Build(e.to_string())),
    };
    match key.to_openssh(ssh_key::LineEnding::LF) {
        Ok(text) => Ok(text.to_string()),
        Err(e) => Err(OpensshKeyError::Encode(e.to_string())),
    }
}

/// What decrypting the OpenSSH private key text `text` with `passphrase`
/// gives (`PrivateKey::from_openssh`, then `decrypt`): the Ed25519 keypair
/// bytes and the comment, or nothing when it cannot be read or decrypted.
pub uninterp spec fn openssh_decrypted_key(text: Seq<char>, passphrase: Seq<u8>) -> Option<
    (Seq<u8>, Seq<char>),
>;

/// `Ed25519Keypair::from_bytes`, `PrivateKey::new`, `PrivateKey::encrypt` with
/// `OsRng` (aes256-ctr with a bcrypt-pbkdf key from a random salt) and
/// `to_openssh(LineEnding::LF)`. The text depends on chance; every text it
/// gives for a comment that can be read back decrypts with the passphrase to
/// the keypair and comment (for a longer comment the decoder's length limit
/// refuses it). Besides the checks of the unencrypted encoding, the source
/// rejects an empty passphrase (bcrypt-pbkdf), so a consistent keypair, a
/// comment that fits and a non-empty passphrase succeed.
#[verifier::external_body]
pub(crate) fn openssh_ed25519_encrypted_private_key(
    keypair: &[u8; 64],
    comment: &str,
    passphrase: &[u8],
) -> (res: Result<String, OpensshKeyError>)
    ensures
        res is Ok && ssh_comment_reads_back(comment@) ==> openssh_decrypted_key(
            res->Ok_0@,
            passphrase@,
        ) == Some((keypair@, comment@)),
        consistent_ed25519_keypair(keypair@) && ssh_comment_fits(comment@) && passphrase@.len()
            > 0 ==> res is Ok,
{
    let pair = ssh_key::private::Ed25519Keypair::from_bytes(keypair)
        .map_err(|e| OpensshKeyError::Build(e.to_string()))?;
    let data = ssh_key::private::KeypairData::Ed25519(pair);
    let key = ssh_key::PrivateKey::new(data, comment)
        .map_err(|e| OpensshKeyError::Build(e.to_string()))?;
    match key.encrypt(&mut rand::rngs::OsRng, passphrase) {
        Ok(enc) => match enc.to_openssh(ssh_key::LineEnding::LF) {
            Ok(text) => Ok(text.to_string()),
            Err(e) => Err(OpensshKeyError::Encode(e.to_string())),
        },
        Err(e) => Err(OpensshKeyError::Encode(e.to_string())),
    }
}

/// The OpenSSH public key line (`ssh-ed25519 <base64> <comment>`) of an
/// Ed25519 public key.
pub uninterp spec fn openssh_public_key_line(public: Seq<u8>, comment: Seq<char>) -> Seq<char>;

/// `ssh_key::PublicKey::new(KeyData::Ed25519(..), comment).to_openssh()`: the
/// contract names the line; it fails only on length overflow, so a comment
/// that fits succeeds.
#[verifier::external_body]
pub(crate) fn openssh_ed25519_public_line(public: &[u8; 32], comment: &str) -> (res: Result<
    String,
    String,
>)
    ensures
        res is Ok ==> res->Ok_0@ == openssh_public_key_line(public@, comment@),
        ssh_comment_fits(comment@) ==> res is Ok,
{
    let data = ssh_key::public::KeyData::Ed25519(ssh_key::public::Ed25519PublicKey(*public));
    match ssh_key::PublicKey::new(data, comment).to_openssh() {
        Ok(line) => Ok(line),
        Err(e) => Err(e.to_string()),
    }
}

/// The SHA-256 fingerprint text (`SHA256:<base64>`) of an Ed25519 public key.
pub uninterp spec fn openssh_sha256_fingerprint(public: Seq<u8>) -> Seq<char>;

/// `KeyData::fingerprint(HashAlg::Sha256)`, printed: the contract names the text.
#[verifier::external_body]
pub(crate) fn openssh_ed25519_fingerprint(public: &[u8; 32]) -> (res: String)
    ensures
        res@ == openssh_sha256_fingerprint(public@),
{
    let data = ssh_key::public::KeyData::Ed25519(ssh_key::public::Ed25519PublicKey(*public));
    data.fingerprint(ssh_key::HashAlg::Sha256).to_string()
}

/// `std::str::from_utf8`: documented to succeed exactly on valid UTF-8, and
/// then the text is what the bytes decode to.
#[verifier::external_body]
pub(crate) fn utf8_text(bytes: &[u8]) -> (res: Option<String>)
    ensures
        res is Some <==> vstd::utf8::valid_utf8(bytes@),
        res is Some ==> res->0@ == vstd::utf8::decode_utf8(bytes@),
{
    match std::str::from_utf8(bytes) {
        Ok(s) => Some(s.to_string()),
        Err(_) => None,
    }
}

} // verus!
