//! Properties that hold across the library's functions.

use vstd::prelude::*;
use crate::ssh::{extract_var_spec, line_outcome, setenv_prefix, ssh_args_spec};
use crate::keygen::{derive_targets_spec, keygen_targets_spec, KeyAlgorithm};
use crate::crypto::{argon2id_key, hex_digit, hex_lower, sha256};
use crate::keys::{
    aes_files_spec, derive_salt_text_spec, derived_aes_key, key_file_writes_spec, FileWriteView,
    KeyFiles,
};
use crate::command::{decimal, digit_char};
use crate::text::{
    is_ws, lead_len, lemma_lead_len_is, lemma_trail_len_is, starts_with, trail_len, trim,
    trim_end_char, until, CharClass,
};

verus! {

/// A line that holds no `\n`, followed by `\n` and more text, is read as that
/// line first: if the line decides the variable, that is the result; if it
/// does not, the result is what the rest of the text gives.
pub proof fn law_extract_reads_line_by_line(line: Seq<char>, rest: Seq<char>, var: Seq<char>)
    requires
        !line.contains('\n'),
    ensures
        line_outcome(line, var) matches Some(r) ==> extract_var_spec(
            line + seq!['\n'] + rest,
            var,
        ) == r,
        line_outcome(line, var) is None ==> extract_var_spec(line + seq!['\n'] + rest, var)
            == extract_var_spec(rest, var),
{
    let text = line + seq!['\n'] + rest;
    assert forall|k: int| 0 <= k < line.len() implies in_not_newline(#[trigger] text[k]) by {
        assert(text[k] == line[k]);
        if text[k] == '\n' {
            assert(line.contains('\n'));
        }
    }
    assert(text[line.len() as int] == '\n');
    lemma_lead_len_is(text, CharClass::Not('\n'), line.len() as int);
    assert(text.take(line.len() as int) =~= line);
    assert(text.skip(line.len() + 1int) =~= rest);
}

spec fn in_not_newline(c: char) -> bool {
    c != '\n'
}

/// A value without surrounding whitespace stays as it is under `trim`
/// when the text starts and ends with characters that are not whitespace.
proof fn lemma_trim_unchanged(s: Seq<char>)
    requires
        s.len() > 0,
        !is_ws(s[0]),
        !is_ws(s.last()),
    ensures
        trim(s) == s,
{
    lemma_lead_len_is(s, CharClass::Whitespace, 0);
    assert(s.skip(0) =~= s);
    lemma_trail_len_is(s, CharClass::Whitespace, 0);
    assert(s.take(s.len() as int) =~= s);
}

/// An sh-style line `VAR=value;...` gives `value` for `VAR`, when `VAR` does
/// not start with whitespace, `value` holds no `;` and has no surrounding
/// whitespace, and the line ends with `;` followed by text that does not end in
/// whitespace.
pub proof fn law_sh_line_gives_value(var: Seq<char>, value: Seq<char>, tail: Seq<char>)
    requires
        var.len() > 0,
        !is_ws(var[0]),
        !value.contains(';'),
        trim(value) == value,
        tail.len() == 0 || !is_ws(tail.last()),
    ensures
        line_outcome(var + seq!['='] + value + seq![';'] + tail, var) == Some(Some(value)),
{
    let line = var + seq!['='] + value + seq![';'] + tail;
    assert(line[0] == var[0]);
    if tail.len() == 0 {
        assert(line.last() == ';');
    } else {
        assert(line.last() == tail.last());
    }
    assert(!is_ws(';'));
    lemma_trim_unchanged(line);
    assert(line.take(var.len() + 1int) =~= var.push('='));
    let rest = line.skip(var.len() + 1int);
    assert(rest =~= value + seq![';'] + tail);
    assert forall|k: int| 0 <= k < value.len() implies crate::text::in_class(
        #[trigger] rest[k],
        CharClass::Not(';'),
    ) by {
        assert(rest[k] == value[k]);
        if rest[k] == ';' {
            assert(value.contains(';'));
        }
    }
    assert(rest[value.len() as int] == ';');
    lemma_lead_len_is(rest, CharClass::Not(';'), value.len() as int);
    assert(until(rest, ';') =~= value);
}

/// A csh-style line `setenv VAR value;` gives `value` for `VAR`, when `VAR`
/// is not empty and holds no space, and `value` holds no space and does not
/// end with `;`.
pub proof fn law_csh_line_gives_value(var: Seq<char>, value: Seq<char>)
    requires
        var.len() > 0,
        !var.contains(' '),
        !value.contains(' '),
        value.len() == 0 || value.last() != ';',
    ensures
        line_outcome(setenv_prefix() + var + seq![' '] + value + seq![';'], var) == Some(
            Some(value),
        ),
{
    let line = setenv_prefix() + var + seq![' '] + value + seq![';'];
    assert(line[0] == 's');
    assert(line.last() == ';');
    assert(!is_ws('s'));
    assert(!is_ws(';'));
    lemma_trim_unchanged(line);
    // The sh-style reading does not apply: position `var.len()` of the line is not `=`.
    if starts_with(line, var.push('=')) {
        assert(line.take(var.len() + 1int)[var.len() as int] == '=');
        if var.len() <= 6 {
            assert(line[var.len() as int] == setenv_prefix()[var.len() as int]);
        } else {
            assert(line.take(var.len() + 1int)[6] == var.push('=')[6]);
            assert(line[6] == ' ');
            assert(var[6] == ' ');
            assert(var.contains(' '));
        }
        assert(false);
    }
    assert(line.take(7) =~= setenv_prefix());
    let rest = line.skip(7);
    assert(rest =~= var + seq![' '] + value + seq![';']);
    assert forall|k: int| 0 <= k < var.len() implies crate::text::in_class(
        #[trigger] rest[k],
        CharClass::Not(' '),
    ) by {
        assert(rest[k] == var[k]);
        if rest[k] == ' ' {
            assert(var.contains(' '));
        }
    }
    assert(rest[var.len() as int] == ' ');
    lemma_lead_len_is(rest, CharClass::Not(' '), var.len() as int);
    assert(rest.take(var.len() as int) =~= var);
    let after = rest.skip(var.len() + 1int);
    assert(after =~= value + seq![';']);
    assert forall|k: int| 0 <= k < after.len() implies crate::text::in_class(
        #[trigger] after[k],
        CharClass::Not(' '),
    ) by {
        if k < value.len() {
            assert(after[k] == value[k]);
            if after[k] == ' ' {
                assert(value.contains(' '));
            }
        } else {
            assert(after[k] == ';');
        }
    }
    lemma_lead_len_is(after, CharClass::Not(' '), after.len() as int);
    assert(until(after, ' ') =~= after);
    assert forall|k: int| after.len() - 1 <= k < after.len() implies crate::text::in_class(
        #[trigger] after[k],
        CharClass::Is(';'),
    ) by {}
    if value.len() > 0 {
        assert(after[after.len() - 1 - 1] == value.last());
    }
    lemma_trail_len_is(after, CharClass::Is(';'), 1);
    assert(trim_end_char(after, ';') =~= value);
}

/// The tail of the salt text that names the sub-identity.
spec fn sub_id_tail(sub_id: Option<Seq<char>>) -> Seq<char> {
    match sub_id {
        Some(s) => "|"@ + s,
        None => Seq::empty(),
    }
}

/// Distinct namespaces salt a derived symmetric key with distinct inputs to
/// SHA-256 (for the same sub-identity): the salt texts differ, and so do
/// their UTF-8 encodings.
pub proof fn law_namespaces_separate_salts(
    ns1: Seq<char>,
    ns2: Seq<char>,
    sub_id: Option<Seq<char>>,
)
    requires
        ns1 != ns2,
    ensures
        derive_salt_text_spec(ns1, KeyAlgorithm::Aes256Gcm, sub_id) != derive_salt_text_spec(
            ns2,
            KeyAlgorithm::Aes256Gcm,
            sub_id,
        ),
        vstd::utf8::encode_utf8(derive_salt_text_spec(ns1, KeyAlgorithm::Aes256Gcm, sub_id))
            != vstd::utf8::encode_utf8(
            derive_salt_text_spec(ns2, KeyAlgorithm::Aes256Gcm, sub_id),
        ),
{
    let s1 = derive_salt_text_spec(ns1, KeyAlgorithm::Aes256Gcm, sub_id);
    let s2 = derive_salt_text_spec(ns2, KeyAlgorithm::Aes256Gcm, sub_id);
    let tail = "|"@ + "Aes256Gcm"@ + "|cry:derive"@ + sub_id_tail(sub_id);
    assert(s1 =~= ns1 + tail);
    assert(s2 =~= ns2 + tail);
    if s1 == s2 {
        assert(ns1.len() == ns2.len());
        assert(ns1 =~= s1.take(ns1.len() as int));
        assert(ns2 =~= s2.take(ns2.len() as int));
        assert(false);
    }
    vstd::utf8::encode_utf8_decode_utf8(s1);
    vstd::utf8::encode_utf8_decode_utf8(s2);
}

/// Distinct sub-identities (no sub-identity being one of them) salt a derived
/// symmetric key with distinct inputs to SHA-256, in the same namespace.
pub proof fn law_sub_ids_separate_salts(
    namespace: Seq<char>,
    sub1: Option<Seq<char>>,
    sub2: Option<Seq<char>>,
)
    requires
        sub1 != sub2,
    ensures
        derive_salt_text_spec(namespace, KeyAlgorithm::Aes256Gcm, sub1) != derive_salt_text_spec(
            namespace,
            KeyAlgorithm::Aes256Gcm,
            sub2,
        ),
        vstd::utf8::encode_utf8(derive_salt_text_spec(namespace, KeyAlgorithm::Aes256Gcm, sub1))
            != vstd::utf8::encode_utf8(
            derive_salt_text_spec(namespace, KeyAlgorithm::Aes256Gcm, sub2),
        ),
{
    reveal_strlit("|");
    let head = namespace + "|"@ + "Aes256Gcm"@ + "|cry:derive"@;
    let s1 = derive_salt_text_spec(namespace, KeyAlgorithm::Aes256Gcm, sub1);
    let s2 = derive_salt_text_spec(namespace, KeyAlgorithm::Aes256Gcm, sub2);
    let t1 = sub_id_tail(sub1);
    let t2 = sub_id_tail(sub2);
    assert(s1 =~= head + t1);
    assert(s2 =~= head + t2);
    if s1 == s2 {
        assert(t1 =~= s1.skip(head.len() as int));
        assert(t2 =~= s2.skip(head.len() as int));
        match (sub1, sub2) {
            (Some(a), Some(b)) => {
                assert(a =~= t1.skip(1));
                assert(b =~= t2.skip(1));
            },
            (Some(a), None) => {
                assert(t1.len() == 1 + a.len());
            },
            (None, Some(b)) => {
                assert(t2.len() == 1 + b.len());
            },
            (None, None) => {},
        }
        assert(false);
    }
    vstd::utf8::encode_utf8_decode_utf8(s1);
    vstd::utf8::encode_utf8_decode_utf8(s2);
}

/// The value of a lower-case hexadecimal digit.
pub open spec fn hex_value(c: char) -> int {
    if (c as int) < 58 {
        c as int - 48
    } else {
        c as int - 87
    }
}

pub open spec fn is_lower_hex_digit(c: char) -> bool {
    (48 <= c as int <= 57) || (97 <= c as int <= 102)
}

/// Read lower-case hexadecimal text back into bytes, two digits per byte.
pub open spec fn hex_decode(s: Seq<char>) -> Seq<u8>
    decreases s.len(),
{
    if s.len() < 2 {
        seq![]
    } else {
        seq![(hex_value(s[0]) * 16 + hex_value(s[1])) as u8] + hex_decode(s.skip(2))
    }
}

proof fn lemma_hex_digit(n: int)
    requires
        0 <= n < 16,
    ensures
        is_lower_hex_digit(hex_digit(n)),
        hex_value(hex_digit(n)) == n,
{
}

/// Key files hold lower-case hex: two digits per byte, and reading the text
/// back gives the bytes.
pub proof fn law_hex_round_trip(bytes: Seq<u8>)
    ensures
        hex_lower(bytes).len() == 2 * bytes.len(),
        forall|i: int| 0 <= i < hex_lower(bytes).len() ==> is_lower_hex_digit(
            #[trigger] hex_lower(bytes)[i],
        ),
        hex_decode(hex_lower(bytes)) == bytes,
    decreases bytes.len(),
{
    if bytes.len() > 0 {
        let b = bytes[0];
        let rest = bytes.drop_first();
        law_hex_round_trip(rest);
        lemma_hex_digit((b / 16) as int);
        lemma_hex_digit((b % 16) as int);
        let h = hex_lower(bytes);
        let head = seq![hex_digit((b / 16) as int), hex_digit((b % 16) as int)];
        assert(h =~= head + hex_lower(rest));
        assert forall|i: int| 0 <= i < h.len() implies is_lower_hex_digit(#[trigger] h[i]) by {
            if i >= 2 {
                assert(h[i] == hex_lower(rest)[i - 2]);
            }
        }
        assert(h.skip(2) =~= hex_lower(rest));
        assert((hex_value(h[0]) * 16 + hex_value(h[1])) as u8 == b);
        assert(hex_decode(h) =~= seq![b] + rest);
        assert(seq![b] + rest =~= bytes);
    } else {
        assert(hex_decode(hex_lower(bytes)) =~= bytes);
    }
}

/// The `ssh` arguments pin the agent with `-o IdentityAgent=<socket>` and
/// `-o IdentitiesOnly=yes`; then, whenever a port is given, `-p` and the
/// port in decimal; then the extra arguments in their order; the target last.
pub proof fn law_ssh_arguments_layout(
    socket: Seq<char>,
    port: Option<u16>,
    extra: Seq<Seq<char>>,
    target: Seq<char>,
)
    ensures
        ({
            let a = ssh_args_spec(socket, port, extra, target);
            let k: int = if port is Some {
                6
            } else {
                4
            };
            &&& a.len() == k + extra.len() + 1
            &&& a[0] == "-o"@
            &&& a[1] == "IdentityAgent="@ + socket
            &&& a[2] == "-o"@
            &&& a[3] == "IdentitiesOnly=yes"@
            &&& port matches Some(p) ==> a[4] == "-p"@ && a[5] == decimal(p as nat)
            &&& forall|i: int| 0 <= i < extra.len() ==> #[trigger] a[k + i] == extra[i]
            &&& a[k + extra.len()] == target
        }),
{
    let a = ssh_args_spec(socket, port, extra, target);
    let head = seq!["-o"@, "IdentityAgent="@ + socket, "-o"@, "IdentitiesOnly=yes"@];
    let ports: Seq<Seq<char>> = match port {
        Some(p) => seq!["-p"@, decimal(p as nat)],
        None => seq![],
    };
    assert(a =~= head + ports + extra + seq![target]);
    let k = head.len() + ports.len();
    assert forall|i: int| 0 <= i < extra.len() implies #[trigger] a[k + i] == extra[i] by {
        assert((head + ports + extra + seq![target])[k + i] == extra[i]);
    }
}

/// The value of a text of decimal digits.
pub open spec fn decimal_value(s: Seq<char>) -> int
    decreases s.len(),
{
    if s.len() == 0 {
        0
    } else {
        decimal_value(s.drop_last()) * 10 + (s.last() as int - 48)
    }
}

/// The decimal text of `n` is made of the digits `0`-`9`, starts with `0`
/// only for zero itself, and reads back as `n`.
pub proof fn law_decimal_reads_back(n: nat)
    ensures
        decimal(n).len() > 0,
        forall|i: int| 0 <= i < decimal(n).len() ==> 48 <= #[trigger] decimal(n)[i] as int <= 57,
        decimal(n)[0] == '0' ==> n == 0,
        decimal_value(decimal(n)) == n,
    decreases n,
{
    if n >= 10 {
        law_decimal_reads_back(n / 10);
        let d = decimal(n);
        let h = decimal(n / 10);
        assert(d =~= h + seq![digit_char((n % 10) as int)]);
        assert(d.drop_last() =~= h);
        assert(d[0] == h[0]);
        assert forall|i: int| 0 <= i < d.len() implies 48 <= #[trigger] d[i] as int <= 57 by {
            if i < h.len() {
                assert(d[i] == h[i]);
            }
        }
        lemma_digit_char_value((n % 10) as int);
        assert(decimal_value(d) == decimal_value(h) * 10 + (n % 10));
        assert((n / 10) * 10 + n % 10 == n);
    } else {
        lemma_digit_char_value(n as int);
        let d = decimal(n);
        assert(d.drop_last() =~= Seq::<char>::empty());
        assert(decimal_value(d) == decimal_value(d.drop_last()) * 10 + (d.last() as int - 48));
    }
}

proof fn lemma_digit_char_value(d: int)
    requires
        0 <= d < 10,
    ensures
        digit_char(d) as int == 48 + d,
{
}

/// A symmetric key derived from `passphrase` is Argon2id (64 MiB, 3 passes, one
/// lane) over the whole passphrase, salted with the SHA-256 digest of the UTF-8
/// text `<namespace>|Aes256Gcm|cry:derive`, followed by `|<sub-id>` when one
/// is given.
pub proof fn law_derived_key_hashes_whole_passphrase(
    passphrase: Seq<u8>,
    namespace: Seq<char>,
    sub_id: Option<Seq<char>>,
)
    ensures
        derived_aes_key(passphrase, namespace, sub_id) == argon2id_key(
            65536u32,
            3u32,
            1u32,
            passphrase,
            sha256(
                vstd::utf8::encode_utf8(
                    namespace + "|Aes256Gcm|cry:derive"@ + match sub_id {
                        Some(s) => "|"@ + s,
                        None => Seq::empty(),
                    },
                ),
            ),
        ),
{
    reveal_strlit("|");
    reveal_strlit("Aes256Gcm");
    reveal_strlit("|cry:derive");
    reveal_strlit("|Aes256Gcm|cry:derive");
    assert(derive_salt_text_spec(namespace, KeyAlgorithm::Aes256Gcm, sub_id) =~= namespace
        + "|Aes256Gcm|cry:derive"@ + sub_id_tail(sub_id));
}

/// The files that `keygen` must be free to write start with `<base>.cry_id`;
/// a symmetric key has only that one; RSA adds `<base>.cry_pub_id`, with or
/// without `--openssh`; Ed25519 adds `<base>.cry_pub_id` and, with
/// `--openssh`, the two OpenSSH files. `derive` checks the same files, and
/// none for RSA, which it refuses.
pub proof fn law_keygen_targets(base: Seq<char>, algo: KeyAlgorithm, openssh: bool)
    ensures
        keygen_targets_spec(base, algo, openssh)[0] == base + ".cry_id"@,
        algo == KeyAlgorithm::Aes256Gcm ==> keygen_targets_spec(base, algo, openssh) == seq![
            base + ".cry_id"@,
        ],
        algo == KeyAlgorithm::Rsa ==> keygen_targets_spec(base, algo, openssh) == seq![
            base + ".cry_id"@,
            base + ".cry_pub_id"@,
        ],
        algo == KeyAlgorithm::Ed25519 && !openssh ==> keygen_targets_spec(base, algo, openssh)
            == seq![base + ".cry_id"@, base + ".cry_pub_id"@],
        algo == KeyAlgorithm::Ed25519 && openssh ==> keygen_targets_spec(base, algo, openssh)
            == seq![
            base + ".cry_id"@,
            base + ".cry_pub_id"@,
            base + ".cry_id"@ + ".openssh_id"@,
            base + ".cry_id"@ + ".openssh_pub"@,
        ],
        algo != KeyAlgorithm::Rsa ==> derive_targets_spec(base, algo, openssh)
            == keygen_targets_spec(base, algo, openssh),
        algo == KeyAlgorithm::Rsa ==> derive_targets_spec(base, algo, openssh).len() == 0,
{
}

/// The key files are written in order: the private key text, exactly as
/// given, at `<base>.cry_id`; then, when there is a public key, its text at
/// `<base>.cry_pub_id`; nothing else. Hex key files (all but RSA) are
/// checked again before writing.
pub proof fn law_key_file_layout(
    base: Seq<char>,
    algo: KeyAlgorithm,
    private_text: Seq<char>,
    public_text: Option<Seq<char>>,
)
    ensures
        ({
            let w = key_file_writes_spec(base, algo, private_text, public_text);
            &&& w.len() == if public_text is Some {
                2int
            } else {
                1int
            }
            &&& w[0] == FileWriteView {
                path: base + ".cry_id"@,
                contents: private_text,
                recheck: algo != KeyAlgorithm::Rsa,
            }
            &&& public_text matches Some(p) ==> w[1] == FileWriteView {
                path: base + ".cry_pub_id"@,
                contents: p,
                recheck: algo != KeyAlgorithm::Rsa,
            }
        }),
{
}

/// The symmetric key file of a 32-byte key holds 64 lower-case hex digits,
/// which read back as the key.
pub proof fn law_symmetric_key_file_is_hex_of_key(files: KeyFiles, key: Seq<u8>)
    requires
        key.len() == 32,
        aes_files_spec(files, key),
    ensures
        files.private_text@.len() == 64,
        forall|i: int| 0 <= i < 64 ==> is_lower_hex_digit(#[trigger] files.private_text@[i]),
        hex_decode(files.private_text@) == key,
        files.public_text is None,
{
    law_hex_round_trip(key);
}

} // verus!
