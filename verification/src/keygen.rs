//! Key algorithms, the options of `keygen` and `derive`, and the files they write.

use vstd::prelude::*;
use crate::error::{CryError, CryErrorView};

verus! {

/// Key algorithms that `keygen` and `derive` produce.
#[derive(Clone, Copy, Debug, PartialEq, Eq, Structural)]
pub enum KeyAlgorithm {
    Ed25519,
    Rsa,
    Aes256Gcm,
}

/// Options of `cry keygen`.
#[derive(Debug)]
pub struct KeygenArgs {
    pub algo: KeyAlgorithm,
    pub bits: usize,
    /// Base path of the output files.
    pub output: String,
    pub sub_id: Option<String>,
    pub force: bool,
    /// Also write an OpenSSH private key and public key line.
    pub openssh: bool,
    /// Comment embedded in the SSH key line.
    pub comment: String,
}

/// Options of `cry derive`.
#[derive(Debug)]
pub struct DeriveArgs {
    pub algo: KeyAlgorithm,
    pub bits: usize,
    pub passphrase: Option<String>,
    /// Derivation namespace.
    pub namespace: String,
    /// Base path of the output files.
    pub output: String,
    pub sub_id: Option<String>,
    pub force: bool,
    /// Also write an OpenSSH private key and public key line.
    pub openssh: bool,
    /// Comment embedded in the SSH key line.
    pub comment: String,
}


/// `<base>.cry_id`: where a private (or symmetric) key is written.
pub open spec fn private_key_path(base: Seq<char>) -> Seq<char> {
    base + ".cry_id"@
}

/// `<base>.cry_pub_id`: where a public key is written.
pub open spec fn public_key_path(base: Seq<char>) -> Seq<char> {
    base + ".cry_pub_id"@
}

/// `<path>.openssh_id`: where the OpenSSH private key is written.
pub open spec fn openssh_private_path(path: Seq<char>) -> Seq<char> {
    path + ".openssh_id"@
}

/// `<path>.openssh_pub`: where the OpenSSH `authorized_keys` line is written.
pub open spec fn openssh_public_path(path: Seq<char>) -> Seq<char> {
    path + ".openssh_pub"@
}

/// Whether keys of `algo` come with a public key file.
pub open spec fn has_public_part(algo: KeyAlgorithm) -> bool {
    algo != KeyAlgorithm::Aes256Gcm
}

/// The key file names for output base `base`: the private key file, and the
/// public key file unless the algorithm is symmetric.
pub fn names(base: &str, algo: &KeyAlgorithm) -> (res: (String, Option<String>))
    ensures
        res.0@ == private_key_path(base@),
        match res.1 {
            Some(p) => has_public_part(*algo) && p@ == public_key_path(base@),
            None => !has_public_part(*algo),
        },
{
    let mut priv_path = String::from_str(base);
    priv_path.append(".cry_id");
    match algo {
        KeyAlgorithm::Aes256Gcm => (priv_path, None),
        _ => {
            let mut pub_path = String::from_str(base);
            pub_path.append(".cry_pub_id");
            (priv_path, Some(pub_path))
        },
    }
}

/// `<path>.openssh_id`.
pub fn openssh_path(path: &str) -> (res: String)
    ensures
        res@ == openssh_private_path(path@),
{
    let mut s = String::from_str(path);
    s.append(".openssh_id");
    s
}

/// `<path>.openssh_pub`.
pub fn openssh_pub_path(path: &str) -> (res: String)
    ensures
        res@ == openssh_public_path(path@),
{
    let mut s = String::from_str(path);
    s.append(".openssh_pub");
    s
}

/// Refuse to write over an existing file unless `force` is set.
/// `exists` tells whether something is already at `path`.
pub fn ensure_writable(path: &str, exists: bool, force: bool) -> (res: Result<(), CryError>)
    ensures
        res is Err <==> exists && !force,
        res matches Err(e) ==> e@ == CryErrorView::FileExists(path@),
{
    if exists && !force {
        return Err(CryError::FileExists(String::from_str(path)));
    }
    Ok(())
}

/// The files that `keygen` must be free to write, in the order it checks them.
pub open spec fn keygen_targets_spec(base: Seq<char>, algo: KeyAlgorithm, openssh: bool) -> Seq<
    Seq<char>,
> {
    let p = private_key_path(base);
    match algo {
        KeyAlgorithm::Aes256Gcm => seq![p],
        KeyAlgorithm::Rsa => seq![p, public_key_path(base)],
        KeyAlgorithm::Ed25519 => if openssh {
            seq![p, public_key_path(base), openssh_private_path(p), openssh_public_path(p)]
        } else {
            seq![p, public_key_path(base)]
        },
    }
}

/// The files that `derive` must be free to write, in the order it checks them.
/// Deterministic RSA is refused before any file is looked at.
pub open spec fn derive_targets_spec(base: Seq<char>, algo: KeyAlgorithm, openssh: bool) -> Seq<
    Seq<char>,
> {
    match algo {
        KeyAlgorithm::Rsa => seq![],
        _ => keygen_targets_spec(base, algo, openssh),
    }
}

fn targets_for(base: &str, algo: &KeyAlgorithm, openssh: bool) -> (res: Vec<String>)
    ensures
        res.deep_view() == keygen_targets_spec(base@, *algo, openssh),
{
    let (p, public) = names(base, algo);
    let mut res: Vec<String> = Vec::new();
    let ghost pv = p@;
    match algo {
        KeyAlgorithm::Aes256Gcm => {
            res.push(p);
        },
        KeyAlgorithm::Rsa => {
            let q = public.unwrap();
            res.push(p);
            res.push(q);
        },
        KeyAlgorithm::Ed25519 => {
            let q = public.unwrap();
            if openssh {
                let a = openssh_path(p.as_str());
                let b = openssh_pub_path(p.as_str());
                res.push(p);
                res.push(q);
                res.push(a);
                res.push(b);
            } else {
                res.push(p);
                res.push(q);
            }
        },
    }
    assert(res.deep_view() =~= keygen_targets_spec(base@, *algo, openssh));
    res
}

/// The files that `keygen` with these options writes and must not overwrite
/// without `--force`, in the order they are checked.
pub fn keygen_targets(args: &KeygenArgs) -> (res: Vec<String>)
    ensures
        res.deep_view() == keygen_targets_spec(args.output@, args.algo, args.openssh),
{
    targets_for(args.output.as_str(), &args.algo, args.openssh)
}

/// The files that `derive` with these options writes and must not overwrite
/// without `--force`, in the order they are checked.
pub fn derive_targets(args: &DeriveArgs) -> (res: Vec<String>)
    ensures
        res.deep_view() == derive_targets_spec(args.output@, args.algo, args.openssh),
{
    match args.algo {
        KeyAlgorithm::Rsa => {
            let res: Vec<String> = Vec::new();
            assert(res.deep_view() =~= Seq::<Seq<char>>::empty());
            res
        },
        _ => targets_for(args.output.as_str(), &args.algo, args.openssh),
    }
}

/// Number of leading entries that are `false`.
pub open spec fn leading_false(s: Seq<bool>) -> nat
    decreases s.len(),
{
    if s.len() > 0 && !s[0] {
        1 + leading_false(s.drop_first())
    } else {
        0
    }
}

proof fn lemma_leading_false_is(s: Seq<bool>, i: int)
    requires
        0 <= i <= s.len(),
        forall|k: int| 0 <= k < i ==> !#[trigger] s[k],
        i == s.len() || s[i],
    ensures
        leading_false(s) == i,
    decreases i,
{
    if i > 0 {
        let t = s.drop_first();
        assert forall|k: int| 0 <= k < i - 1 implies !#[trigger] t[k] by {
            assert(t[k] == s[k + 1]);
        }
        lemma_leading_false_is(t, i - 1);
    }
}

/// Check the target files in order: the first one that exists is refused
/// unless `force` is set. `exists[i]` tells whether `paths[i]` exists.
pub fn check_targets(paths: &Vec<String>, exists: &Vec<bool>, force: bool) -> (res: Result<
    (),
    CryError,
>)
    requires
        paths@.len() == exists@.len(),
    ensures
        res is Err <==> !force && leading_false(exists@) < exists@.len(),
        res matches Err(e) ==> e@ == CryErrorView::FileExists(
            paths@[leading_false(exists@) as int]@,
        ),
{
    let mut i: usize = 0;
    while i < paths.len()
        invariant
            i <= paths@.len() == exists@.len(),
            force || forall|k: int| 0 <= k < i ==> !#[trigger] exists@[k],
        decreases paths@.len() - i,
    {
        let r = ensure_writable(paths[i].as_str(), exists[i], force);
        if r.is_err() {
            proof {
                lemma_leading_false_is(exists@, i as int);
            }
            return r;
        }
        i = i + 1;
    }
    proof {
        if !force {
            lemma_leading_false_is(exists@, i as int);
        }
    }
    Ok(())
}

} // verus!
