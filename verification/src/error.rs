use vstd::prelude::*;

verus! {

/// Errors reported by the key-handling logic.
#[derive(Debug)]
pub enum CryError {
    /// The output file already exists and `--force` was not given.
    FileExists(String),
    /// Input could not be used as given (bad format, missing value, refused request).
    InvalidFormat(String),
    /// The key derivation function rejected its input.
    Kdf(String),
    /// The passphrase is empty.
    EmptyPassphrase,
    /// The passphrase and its confirmation differ.
    PassphraseMismatch,
}

/// What an error says, with its message as a sequence of characters.
pub enum CryErrorView {
    FileExists(Seq<char>),
    InvalidFormat(Seq<char>),
    Kdf(Seq<char>),
    EmptyPassphrase,
    PassphraseMismatch,
}

impl View for CryError {
    type V = CryErrorView;

    open spec fn view(&self) -> CryErrorView {
        match self {
            CryError::FileExists(p) => CryErrorView::FileExists(p@),
            CryError::InvalidFormat(m) => CryErrorView::InvalidFormat(m@),
            CryError::Kdf(m) => CryErrorView::Kdf(m@),
            CryError::EmptyPassphrase => CryErrorView::EmptyPassphrase,
            CryError::PassphraseMismatch => CryErrorView::PassphraseMismatch,
        }
    }
}

/// `r` is the error whose view is `v`.
pub open spec fn fails_with<T>(r: Result<T, CryError>, v: CryErrorView) -> bool {
    r matches Err(e) && e@ == v
}

/// An `InvalidFormat` error whose message begins with `prefix`.
pub open spec fn invalid_format_from(e: CryErrorView, prefix: Seq<char>) -> bool {
    e matches CryErrorView::InvalidFormat(t) && prefix.is_prefix_of(t)
}

/// A message made of `prefix` and more text begins with `prefix`.
pub(crate) proof fn lemma_message_prefix(prefix: Seq<char>, rest: Seq<char>)
    ensures
        prefix.is_prefix_of(prefix + rest),
{
    assert(prefix =~= (prefix + rest).subrange(0, prefix.len() as int));
}

} // verus!
