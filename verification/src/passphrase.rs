use vstd::prelude::*;
use crate::error::{fails_with, CryError, CryErrorView};

verus! {

pub open spec fn is_line_break(b: u8) -> bool {
    b == 10 || b == 13
}

/// Length of the first line of `s`: the bytes before the first `\n` or `\r`.
pub open spec fn first_line_len(s: Seq<u8>) -> nat
    decreases s.len(),
{
    if s.len() > 0 && !is_line_break(s[0]) {
        1 + first_line_len(s.drop_first())
    } else {
        0
    }
}

proof fn lemma_first_line_len_is(s: Seq<u8>, i: int)
    requires
        0 <= i <= s.len(),
        forall|k: int| 0 <= k < i ==> !is_line_break(#[trigger] s[k]),
        i == s.len() || is_line_break(s[i]),
    ensures
        first_line_len(s) == i,
    decreases i,
{
    if i > 0 {
        let t = s.drop_first();
        assert forall|k: int| 0 <= k < i - 1 implies !is_line_break(#[trigger] t[k]) by {
            assert(t[k] == s[k + 1]);
        }
        lemma_first_line_len_is(t, i - 1);
    }
}

/// The passphrase held in a passphrase file: its first line, which must not be empty.
pub fn passphrase_from_file(contents: &[u8]) -> (res: Result<Vec<u8>, CryError>)
    ensures
        res is Err <==> first_line_len(contents@) == 0,
        res matches Err(e) ==> e@ == CryErrorView::EmptyPassphrase,
        res matches Ok(p) ==> p@ == contents@.take(first_line_len(contents@) as int),
{
    let mut i: usize = 0;
    while i < contents.len() && contents[i] != 10u8 && contents[i] != 13u8
        invariant
            i <= contents@.len(),
            forall|k: int| 0 <= k < i ==> !is_line_break(#[trigger] contents@[k]),
        decreases contents@.len() - i,
    {
        i = i + 1;
    }
    proof {
        lemma_first_line_len_is(contents@, i as int);
    }
    if i == 0 {
        return Err(CryError::EmptyPassphrase);
    }
    let mut line: Vec<u8> = Vec::new();
    let mut j: usize = 0;
    while j < i
        invariant
            j <= i <= contents@.len(),
            line@ == contents@.take(j as int),
        decreases i - j,
    {
        line.push(contents[j]);
        j = j + 1;
        assert(line@ =~= contents@.take(j as int));
    }
    Ok(line)
}

/// A passphrase typed at a prompt: it must not be empty, and when a
/// confirmation was asked for it must match. The result is its UTF-8 bytes.
pub fn accept_passphrase(pass: &String, confirmation: Option<&String>) -> (res: Result<
    Vec<u8>,
    CryError,
>)
    ensures
        pass@.len() == 0 ==> fails_with(res, CryErrorView::EmptyPassphrase),
        pass@.len() > 0 && confirmation is Some && confirmation->0@ != pass@ ==> fails_with(
            res,
            CryErrorView::PassphraseMismatch,
        ),
        pass@.len() > 0 && (confirmation is None || confirmation->0@ == pass@) ==> res is Ok
            && res->Ok_0@ == vstd::utf8::encode_utf8(pass@),
{
    if pass.as_str().is_empty() {
        return Err(CryError::EmptyPassphrase);
    }
    match confirmation {
        Some(c) => {
            if !c.eq(pass) {
                return Err(CryError::PassphraseMismatch);
            }
        },
        None => {},
    }
    Ok(vstd::slice::slice_to_vec(pass.as_str().as_bytes()))
}

/// The passphrase to use: the one given on the command line (its UTF-8
/// bytes) when there is one, else the one read from a prompt or file.
pub open spec fn chosen_passphrase_spec(given: Option<String>, prompted: Option<&[u8]>) -> Seq<
    u8,
> {
    match given {
        Some(s) => vstd::utf8::encode_utf8(s@),
        None => prompted->0@,
    }
}

/// The passphrase to use, as `chosen_passphrase_spec` says.
pub fn chosen_passphrase(given: &Option<String>, prompted: Option<&[u8]>) -> (res: Vec<u8>)
    requires
        given is None ==> prompted is Some,
    ensures
        res@ == chosen_passphrase_spec(*given, prompted),
{
    match given {
        Some(s) => vstd::slice::slice_to_vec(s.as_str().as_bytes()),
        None => vstd::slice::slice_to_vec(prompted.unwrap()),
    }
}

} // verus!
