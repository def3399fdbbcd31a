use vstd::prelude::*;

verus! {

broadcast use vstd::string::group_string_axioms;

/// `char::is_whitespace`: the Unicode `White_Space` property.
pub open spec fn is_ws(c: char) -> bool {
    let u = c as u32;
    ||| 0x09 <= u <= 0x0d
    ||| u == 0x20
    ||| u == 0x85
    ||| u == 0xa0
    ||| u == 0x1680
    ||| 0x2000 <= u <= 0x200a
    ||| u == 0x2028
    ||| u == 0x2029
    ||| u == 0x202f
    ||| u == 0x205f
    ||| u == 0x3000
}

/// A class of characters that a scan runs over.
pub enum CharClass {
    /// Unicode whitespace.
    Whitespace,
    /// Exactly this character.
    Is(char),
    /// Any character but this one.
    Not(char),
}

pub open spec fn in_class(c: char, cls: CharClass) -> bool {
    match cls {
        CharClass::Whitespace => is_ws(c),
        CharClass::Is(d) => c == d,
        CharClass::Not(d) => c != d,
    }
}

/// Number of leading characters of `s` in `cls`.
pub open spec fn lead_len(s: Seq<char>, cls: CharClass) -> nat
    decreases s.len(),
{
    if s.len() > 0 && in_class(s[0], cls) {
        1 + lead_len(s.drop_first(), cls)
    } else {
        0
    }
}

/// Number of trailing characters of `s` in `cls`.
pub open spec fn trail_len(s: Seq<char>, cls: CharClass) -> nat
    decreases s.len(),
{
    if s.len() > 0 && in_class(s.last(), cls) {
        1 + trail_len(s.drop_last(), cls)
    } else {
        0
    }
}

/// `str::trim`: `s` without leading and trailing whitespace.
pub open spec fn trim(s: Seq<char>) -> Seq<char> {
    let t = s.skip(lead_len(s, CharClass::Whitespace) as int);
    t.take(t.len() - trail_len(t, CharClass::Whitespace))
}

/// `s.split(c).next()`: the characters of `s` before the first `c`.
pub open spec fn until(s: Seq<char>, c: char) -> Seq<char> {
    s.take(lead_len(s, CharClass::Not(c)) as int)
}

/// `str::trim_end_matches(c)` for a single character `c`.
pub open spec fn trim_end_char(s: Seq<char>, c: char) -> Seq<char> {
    s.take(s.len() - trail_len(s, CharClass::Is(c)))
}

pub open spec fn starts_with(s: Seq<char>, p: Seq<char>) -> bool {
    p.len() <= s.len() && s.take(p.len() as int) == p
}

/// The first `i` characters are in `cls` and the next one (if any) is not.
pub proof fn lemma_lead_len_is(s: Seq<char>, cls: CharClass, i: int)
    requires
        0 <= i <= s.len(),
        forall|k: int| 0 <= k < i ==> in_class(#[trigger] s[k], cls),
        i == s.len() || !in_class(s[i], cls),
    ensures
        lead_len(s, cls) == i,
    decreases i,
{
    if i > 0 {
        assert(in_class(s[0], cls));
        let t = s.drop_first();
        assert forall|k: int| 0 <= k < i - 1 implies in_class(#[trigger] t[k], cls) by {
            assert(t[k] == s[k + 1]);
        }
        lemma_lead_len_is(t, cls, i - 1);
    }
}

/// The last `i` characters are in `cls` and the one before them (if any) is not.
pub proof fn lemma_trail_len_is(s: Seq<char>, cls: CharClass, i: int)
    requires
        0 <= i <= s.len(),
        forall|k: int| s.len() - i <= k < s.len() ==> in_class(#[trigger] s[k], cls),
        i == s.len() || !in_class(s[s.len() - i - 1], cls),
    ensures
        trail_len(s, cls) == i,
    decreases i,
{
    if i > 0 {
        assert(in_class(s[s.len() - 1], cls));
        let t = s.drop_last();
        assert forall|k: int| t.len() - (i - 1) <= k < t.len() implies in_class(
            #[trigger] t[k],
            cls,
        ) by {
            assert(t[k] == s[k]);
        }
        lemma_trail_len_is(t, cls, i - 1);
    }
}

pub fn is_whitespace(c: char) -> (r: bool)
    ensures
        r == is_ws(c),
{
    let u = c as u32;
    (0x09 <= u && u <= 0x0d) || u == 0x20 || u == 0x85 || u == 0xa0 || u == 0x1680 || (0x2000
        <= u && u <= 0x200a) || u == 0x2028 || u == 0x2029 || u == 0x202f || u == 0x205f || u
        == 0x3000
}

fn in_class_exec(c: char, cls: &CharClass) -> (r: bool)
    ensures
        r == in_class(c, *cls),
{
    match cls {
        CharClass::Whitespace => is_whitespace(c),
        CharClass::Is(d) => c == *d,
        CharClass::Not(d) => c != *d,
    }
}

/// The characters of `s`, in order.
pub fn chars_of(s: &str) -> (v: Vec<char>)
    ensures
        v@ == s@,
{
    let mut v: Vec<char> = Vec::new();
    for c in it: s.chars()
        invariant
            it.seq() == s@,
            v@ == it.seq().take(it.index()),
    {
        v.push(c);
        assert(v@ =~= it.seq().take(it.index() + 1));
    }
    assert(v@ =~= s@);
    v
}

/// End of the run of `cls` characters that starts at `a` in `v[a..b]`.
pub fn lead_end(v: &Vec<char>, a: usize, b: usize, cls: &CharClass) -> (j: usize)
    requires
        a <= b <= v@.len(),
    ensures
        a <= j <= b,
        j - a == lead_len(v@.subrange(a as int, b as int), *cls),
{
    let mut j = a;
    while j < b && in_class_exec(v[j], cls)
        invariant
            a <= j <= b <= v@.len(),
            forall|k: int| a <= k < j ==> in_class(#[trigger] v@[k], *cls),
        decreases b - j,
    {
        j = j + 1;
    }
    proof {
        let s = v@.subrange(a as int, b as int);
        assert forall|k: int| 0 <= k < j - a implies in_class(#[trigger] s[k], *cls) by {
            assert(s[k] == v@[a + k]);
        }
        lemma_lead_len_is(s, *cls, j - a);
    }
    j
}

/// Start of the run of `cls` characters that ends at `b` in `v[a..b]`.
pub fn trail_start(v: &Vec<char>, a: usize, b: usize, cls: &CharClass) -> (j: usize)
    requires
        a <= b <= v@.len(),
    ensures
        a <= j <= b,
        b - j == trail_len(v@.subrange(a as int, b as int), *cls),
{
    let mut j = b;
    while j > a && in_class_exec(v[j - 1], cls)
        invariant
            a <= j <= b <= v@.len(),
            forall|k: int| j <= k < b ==> in_class(#[trigger] v@[k], *cls),
        decreases j - a,
    {
        j = j - 1;
    }
    proof {
        let s = v@.subrange(a as int, b as int);
        assert forall|k: int| s.len() - (b - j) <= k < s.len() implies in_class(
            #[trigger] s[k],
            *cls,
        ) by {
            assert(s[k] == v@[a + k]);
        }
        if j > a {
            assert(s[s.len() - (b - j) - 1] == v@[j - 1]);
        }
        lemma_trail_len_is(s, *cls, b - j);
    }
    j
}

/// The bounds of `trim(v[a..b])` inside `v`.
pub fn trim_range(v: &Vec<char>, a: usize, b: usize) -> (r: (usize, usize))
    requires
        a <= b <= v@.len(),
    ensures
        a <= r.0 <= r.1 <= b,
        v@.subrange(r.0 as int, r.1 as int) == trim(v@.subrange(a as int, b as int)),
{
    let x = lead_end(v, a, b, &CharClass::Whitespace);
    let y = trail_start(v, x, b, &CharClass::Whitespace);
    proof {
        let s = v@.subrange(a as int, b as int);
        let t = s.skip(lead_len(s, CharClass::Whitespace) as int);
        assert(t =~= v@.subrange(x as int, b as int));
        assert(t.take(t.len() - trail_len(t, CharClass::Whitespace)) =~= v@.subrange(
            x as int,
            y as int,
        ));
    }
    (x, y)
}

/// Whether `v[a..b]` starts with `p`.
pub fn has_prefix(v: &Vec<char>, a: usize, b: usize, p: &Vec<char>) -> (r: bool)
    requires
        a <= b <= v@.len(),
    ensures
        r == starts_with(v@.subrange(a as int, b as int), p@),
{
    if b - a < p.len() {
        return false;
    }
    let mut i: usize = 0;
    while i < p.len()
        invariant
            i <= p@.len() <= b - a,
            a <= b <= v@.len(),
            forall|k: int| 0 <= k < i ==> v@[a + k] == p@[k],
        decreases p@.len() - i,
    {
        if v[a + i] != p[i] {
            proof {
                let s = v@.subrange(a as int, b as int);
                assert(s.take(p@.len() as int)[i as int] != p@[i as int]);
            }
            return false;
        }
        i = i + 1;
    }
    proof {
        let s = v@.subrange(a as int, b as int);
        assert(s.take(p@.len() as int) =~= p@);
    }
    true
}

} // verus!
