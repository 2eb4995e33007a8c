//! Text helpers: case folding, substring search, decimal rendering.

use vstd::prelude::*;

verus! {

/// What `str::to_lowercase` returns for a string, as a sequence of chars.
pub uninterp spec fn lowercase(s: Seq<char>) -> Seq<char>;

/// Every char of `s` is ASCII.
pub open spec fn is_ascii_text(s: Seq<char>) -> bool {
    forall|i: int| 0 <= i < s.len() ==> (#[trigger] s[i] as u32) < 128
}

/// The ASCII capital letters `A` to `Z` become `a` to `z`; every other char stays.
pub open spec fn ascii_lower(c: char) -> char {
    if 'A' <= c && c <= 'Z' {
        ((c as u32) + 32) as char
    } else {
        c
    }
}

/// The ASCII small letters `a` to `z` become `A` to `Z`; every other char stays.
pub open spec fn ascii_upper(c: char) -> char {
    if 'a' <= c && c <= 'z' {
        ((c as u32) - 32) as char
    } else {
        c
    }
}

/// `s` with its ASCII capitals made small.
pub open spec fn ascii_lowercase(s: Seq<char>) -> Seq<char> {
    s.map_values(|c: char| ascii_lower(c))
}

/// `s` with its ASCII small letters made capital.
pub open spec fn ascii_uppercase(s: Seq<char>) -> Seq<char> {
    s.map_values(|c: char| ascii_upper(c))
}

/// Calls `str::to_lowercase`. The contract ties the result to the input
/// through `lowercase` (the same text always folds to the same text), and, for
/// an all-ASCII text, states the mapping the documentation's Unicode
/// lowercase gives there: `A` to `Z` become `a` to `z` and nothing else
/// changes. The mapping of other chars is not stated.
#[verifier::external_body]
pub(crate) fn to_lowercase(s: &str) -> (r: String)
    ensures
        r@ == lowercase(s@),
        is_ascii_text(s@) ==> r@ == ascii_lowercase(s@),
{
    s.to_lowercase()
}

/// `needle` occurs in `hay` starting at position `i`.
pub open spec fn occurs_at(needle: Seq<char>, hay: Seq<char>, i: int) -> bool {
    &&& 0 <= i
    &&& i + needle.len() <= hay.len()
    &&& hay.subrange(i, i + needle.len()) == needle
}

/// `needle` is a contiguous part of `hay` (the empty text is part of every text).
pub open spec fn is_substring(needle: Seq<char>, hay: Seq<char>) -> bool {
    exists|i: int| #[trigger] occurs_at(needle, hay, i)
}

/// The chars of `s`, one by one.
fn chars_of(s: &str) -> (v: Vec<char>)
    ensures
        v@ == s@,
{
    let n = s.unicode_len();
    let mut v: Vec<char> = Vec::new();
    let mut i: usize = 0;
    while i < n
        invariant
            n == s@.len(),
            i <= n,
            v@ == s@.take(i as int),
        decreases n - i,
    {
        v.push(s.get_char(i));
        proof {
            assert(s@.take(i + 1) == s@.take(i as int).push(s@[i as int]));
        }
        i = i + 1;
    }
    proof {
        assert(s@.take(n as int) == s@);
    }
    v
}

/// Whether `needle` occurs at position `i` of `hay`; the caller makes sure the
/// needle fits there.
fn matches_at(hay: &Vec<char>, needle: &Vec<char>, i: usize) -> (r: bool)
    requires
        i + needle@.len() <= hay@.len(),
    ensures
        r == occurs_at(needle@, hay@, i as int),
{
    let n = needle.len();
    let hl = hay.len();
    let mut k: usize = 0;
    while k < n
        invariant
            n == needle@.len(),
            hl == hay@.len(),
            i + n <= hay@.len(),
            k <= n,
            forall|m: int| 0 <= m < k ==> hay@[i + m] == needle@[m],
        decreases n - k,
    {
        if hay[i + k] != needle[k] {
            proof {
                assert(hay@.subrange(i as int, i + n)[k as int] != needle@[k as int]);
            }
            return false;
        }
        k = k + 1;
    }
    proof {
        assert(hay@.subrange(i as int, i + n) =~= needle@);
    }
    true
}

/// Whether `needle` is part of `hay`, as `str::contains` answers it for a string pattern.
pub fn contains_text(hay: &str, needle: &str) -> (r: bool)
    ensures
        r == is_substring(needle@, hay@),
{
    let h = chars_of(hay);
    let nd = chars_of(needle);
    if nd.len() == 0 {
        proof {
            assert(hay@.subrange(0, 0) =~= needle@);
            assert(occurs_at(needle@, hay@, 0));
        }
        return true;
    }
    if nd.len() > h.len() {
        proof {
            assert forall|i: int| !#[trigger] occurs_at(needle@, hay@, i) by {}
        }
        return false;
    }
    let hl = h.len();
    let last = hl - nd.len();
    let mut i: usize = 0;
    while i <= last
        invariant
            hl == h@.len(),
            h@ == hay@,
            nd@ == needle@,
            1 <= nd@.len() <= h@.len(),
            last == h@.len() - nd@.len(),
            i <= last + 1,
            forall|j: int| 0 <= j < i ==> !#[trigger] occurs_at(needle@, hay@, j),
        decreases last + 1 - i,
    {
        if matches_at(&h, &nd, i) {
            return true;
        }
        i = i + 1;
    }
    proof {
        assert forall|j: int| !#[trigger] occurs_at(needle@, hay@, j) by {
            if 0 <= j < i {
            }
        }
    }
    false
}

/// Whether two texts hold the same chars.
pub fn same_text(a: &str, b: &str) -> (r: bool)
    ensures
        r == (a@ == b@),
{
    let x = chars_of(a);
    let y = chars_of(b);
    if x.len() != y.len() {
        return false;
    }
    let n = x.len();
    let mut k: usize = 0;
    while k < n
        invariant
            x@ == a@,
            y@ == b@,
            n == x@.len() == y@.len(),
            k <= n,
            forall|m: int| 0 <= m < k ==> x@[m] == y@[m],
        decreases n - k,
    {
        if x[k] != y[k] {
            return false;
        }
        k = k + 1;
    }
    proof {
        assert(x@ =~= y@);
    }
    true
}

/// The decimal digit `d` (0 to 9) as a char.
pub open spec fn digit_char(d: nat) -> char {
    seq!['0', '1', '2', '3', '4', '5', '6', '7', '8', '9'][d as int]
}

/// The decimal rendering of `n`, without leading zeros, as `u32`'s `Display` writes it.
pub open spec fn decimal(n: nat) -> Seq<char>
    decreases n,
{
    if n < 10 {
        seq![digit_char(n)]
    } else {
        decimal(n / 10) + seq![digit_char(n % 10)]
    }
}

/// The text of one decimal digit.
fn digit_text(d: u32) -> (r: String)
    requires
        d < 10,
    ensures
        r@ == seq![digit_char(d as nat)],
{
    let digits = "0123456789";
    proof {
        reveal_strlit("0123456789");
    }
    let one = digits.substring_char(d as usize, d as usize + 1);
    proof {
        assert(one@ =~= seq![digit_char(d as nat)]);
    }
    one.to_owned()
}

/// `n` in decimal.
pub fn decimal_text(n: u32) -> (r: String)
    ensures
        r@ == decimal(n as nat),
    decreases n,
{
    if n < 10 {
        digit_text(n)
    } else {
        let mut s = decimal_text(n / 10);
        let last = digit_text(n % 10);
        s.append(last.as_str());
        s
    }
}

/// `true` or `false`, as `bool`'s `Display` writes it.
pub open spec fn bool_text_spec(b: bool) -> Seq<char> {
    if b {
        "true"@
    } else {
        "false"@
    }
}

/// `b` as text.
pub fn bool_text(b: bool) -> (r: String)
    ensures
        r@ == bool_text_spec(b),
{
    if b {
        "true".to_owned()
    } else {
        "false".to_owned()
    }
}

} // verus!
