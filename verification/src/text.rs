//! Text as it comes off the wire: decoding and trimming.

use vstd::prelude::*;
use vstd::string::*;
use vstd::utf8::*;

use crate::error::Error;

verus! {

/// Whether `c` is white space in the sense of `char::is_whitespace`.
pub uninterp spec fn is_whitespace(c: char) -> bool;

/// `char::is_whitespace`: tells whether a character is white space. The
/// contract only gives the answer its name.
#[verifier::external_body]
fn char_is_whitespace(c: char) -> (white: bool)
    ensures
        white == is_whitespace(c),
{
    c.is_whitespace()
}

/// `String::from_utf8`: the text that `bytes` encode in UTF-8. It answers
/// with a text exactly where the bytes are valid UTF-8, and the text is then
/// the one they encode.
#[verifier::external_body]
fn text_from_utf8(bytes: Vec<u8>) -> (text: Option<String>)
    ensures
        text is Some <==> valid_utf8(bytes@),
        text matches Some(t) ==> t@ == decode_utf8(bytes@),
{
    match String::from_utf8(bytes) {
        Ok(text) => Some(text),
        Err(_) => None,
    }
}

/// `s` without the white space it begins with.
pub open spec fn trim_start(s: Seq<char>) -> Seq<char>
    decreases s.len(),
{
    if s.len() > 0 && is_whitespace(s.first()) {
        trim_start(s.drop_first())
    } else {
        s
    }
}

/// `s` without the white space it ends with.
pub open spec fn trim_end(s: Seq<char>) -> Seq<char>
    decreases s.len(),
{
    if s.len() > 0 && is_whitespace(s.last()) {
        trim_end(s.drop_last())
    } else {
        s
    }
}

/// `s` without the white space at either end.
pub open spec fn trimmed(s: Seq<char>) -> Seq<char> {
    trim_end(trim_start(s))
}

/// Every character of `s` from `from` up to `to` is white space.
pub open spec fn all_whitespace(s: Seq<char>, from: int, to: int) -> bool {
    forall|k: int| from <= k < to ==> is_whitespace(#[trigger] s[k])
}

proof fn lemma_trim_start(s: Seq<char>, i: int)
    requires
        0 <= i <= s.len(),
        all_whitespace(s, 0, i),
        i < s.len() ==> !is_whitespace(s[i]),
    ensures
        trim_start(s) == s.subrange(i, s.len() as int),
    decreases i,
{
    if i == 0 {
        assert(s.subrange(0, s.len() as int) =~= s);
    } else {
        let rest = s.drop_first();
        assert forall|k: int| 0 <= k < i - 1 implies is_whitespace(#[trigger] rest[k]) by {
            assert(rest[k] == s[k + 1]);
        }
        lemma_trim_start(rest, i - 1);
        assert(rest.subrange(i - 1, rest.len() as int) =~= s.subrange(i, s.len() as int));
    }
}

proof fn lemma_trim_end(s: Seq<char>, j: int)
    requires
        0 <= j <= s.len(),
        all_whitespace(s, j, s.len() as int),
        j > 0 ==> !is_whitespace(s[j - 1]),
    ensures
        trim_end(s) == s.subrange(0, j),
    decreases s.len() - j,
{
    if j == s.len() {
        assert(s.subrange(0, j) =~= s);
    } else {
        let rest = s.drop_last();
        assert forall|k: int| j <= k < rest.len() implies is_whitespace(#[trigger] rest[k]) by {
            assert(rest[k] == s[k]);
        }
        lemma_trim_end(rest, j);
        assert(rest.subrange(0, j) =~= s.subrange(0, j));
    }
}

/// What is left of `s` between `i` and `j`, where only white space lies
/// before `i` and after `j` and none borders the piece from inside, is
/// `trimmed(s)`.
pub proof fn lemma_trimmed_is_core(s: Seq<char>, i: int, j: int)
    requires
        0 <= i <= j <= s.len(),
        all_whitespace(s, 0, i),
        all_whitespace(s, j, s.len() as int),
        i < j ==> !is_whitespace(s[i]) && !is_whitespace(s[j - 1]),
        i == j ==> i == s.len(),
    ensures
        trimmed(s) == s.subrange(i, j),
{
    lemma_trim_start(s, i);
    let t = s.subrange(i, s.len() as int);
    assert forall|k: int| j - i <= k < t.len() implies is_whitespace(#[trigger] t[k]) by {
        assert(t[k] == s[k + i]);
    }
    lemma_trim_end(t, j - i);
    assert(t.subrange(0, j - i) =~= s.subrange(i, j));
}

proof fn lemma_trim_start_shape(s: Seq<char>) -> (i: int)
    ensures
        0 <= i <= s.len(),
        all_whitespace(s, 0, i),
        i < s.len() ==> !is_whitespace(s[i]),
        trim_start(s) == s.subrange(i, s.len() as int),
    decreases s.len(),
{
    if s.len() > 0 && is_whitespace(s.first()) {
        let rest = s.drop_first();
        let k = lemma_trim_start_shape(rest);
        assert forall|n: int| 0 <= n < k + 1 implies is_whitespace(#[trigger] s[n]) by {
            if n > 0 {
                assert(s[n] == rest[n - 1]);
            }
        }
        assert(k < rest.len() ==> s[k + 1] == rest[k]);
        assert(rest.subrange(k, rest.len() as int) =~= s.subrange(k + 1, s.len() as int));
        k + 1
    } else {
        assert(s.subrange(0, s.len() as int) =~= s);
        0
    }
}

proof fn lemma_trim_end_shape(s: Seq<char>) -> (j: int)
    ensures
        0 <= j <= s.len(),
        all_whitespace(s, j, s.len() as int),
        j > 0 ==> !is_whitespace(s[j - 1]),
        trim_end(s) == s.subrange(0, j),
    decreases s.len(),
{
    if s.len() > 0 && is_whitespace(s.last()) {
        let rest = s.drop_last();
        let k = lemma_trim_end_shape(rest);
        assert forall|n: int| k <= n < s.len() implies is_whitespace(#[trigger] s[n]) by {
            if n < rest.len() {
                assert(s[n] == rest[n]);
            }
        }
        assert(k > 0 ==> s[k - 1] == rest[k - 1]);
        assert(rest.subrange(0, k) =~= s.subrange(0, k));
        k
    } else {
        assert(s.subrange(0, s.len() as int) =~= s);
        s.len() as int
    }
}

/// `trimmed(s)` is the piece of `s` from `bounds.0` up to `bounds.1`: only
/// white space lies outside of it, and it neither begins nor ends with any.
pub proof fn lemma_trimmed_shape(s: Seq<char>) -> (bounds: (int, int))
    ensures
        0 <= bounds.0 <= bounds.1 <= s.len(),
        trimmed(s) == s.subrange(bounds.0, bounds.1),
        all_whitespace(s, 0, bounds.0),
        all_whitespace(s, bounds.1, s.len() as int),
        trimmed(s).len() > 0 ==> !is_whitespace(trimmed(s).first()) && !is_whitespace(
            trimmed(s).last(),
        ),
{
    let i = lemma_trim_start_shape(s);
    let t = s.subrange(i, s.len() as int);
    let k = lemma_trim_end_shape(t);
    let j = i + k;
    assert(t.subrange(0, k) =~= s.subrange(i, j));
    assert forall|n: int| j <= n < s.len() implies is_whitespace(#[trigger] s[n]) by {
        assert(s[n] == t[n - i]);
    }
    if k > 0 {
        assert(t[0] == s[i]);
        assert(t[k - 1] == s[j - 1]);
    }
    (i, j)
}

/// Trimming what is trimmed changes nothing.
pub proof fn lemma_trimmed_twice(s: Seq<char>)
    ensures
        trimmed(trimmed(s)) == trimmed(s),
{
    let t = trimmed(s);
    lemma_trimmed_shape(s);
    if t.len() > 0 {
        lemma_trimmed_is_core(t, 0, t.len() as int);
        assert(t.subrange(0, t.len() as int) =~= t);
    } else {
        lemma_trimmed_is_core(t, 0, 0);
        assert(t.subrange(0, 0) =~= t);
    }
}

/// The text without the white space at either end.
pub fn trim(s: &str) -> (text: String)
    ensures
        text@ == trimmed(s@),
{
    let n = s.unicode_len();
    let mut start: usize = n;
    let mut end: usize = n;
    let mut k: usize = 0;
    for c in it: s.chars()
        invariant
            it.seq() == s@,
            n == s@.len(),
            k == it.index(),
            start <= end <= n,
            start == n ==> end == n && all_whitespace(s@, 0, k as int),
            start < n ==> {
                &&& start < end <= k
                &&& all_whitespace(s@, 0, start as int)
                &&& all_whitespace(s@, end as int, k as int)
                &&& !is_whitespace(s@[start as int])
                &&& !is_whitespace(s@[end - 1])
            },
    {
        if !char_is_whitespace(c) {
            if start == n {
                start = k;
            }
            end = k + 1;
        }
        k += 1;
    }
    proof {
        lemma_trimmed_is_core(s@, start as int, end as int);
    }
    String::from_str(s.substring_char(start, end))
}

/// The text that a response body holds, for a body that is valid UTF-8.
pub open spec fn spec_decode(body: Seq<u8>) -> Result<Seq<char>, Error> {
    if valid_utf8(body) {
        Ok(trimmed(decode_utf8(body)))
    } else {
        Err(Error::DecodeError)
    }
}

/// Reads a response body as text: decoded as UTF-8, without the white space
/// at either end. A body that is not valid UTF-8 is a `DecodeError`.
pub fn decode(body: Vec<u8>) -> (text: Result<String, Error>)
    ensures
        match spec_decode(body@) {
            Ok(expected) => text matches Ok(t) && t@ == expected,
            Err(e) => text == Err::<String, Error>(e),
        },
{
    match text_from_utf8(body) {
        Some(raw) => Ok(trim(raw.as_str())),
        None => Err(Error::DecodeError),
    }
}

} // verus!
