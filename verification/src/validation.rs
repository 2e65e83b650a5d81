//! Shape validation for names and image URLs, plus the byte-scanning
//! primitives the URL check is built on.
//!
//! All checks are over the UTF-8 bytes of the input, so the ceilings count
//! bytes, not characters.

use vstd::prelude::*;
use vstd::string::StringSliceAdditionalSpecFns;
use crate::constants::MAX_NAME_SIZE;

verus! {

/// `p` is a prefix of `b`.
pub open spec fn starts_with(b: Seq<u8>, p: Seq<u8>) -> bool {
    p.len() <= b.len() && b.subrange(0, p.len() as int) == p
}

/// `p` occurs in `b` at position `i`.
pub open spec fn occurs_at(b: Seq<u8>, p: Seq<u8>, i: int) -> bool {
    0 <= i && i + p.len() <= b.len() && b.subrange(i, i + p.len() as int) == p
}

/// `p` occurs somewhere in `b`.
pub open spec fn contains_seq(b: Seq<u8>, p: Seq<u8>) -> bool {
    exists|i: int| occurs_at(b, p, i)
}

/// The byte `c` occurs somewhere in `b`.
pub open spec fn contains_byte(b: Seq<u8>, c: u8) -> bool {
    exists|i: int| 0 <= i < b.len() && b[i] == c
}

/// `p` occurs in `b` at exactly one position.
pub open spec fn occurs_once(b: Seq<u8>, p: Seq<u8>) -> bool {
    contains_seq(b, p) && forall|i: int, j: int|
        occurs_at(b, p, i) && occurs_at(b, p, j) ==> i == j
}

/// Whether `p` occurs in `b` at position `i`; `i` need not be in range.
fn match_at(b: &[u8], p: &[u8], i: usize) -> (r: bool)
    ensures
        r == occurs_at(b@, p@, i as int),
{
    if p.len() > b.len() || i > b.len() - p.len() {
        return false;
    }
    let mut j: usize = 0;
    while j < p.len()
        invariant
            i + p@.len() <= b@.len(),
            b@.len() <= usize::MAX,
            j <= p@.len(),
            forall|k: int| 0 <= k < j ==> b@[i + k] == p@[k],
        decreases p@.len() - j,
    {
        if b[i + j] != p[j] {
            proof {
                assert(b@.subrange(i as int, i + p@.len() as int)[j as int] == b@[i + j]);
            }
            return false;
        }
        j = j + 1;
    }
    proof {
        assert(b@.subrange(i as int, i + p@.len() as int) =~= p@);
    }
    true
}

/// The first position at or after `start` where `p` occurs in `b`, if any.
fn find_from(b: &[u8], p: &[u8], start: usize) -> (r: Option<usize>)
    requires
        p@.len() >= 1,
    ensures
        b@.len() <= usize::MAX,
        match r {
            Some(i) => start <= i && i + p@.len() <= b@.len() && occurs_at(b@, p@, i as int)
                && forall|j: int| start <= j < i ==> !occurs_at(b@, p@, j),
            None => forall|j: int| j >= start ==> !occurs_at(b@, p@, j),
        },
{
    if p.len() > b.len() {
        return None;
    }
    let last = b.len() - p.len();
    let mut i: usize = start;
    if i > last {
        return None;
    }
    while i <= last
        invariant
            1 <= p@.len() <= b@.len(),
            b@.len() <= usize::MAX,
            last == b@.len() - p@.len(),
            start <= i <= last + 1,
            forall|j: int| start <= j < i ==> !occurs_at(b@, p@, j),
        decreases last + 1 - i,
    {
        if match_at(b, p, i) {
            return Some(i);
        }
        i = i + 1;
    }
    None
}

/// Whether `p` occurs somewhere in `b`.
fn contains_pattern(b: &[u8], p: &[u8]) -> (r: bool)
    requires
        p@.len() >= 1,
    ensures
        r == contains_seq(b@, p@),
{
    find_from(b, p, 0).is_some()
}

/// Whether the byte `c` occurs somewhere in `b`.
fn contains_byte_exec(b: &[u8], c: u8) -> (r: bool)
    ensures
        r == contains_byte(b@, c),
{
    let mut i: usize = 0;
    while i < b.len()
        invariant
            i <= b@.len(),
            forall|j: int| 0 <= j < i ==> b@[j] != c,
        decreases b@.len() - i,
    {
        if b[i] == c {
            return true;
        }
        i = i + 1;
    }
    false
}

/// Whether `p` is a prefix of `b`.
fn starts_with_pattern(b: &[u8], p: &[u8]) -> (r: bool)
    ensures
        r == starts_with(b@, p@),
{
    match_at(b, p, 0)
}

/// The position of the unique occurrence of `p` in `b`, or `None` when `p`
/// occurs zero times or more than once.
fn unique_occurrence(b: &[u8], p: &[u8]) -> (r: Option<usize>)
    requires
        p@.len() >= 1,
    ensures
        match r {
            Some(i) => occurs_once(b@, p@) && occurs_at(b@, p@, i as int),
            None => !occurs_once(b@, p@),
        },
{
    match find_from(b, p, 0) {
        None => None,
        Some(i) => {
            match find_from(b, p, i + 1) {
                Some(_) => None,
                None => Some(i),
            }
        },
    }
}

/// A valid username is 3 to 50 bytes long.
pub open spec fn spec_is_valid_username(b: Seq<u8>) -> bool {
    3 <= b.len() <= MAX_NAME_SIZE
}

/// Whether `username` has an accepted length.
pub fn is_valid_username(username: &str) -> (r: bool)
    ensures
        r == spec_is_valid_username(username.spec_bytes()),
{
    let n = username.as_bytes().len();
    if n < 3 || n > MAX_NAME_SIZE {
        return false;
    }
    true
}

/// The scheme separator "://" as bytes.
pub open spec fn sep_seq() -> Seq<u8> {
    seq![58u8, 47u8, 47u8]
}

/// The prefix "http://" as bytes.
pub open spec fn http_seq() -> Seq<u8> {
    seq![104u8, 116u8, 116u8, 112u8, 58u8, 47u8, 47u8]
}

/// The prefix "https://" as bytes.
pub open spec fn https_seq() -> Seq<u8> {
    seq![104u8, 116u8, 116u8, 112u8, 115u8, 58u8, 47u8, 47u8]
}

/// The word "localhost" as bytes.
pub open spec fn localhost_seq() -> Seq<u8> {
    seq![108u8, 111u8, 99u8, 97u8, 108u8, 104u8, 111u8, 115u8, 116u8]
}

/// Everything after the (unique) "://" separator. Meaningful only when the
/// separator occurs in `b`.
pub open spec fn spec_after_protocol(b: Seq<u8>) -> Seq<u8> {
    let i = choose|i: int| occurs_at(b, sep_seq(), i);
    b.subrange(i + 3, b.len() as int)
}

/// The URL begins with "http://" or "https://", holds "://" exactly once,
/// and never ":///".
pub open spec fn spec_valid_scheme(b: Seq<u8>) -> bool {
    &&& (starts_with(b, http_seq()) || starts_with(b, https_seq()))
    &&& occurs_once(b, sep_seq())
    &&& !contains_seq(b, seq![58u8, 47u8, 47u8, 47u8])
}

/// Something besides a bare "/" follows the separator, no ".." anywhere,
/// and the part after the separator neither starts nor ends with a dot.
pub open spec fn spec_valid_path(b: Seq<u8>) -> bool {
    let after = spec_after_protocol(b);
    &&& after.len() > 0
    &&& after != seq![47u8]
    &&& !contains_seq(b, seq![46u8, 46u8])
    &&& after[0] != 46u8
    &&& after[after.len() - 1] != 46u8
}

/// A dotted host: at least one dot, and no empty dot-separated part, i.e.
/// no leading dot, no trailing dot, no "..".
pub open spec fn spec_plain_domain(b: Seq<u8>) -> bool {
    &&& b.len() > 0
    &&& contains_byte(b, 46u8)
    &&& b[0] != 46u8
    &&& b[b.len() - 1] != 46u8
    &&& !contains_seq(b, seq![46u8, 46u8])
}

/// A dotted host, the word "localhost", or a bracketed host; and no hyphen
/// leaning on a separator or a dot ("://-", ".-", "-.").
pub open spec fn spec_valid_domain(b: Seq<u8>) -> bool {
    &&& (spec_plain_domain(b) || contains_seq(b, localhost_seq()) || (contains_byte(b, 91u8)
        && contains_byte(b, 93u8)))
    &&& !contains_seq(b, seq![58u8, 47u8, 47u8, 45u8])
    &&& !contains_seq(b, seq![46u8, 45u8])
    &&& !contains_seq(b, seq![45u8, 46u8])
}

/// The URL shape an image reference must have: scheme, path and domain
/// checks together.
pub open spec fn spec_is_valid_url(b: Seq<u8>) -> bool {
    spec_valid_scheme(b) && spec_valid_path(b) && spec_valid_domain(b)
}

/// The bytes of "://".
fn sep_pattern() -> (r: Vec<u8>)
    ensures
        r@ == sep_seq(),
{
    let mut v: Vec<u8> = Vec::new();
    v.push(58);
    v.push(47);
    v.push(47);
    proof {
        assert(v@ =~= sep_seq());
    }
    v
}

/// The bytes of "http://".
fn http_pattern() -> (r: Vec<u8>)
    ensures
        r@ == http_seq(),
{
    let mut v: Vec<u8> = Vec::new();
    v.push(104);
    v.push(116);
    v.push(116);
    v.push(112);
    v.push(58);
    v.push(47);
    v.push(47);
    proof {
        assert(v@ =~= http_seq());
    }
    v
}

/// The bytes of "https://".
fn https_pattern() -> (r: Vec<u8>)
    ensures
        r@ == https_seq(),
{
    let mut v: Vec<u8> = Vec::new();
    v.push(104);
    v.push(116);
    v.push(116);
    v.push(112);
    v.push(115);
    v.push(58);
    v.push(47);
    v.push(47);
    proof {
        assert(v@ =~= https_seq());
    }
    v
}

/// The bytes of "localhost".
fn localhost_pattern() -> (r: Vec<u8>)
    ensures
        r@ == localhost_seq(),
{
    let mut v: Vec<u8> = Vec::new();
    v.push(108);
    v.push(111);
    v.push(99);
    v.push(97);
    v.push(108);
    v.push(104);
    v.push(111);
    v.push(115);
    v.push(116);
    proof {
        assert(v@ =~= localhost_seq());
    }
    v
}

/// The bytes of the two given values, as a pattern.
fn pair_pattern(a: u8, b: u8) -> (r: Vec<u8>)
    ensures
        r@ == seq![a, b],
{
    let mut v: Vec<u8> = Vec::new();
    v.push(a);
    v.push(b);
    proof {
        assert(v@ =~= seq![a, b]);
    }
    v
}

/// The bytes of ":///".
fn triple_slash_pattern() -> (r: Vec<u8>)
    ensures
        r@ == seq![58u8, 47u8, 47u8, 47u8],
{
    let mut v: Vec<u8> = Vec::new();
    v.push(58);
    v.push(47);
    v.push(47);
    v.push(47);
    proof {
        assert(v@ =~= seq![58u8, 47u8, 47u8, 47u8]);
    }
    v
}

/// The bytes of "://-".
fn sep_hyphen_pattern() -> (r: Vec<u8>)
    ensures
        r@ == seq![58u8, 47u8, 47u8, 45u8],
{
    let mut v: Vec<u8> = Vec::new();
    v.push(58);
    v.push(47);
    v.push(47);
    v.push(45);
    proof {
        assert(v@ =~= seq![58u8, 47u8, 47u8, 45u8]);
    }
    v
}

/// Whether `url` has the accepted scheme, path and domain shape.
pub fn is_valid_url(url: &str) -> (r: bool)
    ensures
        r == spec_is_valid_url(url.spec_bytes()),
{
    let b = url.as_bytes();
    let sep = sep_pattern();

    // "://" must occur exactly once.
    let sep_at = match unique_occurrence(b, sep.as_slice()) {
        Some(i) => i,
        None => {
            return false;
        },
    };
    proof {
        let bb = b@;
        let ci = choose|i: int| occurs_at(bb, sep_seq(), i);
        assert(occurs_at(bb, sep_seq(), sep_at as int));
        assert(occurs_at(bb, sep_seq(), ci));
        assert(ci == sep_at as int);
    }
    let ghost after: Seq<u8> = spec_after_protocol(b@);
    proof {
        assert(after == b@.subrange(sep_at + 3, b@.len() as int));
    }

    let http = http_pattern();
    let https = https_pattern();
    if !(starts_with_pattern(b, http.as_slice()) || starts_with_pattern(b, https.as_slice())) {
        return false;
    }
    let triple = triple_slash_pattern();
    if contains_pattern(b, triple.as_slice()) {
        return false;
    }

    // The part after the separator must hold more than nothing and more
    // than a bare "/".
    let n = b.len();
    let after_len = n - (sep_at + 3);
    proof {
        assert(after.len() == after_len);
    }
    if after_len == 0 {
        return false;
    }
    proof {
        assert(after[0] == b@[sep_at + 3]);
        assert(after[after.len() - 1] == b@[n - 1]);
    }
    if after_len == 1 && b[sep_at + 3] == 47 {
        proof {
            assert(after =~= seq![47u8]);
        }
        return false;
    }
    proof {
        assert(after != seq![47u8]);
    }

    // No empty segment: no "..", and no dot leaning on the separator or
    // the end.
    let dotdot = pair_pattern(46, 46);
    if contains_pattern(b, dotdot.as_slice()) {
        return false;
    }
    if b[sep_at + 3] == 46 {
        return false;
    }
    if b[n - 1] == 46 {
        return false;
    }

    // Domain: dotted host, "localhost", or a bracketed host.
    let localhost = localhost_pattern();
    let plain_domain = contains_byte_exec(b, 46) && b[0] != 46;
    let domain_ok = plain_domain || contains_pattern(b, localhost.as_slice()) || (
    contains_byte_exec(b, 91) && contains_byte_exec(b, 93));
    if !domain_ok {
        return false;
    }

    // No hyphen leaning on the separator or a dot.
    let sep_hyphen = sep_hyphen_pattern();
    let dot_hyphen = pair_pattern(46, 45);
    let hyphen_dot = pair_pattern(45, 46);
    if contains_pattern(b, sep_hyphen.as_slice()) {
        return false;
    }
    if contains_pattern(b, dot_hyphen.as_slice()) {
        return false;
    }
    if contains_pattern(b, hyphen_dot.as_slice()) {
        return false;
    }
    true
}

} // verus!
