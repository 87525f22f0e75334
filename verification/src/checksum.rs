//! SHA-256 verification of a downloaded installer against a published
//! `.sha256` checksum file.

use vstd::prelude::*;

use sha2::Digest;

use crate::error::{outcome, Error, Failure, Result};
use crate::text::{
    ascii_hexdigit, chars_of, is_ascii_hexdigit, is_whitespace, string_of, trim_start, whitespace,
};

verus! {

/// The SHA-256 digest of `data`.
pub uninterp spec fn sha256(data: Seq<u8>) -> Seq<u8>;

/// Hashes `data` with `sha2::Sha256::digest`. Claimed: the digest is
/// `sha256(data)`, a function of the bytes alone, and is 32 bytes long (the
/// output size of SHA-256).
#[verifier::external_body]
fn sha256_digest(data: &[u8]) -> (digest: Vec<u8>)
    ensures
        digest@ == sha256(data@),
        digest@.len() == 32,
{
    sha2::Sha256::digest(data).to_vec()
}

/// The lowercase hexadecimal digits.
pub open spec fn lower_hex_digits() -> Seq<char> {
    seq!['0', '1', '2', '3', '4', '5', '6', '7', '8', '9', 'a', 'b', 'c', 'd', 'e', 'f']
}

/// Each byte as two lowercase hexadecimal digits, high nibble first.
pub open spec fn hex_lower(bytes: Seq<u8>) -> Seq<char>
    decreases bytes.len(),
{
    if bytes.len() == 0 {
        Seq::<char>::empty()
    } else {
        let b = bytes.last();
        hex_lower(bytes.drop_last()) + seq![
            lower_hex_digits()[(b / 16) as int],
            lower_hex_digits()[(b % 16) as int],
        ]
    }
}

/// Encodes `bytes` with `hex::encode`. Claimed, as that crate's source shows
/// (each byte through its lowercase table, high nibble first): the text is
/// `hex_lower(bytes)`.
#[verifier::external_body]
fn hex_encode(bytes: &[u8]) -> (text: String)
    ensures
        text@ == hex_lower(bytes@),
{
    hex::encode(bytes)
}

/// The code of `c` with ASCII uppercase letters folded to lowercase.
pub open spec fn ascii_folded(c: char) -> int {
    if 'A' <= c && c <= 'Z' {
        (c as int) + 32
    } else {
        c as int
    }
}

/// `a` and `b` are equal up to ASCII case, as `str::eq_ignore_ascii_case`
/// compares them.
pub open spec fn equal_ignoring_ascii_case(a: Seq<char>, b: Seq<char>) -> bool {
    &&& a.len() == b.len()
    &&& forall|i: int| 0 <= i < a.len() ==> ascii_folded(#[trigger] a[i]) == ascii_folded(b[i])
}

fn same_ignoring_ascii_case(a: &Vec<char>, b: &Vec<char>) -> (same: bool)
    ensures
        same == equal_ignoring_ascii_case(a@, b@),
{
    if a.len() != b.len() {
        return false;
    }
    let mut i: usize = 0;
    while i < a.len()
        invariant
            a@.len() == b@.len(),
            i <= a@.len(),
            forall|j: int| 0 <= j < i ==> ascii_folded(#[trigger] a@[j]) == ascii_folded(b@[j]),
        decreases a@.len() - i,
    {
        let x = a[i];
        let y = b[i];
        if !same_letter_ignoring_case(x, y) {
            return false;
        }
        i = i + 1;
    }
    true
}

fn same_letter_ignoring_case(x: char, y: char) -> (same: bool)
    ensures
        same == (ascii_folded(x) == ascii_folded(y)),
{
    let x_upper = x >= 'A' && x <= 'Z';
    let y_upper = y >= 'A' && y <= 'Z';
    if x_upper == y_upper {
        x == y
    } else if x_upper {
        y >= 'a' && y <= 'z' && (x as u8) + 32 == (y as u8)
    } else {
        x >= 'a' && x <= 'z' && (y as u8) + 32 == (x as u8)
    }
}
/// How many characters the first word of `t` has: the characters before the
/// first whitespace.
pub open spec fn word_end(t: Seq<char>) -> nat
    decreases t.len(),
{
    if t.len() == 0 || is_whitespace(t[0]) {
        0
    } else {
        1 + word_end(t.drop_first())
    }
}

/// The first whitespace-separated word of `s`, as
/// `s.split_whitespace().next()` gives it.
pub open spec fn first_word(s: Seq<char>) -> Option<Seq<char>> {
    let t = trim_start(s);
    if t.len() == 0 {
        None
    } else {
        Some(t.take(word_end(t) as int))
    }
}

/// `w` is a SHA-256 digest in hexadecimal: 64 hexadecimal digits.
pub open spec fn is_hex_digest(w: Seq<char>) -> bool {
    &&& w.len() == 64
    &&& forall|i: int| 0 <= i < w.len() ==> is_ascii_hexdigit(#[trigger] w[i])
}

/// The digest a checksum file publishes, or the error for a malformed file.
pub open spec fn published_digest(contents: Seq<char>) -> core::result::Result<Seq<char>, Failure> {
    match first_word(contents) {
        Some(w) => if is_hex_digest(w) {
            Ok(w)
        } else {
            Err(Failure::Security("release checksum file is malformed"@))
        },
        None => Err(Failure::Security("release checksum file is malformed"@)),
    }
}

/// The artifact's SHA-256 digest matches the published hexadecimal digest,
/// ignoring case.
pub open spec fn digest_matches(expected: Seq<char>, artifact: Seq<u8>) -> bool {
    equal_ignoring_ascii_case(hex_lower(sha256(artifact)), expected)
}

/// What `verify_artifact` gives.
pub open spec fn artifact_verdict(expected: Seq<char>, artifact: Seq<u8>) -> core::result::Result<
    (),
    Failure,
> {
    if digest_matches(expected, artifact) {
        Ok(())
    } else {
        Err(Failure::Security("updater installer SHA-256 verification failed"@))
    }
}

/// What `verify_checksum` gives for a checksum file and an artifact.
pub open spec fn checksum_verdict(contents: Seq<char>, artifact: Seq<u8>) -> core::result::Result<
    (),
    Failure,
> {
    match published_digest(contents) {
        Ok(w) => artifact_verdict(w, artifact),
        Err(failure) => Err(failure),
    }
}

proof fn lemma_word_end(t: Seq<char>, k: int)
    requires
        0 <= k <= t.len(),
        forall|j: int| 0 <= j < k ==> !is_whitespace(#[trigger] t[j]),
        k == t.len() || is_whitespace(t[k]),
    ensures
        word_end(t) == k,
    decreases k,
{
    if k > 0 {
        lemma_word_end(t.drop_first(), k - 1);
    }
}

/// The digest published by a checksum file: its first whitespace-separated
/// word, which must be 64 hexadecimal digits.
pub fn expected_checksum(contents: &str) -> (r: Result<String>)
    ensures
        outcome(r) == published_digest(contents@),
{
    let chars = chars_of(contents);
    let n = chars.len();
    let mut start: usize = 0;
    while start < n && whitespace(chars[start])
        invariant
            n == chars@.len(),
            start <= n,
            forall|j: int| 0 <= j < start ==> is_whitespace(#[trigger] chars@[j]),
        decreases n - start,
    {
        start = start + 1;
    }
    let ghost t = chars@.skip(start as int);
    proof {
        crate::text::lemma_trim_start_skip(chars@, start as int);
        assert(trim_start(t) == t);
    }
    let mut word: Vec<char> = Vec::new();
    let mut i: usize = start;
    while i < n && !whitespace(chars[i])
        invariant
            n == chars@.len(),
            start <= i <= n,
            t == chars@.skip(start as int),
            word@ == t.take(i - start),
            forall|j: int| 0 <= j < i - start ==> !is_whitespace(#[trigger] t[j]),
        decreases n - i,
    {
        word.push(chars[i]);
        assert(t.take(i - start + 1) =~= t.take(i - start).push(t[i - start]));
        i = i + 1;
    }
    proof {
        if i < n {
            assert(t[i - start] == chars@[i as int]);
        }
        lemma_word_end(t, i - start);
    }
    if start == n {
        return Err(Error::Security("release checksum file is malformed".to_owned()));
    }
    proof {
        assert(word@ == first_word(contents@)->0);
    }
    if is_hex_digest_text(&word) {
        Ok(string_of(&word))
    } else {
        Err(Error::Security("release checksum file is malformed".to_owned()))
    }
}

fn is_hex_digest_text(word: &Vec<char>) -> (b: bool)
    ensures
        b == is_hex_digest(word@),
{
    if word.len() != 64 {
        return false;
    }
    let mut k: usize = 0;
    while k < word.len()
        invariant
            k <= word@.len(),
            forall|j: int| 0 <= j < k ==> is_ascii_hexdigit(#[trigger] word@[j]),
        decreases word@.len() - k,
    {
        if !ascii_hexdigit(word[k]) {
            return false;
        }
        k = k + 1;
    }
    true
}

/// Checks that `artifact` has the SHA-256 digest `expected`, written in
/// hexadecimal of either case. The artifact's digest is 32 bytes long.
pub fn verify_artifact(expected: &str, artifact: &[u8]) -> (r: Result<()>)
    ensures
        outcome(r) == artifact_verdict(expected@, artifact@),
        sha256(artifact@).len() == 32,
{
    let digest = sha256_digest(artifact);
    let actual = hex_encode(digest.as_slice());
    let actual_chars = chars_of(actual.as_str());
    let expected_chars = chars_of(expected);
    if same_ignoring_ascii_case(&actual_chars, &expected_chars) {
        Ok(())
    } else {
        Err(Error::Security("updater installer SHA-256 verification failed".to_owned()))
    }
}

/// Checks `artifact` against the checksum file `contents`.
pub fn verify_checksum(contents: &str, artifact: &[u8]) -> (r: Result<()>)
    ensures
        outcome(r) == checksum_verdict(contents@, artifact@),
{
    let expected = expected_checksum(contents)?;
    verify_artifact(expected.as_str(), artifact)
}


proof fn lemma_hex_lower_shape(bytes: Seq<u8>)
    ensures
        hex_lower(bytes).len() == 2 * bytes.len(),
        forall|i: int|
            0 <= i < hex_lower(bytes).len() ==> exists|k: int|
                0 <= k < 16 && #[trigger] hex_lower(bytes)[i] == lower_hex_digits()[k],
    decreases bytes.len(),
{
    if bytes.len() > 0 {
        let b = bytes.last();
        lemma_hex_lower_shape(bytes.drop_last());
        let h = hex_lower(bytes);
        let p = hex_lower(bytes.drop_last());
        assert forall|i: int| 0 <= i < h.len() implies exists|k: int|
            0 <= k < 16 && #[trigger] h[i] == lower_hex_digits()[k] by {
            if i < p.len() {
                assert(h[i] == p[i]);
            } else if i == p.len() {
                assert(h[i] == lower_hex_digits()[(b / 16) as int]);
            } else {
                assert(h[i] == lower_hex_digits()[(b % 16) as int]);
            }
        }
    }
}

proof fn lemma_hex_digit_table()
    ensures
        forall|k: int| 0 <= k < 16 ==> is_ascii_hexdigit(#[trigger] lower_hex_digits()[k]),
        forall|k: int|
            0 <= k < 16 ==> ascii_folded(#[trigger] lower_hex_digits()[k]) == (
            lower_hex_digits()[k] as int),
        forall|j: int, k: int|
            0 <= j < 16 && 0 <= k < 16 && #[trigger] lower_hex_digits()[j]
                == #[trigger] lower_hex_digits()[k] ==> j == k,
{
    let t = lower_hex_digits();
    assert(t.len() == 16);
    assert(t[0] == '0' && t[1] == '1' && t[2] == '2' && t[3] == '3' && t[4] == '4' && t[5] == '5'
        && t[6] == '6' && t[7] == '7' && t[8] == '8' && t[9] == '9' && t[10] == 'a' && t[11] == 'b'
        && t[12] == 'c' && t[13] == 'd' && t[14] == 'e' && t[15] == 'f');
}

proof fn lemma_hex_lower_injective(x: Seq<u8>, y: Seq<u8>)
    requires
        hex_lower(x) == hex_lower(y),
    ensures
        x == y,
    decreases x.len(),
{
    lemma_hex_lower_shape(x);
    lemma_hex_lower_shape(y);
    lemma_hex_digit_table();
    if x.len() > 0 {
        let hx = hex_lower(x);
        let n = hx.len();
        let a = x.last();
        let b = y.last();
        assert(hx[n - 2] == lower_hex_digits()[(a / 16) as int]);
        assert(hx[n - 1] == lower_hex_digits()[(a % 16) as int]);
        assert(hex_lower(y)[n - 2] == lower_hex_digits()[(b / 16) as int]);
        assert(hex_lower(y)[n - 1] == lower_hex_digits()[(b % 16) as int]);
        assert(a / 16 == b / 16 && a % 16 == b % 16);
        assert(a == b);
        assert(hex_lower(x.drop_last()) =~= hx.take(n - 2));
        assert(hex_lower(y.drop_last()) =~= hex_lower(y).take(n - 2));
        lemma_hex_lower_injective(x.drop_last(), y.drop_last());
        assert(x =~= x.drop_last().push(a));
        assert(y =~= y.drop_last().push(b));
    } else {
        assert(x =~= y);
    }
}

/// A checksum file accepts artifacts of one digest only: two artifacts it
/// both accepts have the same SHA-256 digest, so content that hashes
/// differently is rejected.
pub proof fn law_checksum_pins_digest(contents: Seq<char>, a: Seq<u8>, b: Seq<u8>)
    requires
        checksum_verdict(contents, a) is Ok,
        checksum_verdict(contents, b) is Ok,
    ensures
        sha256(a) == sha256(b),
{
    let w = published_digest(contents)->Ok_0;
    let ha = hex_lower(sha256(a));
    let hb = hex_lower(sha256(b));
    lemma_hex_lower_shape(sha256(a));
    lemma_hex_lower_shape(sha256(b));
    lemma_hex_digit_table();
    assert forall|i: int| 0 <= i < ha.len() implies ha[i] == hb[i] by {
        assert(ascii_folded(ha[i]) == ascii_folded(w[i]));
        assert(ascii_folded(hb[i]) == ascii_folded(w[i]));
        let j = choose|k: int| 0 <= k < 16 && ha[i] == lower_hex_digits()[k];
        let k = choose|k: int| 0 <= k < 16 && hb[i] == lower_hex_digits()[k];
        assert(ascii_folded(lower_hex_digits()[j]) == ascii_folded(lower_hex_digits()[k]));
    }
    assert(ha =~= hb);
    lemma_hex_lower_injective(sha256(a), sha256(b));
}

/// A checksum file made of an artifact's own digest, optionally followed by
/// whitespace and a file name, accepts that artifact. The digest's length is
/// what `verify_artifact` ensures of every artifact.
pub proof fn law_own_digest_accepted(artifact: Seq<u8>, rest: Seq<char>)
    requires
        sha256(artifact).len() == 32,
        rest.len() == 0 || is_whitespace(rest[0]),
    ensures
        checksum_verdict(hex_lower(sha256(artifact)) + rest, artifact) == Ok::<(), Failure>(()),
{
    let h = hex_lower(sha256(artifact));
    let s = h + rest;
    lemma_hex_lower_shape(sha256(artifact));
    lemma_hex_digit_table();
    assert forall|j: int| 0 <= j < 64 implies !is_whitespace(#[trigger] s[j]) && is_ascii_hexdigit(
        s[j],
    ) by {
        assert(s[j] == h[j]);
        let k = choose|k: int| 0 <= k < 16 && h[j] == lower_hex_digits()[k];
        assert(is_ascii_hexdigit(lower_hex_digits()[k]));
    }
    assert(trim_start(s) == s);
    if s.len() > 64 {
        assert(s[64] == rest[0]);
    }
    lemma_word_end(s, 64);
    assert(s.take(64) =~= h);
    assert(is_hex_digest(h));
}

} // verus!
