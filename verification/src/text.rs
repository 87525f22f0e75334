//! Character classes and text operations on the `Seq<char>` view of strings.

use vstd::prelude::*;

verus! {

pub open spec fn is_ascii_digit(c: char) -> bool {
    '0' <= c && c <= '9'
}

pub open spec fn is_ascii_uppercase(c: char) -> bool {
    'A' <= c && c <= 'Z'
}

pub open spec fn is_ascii_lowercase(c: char) -> bool {
    'a' <= c && c <= 'z'
}

pub open spec fn is_ascii_alphanumeric(c: char) -> bool {
    is_ascii_digit(c) || is_ascii_uppercase(c) || is_ascii_lowercase(c)
}

pub open spec fn is_ascii_hexdigit(c: char) -> bool {
    is_ascii_digit(c) || ('a' <= c && c <= 'f') || ('A' <= c && c <= 'F')
}

/// The Unicode `White_Space` property, which `char::is_whitespace` tests and
/// `str::trim` strips.
pub open spec fn is_whitespace(c: char) -> bool {
    ||| ('\u{9}' <= c && c <= '\u{d}')
    ||| c == ' '
    ||| c == '\u{85}'
    ||| c == '\u{a0}'
    ||| c == '\u{1680}'
    ||| ('\u{2000}' <= c && c <= '\u{200a}')
    ||| c == '\u{2028}'
    ||| c == '\u{2029}'
    ||| c == '\u{202f}'
    ||| c == '\u{205f}'
    ||| c == '\u{3000}'
}

pub fn ascii_digit(c: char) -> (b: bool)
    ensures
        b == is_ascii_digit(c),
{
    c >= '0' && c <= '9'
}

pub fn ascii_alphanumeric(c: char) -> (b: bool)
    ensures
        b == is_ascii_alphanumeric(c),
{
    (c >= '0' && c <= '9') || (c >= 'A' && c <= 'Z') || (c >= 'a' && c <= 'z')
}

pub fn ascii_hexdigit(c: char) -> (b: bool)
    ensures
        b == is_ascii_hexdigit(c),
{
    (c >= '0' && c <= '9') || (c >= 'a' && c <= 'f') || (c >= 'A' && c <= 'F')
}

pub fn whitespace(c: char) -> (b: bool)
    ensures
        b == is_whitespace(c),
{
    (c >= '\u{9}' && c <= '\u{d}') || c == ' ' || c == '\u{85}' || c == '\u{a0}' || c
        == '\u{1680}' || (c >= '\u{2000}' && c <= '\u{200a}') || c == '\u{2028}' || c
        == '\u{2029}' || c == '\u{202f}' || c == '\u{205f}' || c == '\u{3000}'
}

/// The characters of `s`, in order.
pub fn chars_of(s: &str) -> (out: Vec<char>)
    ensures
        out@ == s@,
{
    let mut out: Vec<char> = Vec::new();
    for c in it: s.chars()
        invariant
            out@ == it.seq().take(it.index() as int),
    {
        out.push(c);
    }
    out
}


/// A `String` holding exactly `chars`.
#[verifier::external_body]
pub(crate) fn string_of(chars: &Vec<char>) -> (s: String)
    ensures
        s@ == chars@,
{
    chars.iter().collect()
}

/// Whether two texts hold the same characters.
pub fn same_text(a: &Vec<char>, b: &Vec<char>) -> (same: bool)
    ensures
        same == (a@ == b@),
{
    if a.len() != b.len() {
        return false;
    }
    let mut i: usize = 0;
    while i < a.len()
        invariant
            a@.len() == b@.len(),
            i <= a@.len(),
            forall|j: int| 0 <= j < i ==> a@[j] == b@[j],
        decreases a@.len() - i,
    {
        if a[i] != b[i] {
            return false;
        }
        i = i + 1;
    }
    assert(a@ =~= b@);
    true
}

/// Whether `s` begins with `prefix`.
pub open spec fn starts_with(s: Seq<char>, prefix: Seq<char>) -> bool {
    prefix.len() <= s.len() && s.take(prefix.len() as int) == prefix
}

pub fn has_prefix(s: &Vec<char>, prefix: &Vec<char>) -> (b: bool)
    ensures
        b == starts_with(s@, prefix@),
{
    if prefix.len() > s.len() {
        return false;
    }
    let mut i: usize = 0;
    while i < prefix.len()
        invariant
            prefix@.len() <= s@.len(),
            i <= prefix@.len(),
            forall|j: int| 0 <= j < i ==> s@[j] == prefix@[j],
        decreases prefix@.len() - i,
    {
        if s[i] != prefix[i] {
            assert(s@.take(prefix@.len() as int)[i as int] != prefix@[i as int]);
            return false;
        }
        i = i + 1;
    }
    assert(s@.take(prefix@.len() as int) =~= prefix@);
    true
}

/// Whether some character of `s` is whitespace.
pub open spec fn has_whitespace(s: Seq<char>) -> bool {
    exists|i: int| 0 <= i < s.len() && is_whitespace(#[trigger] s[i])
}

pub fn contains_whitespace(s: &Vec<char>) -> (b: bool)
    ensures
        b == has_whitespace(s@),
{
    let mut i: usize = 0;
    while i < s.len()
        invariant
            i <= s@.len(),
            forall|j: int| 0 <= j < i ==> !is_whitespace(#[trigger] s@[j]),
        decreases s@.len() - i,
    {
        if whitespace(s[i]) {
            assert(is_whitespace(s@[i as int]));
            return true;
        }
        i = i + 1;
    }
    false
}

/// `s` with leading whitespace removed.
pub open spec fn trim_start(s: Seq<char>) -> Seq<char>
    decreases s.len(),
{
    if s.len() > 0 && is_whitespace(s[0]) {
        trim_start(s.drop_first())
    } else {
        s
    }
}

/// `s` with trailing whitespace removed.
pub open spec fn trim_end(s: Seq<char>) -> Seq<char>
    decreases s.len(),
{
    if s.len() > 0 && is_whitespace(s.last()) {
        trim_end(s.drop_last())
    } else {
        s
    }
}

/// `s` with leading and trailing whitespace removed, as `str::trim` does.
pub open spec fn trim(s: Seq<char>) -> Seq<char> {
    trim_end(trim_start(s))
}

pub proof fn lemma_trim_start_skip(s: Seq<char>, i: int)
    requires
        0 <= i <= s.len(),
        forall|j: int| 0 <= j < i ==> is_whitespace(#[trigger] s[j]),
    ensures
        trim_start(s) == trim_start(s.skip(i)),
    decreases i,
{
    if i > 0 {
        assert(s.skip(1) == s.drop_first());
        lemma_trim_start_skip(s.drop_first(), i - 1);
        assert(s.drop_first().skip(i - 1) =~= s.skip(i));
    } else {
        assert(s.skip(0) =~= s);
    }
}

proof fn lemma_trim_end_take(s: Seq<char>, k: int)
    requires
        0 <= k <= s.len(),
        forall|j: int| k <= j < s.len() ==> is_whitespace(#[trigger] s[j]),
    ensures
        trim_end(s) == trim_end(s.take(k)),
    decreases s.len() - k,
{
    if k < s.len() {
        assert(s.drop_last() =~= s.take(s.len() - 1));
        lemma_trim_end_take(s.drop_last(), k);
        assert(s.drop_last().take(k) =~= s.take(k));
    } else {
        assert(s.take(k) =~= s);
    }
}

/// `s` with leading and trailing whitespace removed.
pub fn trimmed(s: &Vec<char>) -> (out: Vec<char>)
    ensures
        out@ == trim(s@),
{
    let n = s.len();
    let mut start: usize = 0;
    while start < n && whitespace(s[start])
        invariant
            n == s@.len(),
            start <= n,
            forall|j: int| 0 <= j < start ==> is_whitespace(#[trigger] s@[j]),
        decreases n - start,
    {
        start = start + 1;
    }
    let ghost rest = s@.skip(start as int);
    proof {
        lemma_trim_start_skip(s@, start as int);
        assert(trim_start(rest) == rest);
    }
    let mut end: usize = n;
    while end > start && whitespace(s[end - 1])
        invariant
            n == s@.len(),
            start <= end <= n,
            forall|j: int| end <= j < n ==> is_whitespace(#[trigger] s@[j]),
        decreases end - start,
    {
        end = end - 1;
    }
    proof {
        assert forall|j: int| end - start <= j < rest.len() implies is_whitespace(#[trigger] rest[j]) by {
            assert(rest[j] == s@[start + j]);
        }
        lemma_trim_end_take(rest, end - start);
        let kept = rest.take(end - start);
        if kept.len() > 0 {
            assert(kept.last() == s@[end - 1]);
        }
        assert(trim_end(kept) == kept);
    }
    let mut out: Vec<char> = Vec::new();
    let mut i: usize = start;
    while i < end
        invariant
            n == s@.len(),
            start <= i <= end <= n,
            out@ == s@.subrange(start as int, i as int),
        decreases end - i,
    {
        out.push(s[i]);
        assert(s@.subrange(start as int, i + 1) =~= s@.subrange(start as int, i as int).push(s@[i as int]));
        i = i + 1;
    }
    assert(out@ =~= rest.take(end - start));
    out
}


/// The pieces of `s` between occurrences of `sep`, as `str::split` yields
/// them: one more piece than there are separators, empty pieces included.
pub open spec fn split(s: Seq<char>, sep: char) -> Seq<Seq<char>>
    decreases s.len(),
{
    if s.len() == 0 {
        seq![Seq::<char>::empty()]
    } else {
        let init = split(s.drop_last(), sep);
        if s.last() == sep {
            init.push(Seq::<char>::empty())
        } else {
            init.update(init.len() - 1, init.last().push(s.last()))
        }
    }
}

pub proof fn lemma_split_nonempty(s: Seq<char>, sep: char)
    ensures
        split(s, sep).len() >= 1,
    decreases s.len(),
{
    if s.len() > 0 {
        lemma_split_nonempty(s.drop_last(), sep);
    }
}

/// The texts held by a vector of character vectors.
pub open spec fn texts(parts: Seq<Vec<char>>) -> Seq<Seq<char>> {
    parts.map_values(|p: Vec<char>| p@)
}

/// The pieces of `s` between occurrences of `sep`.
pub fn split_chars(s: &Vec<char>, sep: char) -> (parts: Vec<Vec<char>>)
    ensures
        texts(parts@) == split(s@, sep),
{
    let mut parts: Vec<Vec<char>> = Vec::new();
    let mut current: Vec<char> = Vec::new();
    let mut i: usize = 0;
    assert(s@.take(0) =~= Seq::<char>::empty());
    while i < s.len()
        invariant
            i <= s@.len(),
            texts(parts@).push(current@) == split(s@.take(i as int), sep),
        decreases s@.len() - i,
    {
        let c = s[i];
        assert(s@.take(i + 1).drop_last() =~= s@.take(i as int));
        proof {
            lemma_split_nonempty(s@.take(i as int), sep);
        }
        if c == sep {
            let ghost old_parts = parts@;
            let finished = current;
            let ghost finished_view = finished@;
            parts.push(finished);
            current = Vec::new();
            assert(texts(parts@) =~= texts(old_parts).push(finished_view));
        } else {
            current.push(c);
            assert(texts(parts@).push(current@) =~= split(s@.take(i + 1), sep));
        }
        i = i + 1;
    }
    let ghost old_parts = parts@;
    let ghost last = current@;
    parts.push(current);
    assert(s@.take(s@.len() as int) =~= s@);
    assert(texts(parts@) =~= texts(old_parts).push(last));
    parts
}

/// The decimal value of a string of ASCII digits.
pub open spec fn digits_value(p: Seq<char>) -> nat
    decreases p.len(),
{
    if p.len() == 0 {
        0
    } else {
        digits_value(p.drop_last()) * 10 + ((p.last() as nat) - ('0' as nat)) as nat
    }
}

/// Every character of `p` is an ASCII digit.
pub open spec fn all_digits(p: Seq<char>) -> bool {
    forall|i: int| 0 <= i < p.len() ==> is_ascii_digit(#[trigger] p[i])
}

proof fn lemma_digits_value_grows(p: Seq<char>, k: int)
    requires
        0 <= k <= p.len(),
        all_digits(p),
    ensures
        digits_value(p.take(k)) <= digits_value(p),
    decreases p.len() - k,
{
    if k < p.len() {
        let q = p.take(k + 1);
        assert(q.drop_last() =~= p.take(k));
        assert(all_digits(p.drop_last()));
        assert(p.drop_last().take(k) =~= p.take(k));
        lemma_digits_value_grows(p.drop_last(), k);
        assert(p.take(p.len() - 1) =~= p.drop_last());
    } else {
        assert(p.take(k) =~= p);
    }
}

/// The value of the ASCII digits `p` when it is at most `limit`.
pub fn decimal_value(p: &Vec<char>, limit: u64) -> (r: Option<u64>)
    requires
        all_digits(p@),
    ensures
        r is Some <==> digits_value(p@) <= limit,
        r matches Some(v) ==> v == digits_value(p@),
{
    let mut acc: u64 = 0;
    let mut i: usize = 0;
    assert(p@.take(0) =~= Seq::<char>::empty());
    while i < p.len()
        invariant
            i <= p@.len(),
            all_digits(p@),
            acc == digits_value(p@.take(i as int)),
            acc <= limit,
        decreases p@.len() - i,
    {
        let c = p[i];
        assert(is_ascii_digit(p@[i as int]));
        assert(p@.take(i + 1).drop_last() =~= p@.take(i as int));
        let digit: u64 = (c as u64) - ('0' as u64);
        let next: u128 = (acc as u128) * 10 + (digit as u128);
        if next > limit as u128 {
            proof {
                lemma_digits_value_grows(p@, i + 1);
            }
            return None;
        }
        acc = next as u64;
        i = i + 1;
    }
    assert(p@.take(p@.len() as int) =~= p@);
    Some(acc)
}

/// `p` without its leading zeros, keeping at least one character: the way
/// an integer parsed from the digits `p` is written back in decimal.
pub open spec fn strip_zeros(p: Seq<char>) -> Seq<char>
    decreases p.len(),
{
    if p.len() > 1 && p[0] == '0' {
        strip_zeros(p.drop_first())
    } else {
        p
    }
}

proof fn lemma_strip_zeros_skip(p: Seq<char>, k: int)
    requires
        0 <= k < p.len(),
        forall|j: int| 0 <= j < k ==> p[j] == '0',
    ensures
        strip_zeros(p) == strip_zeros(p.skip(k)),
    decreases k,
{
    if k > 0 {
        lemma_strip_zeros_skip(p.drop_first(), k - 1);
        assert(p.drop_first().skip(k - 1) =~= p.skip(k));
    } else {
        assert(p.skip(0) =~= p);
    }
}

/// The digits `p` written without leading zeros.
pub fn without_leading_zeros(p: &Vec<char>) -> (out: Vec<char>)
    requires
        p@.len() > 0,
    ensures
        out@ == strip_zeros(p@),
{
    let n = p.len();
    let mut k: usize = 0;
    while k + 1 < n && p[k] == '0'
        invariant
            n == p@.len(),
            n > 0,
            k < n,
            forall|j: int| 0 <= j < k ==> p@[j] == '0',
        decreases n - k,
    {
        k = k + 1;
    }
    proof {
        lemma_strip_zeros_skip(p@, k as int);
        assert(strip_zeros(p@.skip(k as int)) == p@.skip(k as int));
    }
    let mut out: Vec<char> = Vec::new();
    let mut i: usize = k;
    while i < n
        invariant
            n == p@.len(),
            k <= i <= n,
            out@ == p@.subrange(k as int, i as int),
        decreases n - i,
    {
        out.push(p[i]);
        assert(p@.subrange(k as int, i + 1) =~= p@.subrange(k as int, i as int).push(p@[i as int]));
        i = i + 1;
    }
    assert(out@ =~= p@.skip(k as int));
    out
}

/// What `format!("{:?}", s)` writes for a string: `s` in double quotes with
/// its characters escaped as `char::escape_debug` escapes them.
pub uninterp spec fn debug_quoted(s: Seq<char>) -> Seq<char>;

/// Formats `s` with `Debug`. Claimed: the result is `debug_quoted` of the
/// characters of `s`, a function of those characters alone.
#[verifier::external_body]
pub(crate) fn debug_text(s: &str) -> (out: String)
    ensures
        out@ == debug_quoted(s@),
{
    format!("{s:?}")
}

/// What `String::from_utf8_lossy` decodes from `bytes`.
pub uninterp spec fn utf8_lossy(bytes: Seq<u8>) -> Seq<char>;

/// Decodes `bytes` with `String::from_utf8_lossy`. Claimed: the result is
/// `utf8_lossy(bytes)`, and, as that function's documentation states, valid
/// UTF-8 comes back unchanged. What replacement characters stand for invalid
/// sequences is left unsaid.
#[verifier::external_body]
pub(crate) fn lossy_text(bytes: &[u8]) -> (out: Vec<char>)
    ensures
        out@ == utf8_lossy(bytes@),
        vstd::utf8::valid_utf8(bytes@) ==> out@ == vstd::utf8::decode_utf8(bytes@),
{
    String::from_utf8_lossy(bytes).chars().collect()
}

/// Appends the characters `more` to `out`.
pub fn extend_chars(out: &mut Vec<char>, more: &Vec<char>)
    ensures
        final(out)@ == old(out)@ + more@,
{
    let mut i: usize = 0;
    while i < more.len()
        invariant
            i <= more@.len(),
            out@ == old(out)@ + more@.take(i as int),
        decreases more@.len() - i,
    {
        out.push(more[i]);
        assert(more@.take(i + 1) =~= more@.take(i as int).push(more@[i as int]));
        i = i + 1;
    }
    assert(more@.take(more@.len() as int) =~= more@);
}

/// Appends the characters of `s` to `out`.
pub fn extend_text(out: &mut Vec<char>, s: &str)
    ensures
        final(out)@ == old(out)@ + s@,
{
    let chars = chars_of(s);
    extend_chars(out, &chars);
}

/// Whether `p` is a non-empty run of ASCII digits.
pub fn is_digit_run(p: &Vec<char>) -> (b: bool)
    ensures
        b == (p@.len() > 0 && all_digits(p@)),
{
    if p.len() == 0 {
        return false;
    }
    let mut i: usize = 0;
    while i < p.len()
        invariant
            i <= p@.len(),
            forall|j: int| 0 <= j < i ==> is_ascii_digit(#[trigger] p@[j]),
        decreases p@.len() - i,
    {
        if !ascii_digit(p[i]) {
            return false;
        }
        i = i + 1;
    }
    true
}

/// The text of `s` before the first `sep`, or all of `s` when it holds none.
pub fn before_first(s: &Vec<char>, sep: char) -> (out: Vec<char>)
    ensures
        out@ == split(s@, sep)[0],
{
    let mut parts = split_chars(s, sep);
    proof {
        lemma_split_nonempty(s@, sep);
    }
    parts.remove(0)
}


/// `s` is the usual decimal writing of `n`: ASCII digits, no leading zero
/// unless `n` is 0.
pub open spec fn is_decimal_of(s: Seq<char>, n: nat) -> bool {
    &&& s.len() > 0
    &&& all_digits(s)
    &&& digits_value(s) == n
    &&& s.len() > 1 ==> s[0] != '0'
}

proof fn lemma_leading_zero_value(q: Seq<char>)
    ensures
        digits_value(seq!['0'] + q) == digits_value(q),
    decreases q.len(),
{
    if q.len() > 0 {
        lemma_leading_zero_value(q.drop_last());
        assert((seq!['0'] + q).drop_last() =~= seq!['0'] + q.drop_last());
        assert((seq!['0'] + q).last() == q.last());
    } else {
        assert((seq!['0'] + q).drop_last() =~= Seq::<char>::empty());
        assert((seq!['0'] + q).last() == '0');
        assert(digits_value(Seq::<char>::empty()) == 0);
    }
}

/// Removing leading zeros from a run of digits gives the decimal writing of
/// the same number.
pub proof fn law_strip_zeros_is_decimal(p: Seq<char>)
    requires
        p.len() > 0,
        all_digits(p),
    ensures
        is_decimal_of(strip_zeros(p), digits_value(p)),
    decreases p.len(),
{
    if p.len() > 1 && p[0] == '0' {
        assert(p =~= seq!['0'] + p.drop_first());
        lemma_leading_zero_value(p.drop_first());
        law_strip_zeros_is_decimal(p.drop_first());
    }
}


/// Hexadecimal digits of `n` in lowercase, without leading zeros.
pub open spec fn hex_text(n: nat) -> Seq<char>
    decreases n,
{
    let digit = seq!['0', '1', '2', '3', '4', '5', '6', '7', '8', '9', 'a', 'b', 'c', 'd', 'e', 'f'][(
    n % 16) as int];
    if n < 16 {
        seq![digit]
    } else {
        hex_text(n / 16) + seq![digit]
    }
}

/// `c` as `char::escape_default` writes it: `\t`, `\r`, `\n`, `\'`, `\"`
/// and `\\` for those characters, printable ASCII as itself, and every other
/// character as `\u{...}` with its code in lowercase hexadecimal.
pub open spec fn escape_default(c: char) -> Seq<char> {
    if c == '\t' {
        seq!['\\', 't']
    } else if c == '\r' {
        seq!['\\', 'r']
    } else if c == '\n' {
        seq!['\\', 'n']
    } else if c == '\'' || c == '"' || c == '\\' {
        seq!['\\', c]
    } else if ' ' <= c && c <= '~' {
        seq![c]
    } else {
        seq!['\\', 'u', '{'] + hex_text(c as nat) + seq!['}']
    }
}

/// Every character of `s` escaped with `escape_default`, in order.
pub open spec fn escape_all(s: Seq<char>) -> Seq<char>
    decreases s.len(),
{
    if s.len() == 0 {
        Seq::<char>::empty()
    } else {
        escape_all(s.drop_last()) + escape_default(s.last())
    }
}

fn push_hex(out: &mut Vec<char>, n: u32)
    ensures
        final(out)@ == old(out)@ + hex_text(n as nat),
    decreases n,
{
    if n >= 16 {
        push_hex(out, n / 16);
    }
    let digits = ['0', '1', '2', '3', '4', '5', '6', '7', '8', '9', 'a', 'b', 'c', 'd', 'e', 'f'];
    let d = digits[(n % 16) as usize];
    assert(d == seq!['0', '1', '2', '3', '4', '5', '6', '7', '8', '9', 'a', 'b', 'c', 'd', 'e', 'f'][(
    n % 16) as int]);
    out.push(d);
}

fn push_escaped(out: &mut Vec<char>, c: char)
    ensures
        final(out)@ == old(out)@ + escape_default(c),
{
    if c == '\t' {
        out.push('\\');
        out.push('t');
    } else if c == '\r' {
        out.push('\\');
        out.push('r');
    } else if c == '\n' {
        out.push('\\');
        out.push('n');
    } else if c == '\'' || c == '"' || c == '\\' {
        out.push('\\');
        out.push(c);
    } else if c >= ' ' && c <= '~' {
        out.push(c);
    } else {
        out.push('\\');
        out.push('u');
        out.push('{');
        let code = c as u32;
        push_hex(out, code);
        out.push('}');
    }
}

/// `s` with every character escaped as `char::escape_default` escapes it.
pub fn escaped(s: &Vec<char>) -> (out: Vec<char>)
    ensures
        out@ == escape_all(s@),
{
    let mut out: Vec<char> = Vec::new();
    let mut i: usize = 0;
    assert(s@.take(0) =~= Seq::<char>::empty());
    while i < s.len()
        invariant
            i <= s@.len(),
            out@ == escape_all(s@.take(i as int)),
        decreases s@.len() - i,
    {
        let c = s[i];
        push_escaped(&mut out, c);
        assert(s@.take(i + 1).drop_last() =~= s@.take(i as int));
        i = i + 1;
    }
    assert(s@.take(s@.len() as int) =~= s@);
    out
}

} // verus!
