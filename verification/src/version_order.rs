//! Ordering of dotted numeric release versions.

use vstd::prelude::*;

use core::cmp::Ordering;

use crate::text::{all_digits, chars_of, decimal_value, digits_value, split, split_chars, texts};

verus! {

/// A dot-separated component as `u64::from_str` reads it: an optional
/// leading `+` before the digits.
pub open spec fn component_digits(p: Seq<char>) -> Seq<char> {
    if p.len() > 0 && p[0] == '+' {
        p.drop_first()
    } else {
        p
    }
}

/// `u64::from_str` accepts the component.
pub open spec fn component_parses(p: Seq<char>) -> bool {
    let d = component_digits(p);
    d.len() > 0 && all_digits(d) && digits_value(d) <= u64::MAX
}

/// The version without one leading `v`.
pub open spec fn version_body(v: Seq<char>) -> Seq<char> {
    if v.len() > 0 && v[0] == 'v' {
        v.drop_first()
    } else {
        v
    }
}

/// The numbers of a version such as `2026.07.16.2` or `v1.2.3`, or `None`
/// when some component is not a `u64`.
pub open spec fn numeric_parts(v: Seq<char>) -> Option<Seq<nat>> {
    let parts = split(version_body(v), '.');
    if forall|i: int| 0 <= i < parts.len() ==> component_parses(#[trigger] parts[i]) {
        Some(parts.map_values(|p: Seq<char>| digits_value(component_digits(p))))
    } else {
        None
    }
}

/// Lexicographic comparison of number sequences, as `Vec<u64>` compares
/// them: `-1`, `0` or `1` for less, equal or greater.
pub open spec fn lex_code(a: Seq<nat>, b: Seq<nat>) -> int
    decreases a.len(),
{
    if a.len() == 0 {
        if b.len() == 0 {
            0
        } else {
            -1
        }
    } else if b.len() == 0 {
        1
    } else if a[0] < b[0] {
        -1
    } else if a[0] > b[0] {
        1
    } else {
        lex_code(a.drop_first(), b.drop_first())
    }
}

/// The ordering a comparison code stands for.
pub open spec fn code_ordering(code: int) -> Ordering {
    if code < 0 {
        Ordering::Less
    } else if code == 0 {
        Ordering::Equal
    } else {
        Ordering::Greater
    }
}

/// Lexicographic order of number sequences.
pub open spec fn lex_order(a: Seq<nat>, b: Seq<nat>) -> Ordering {
    code_ordering(lex_code(a, b))
}

/// What `compare_versions` gives for `local` and `peer`.
pub open spec fn version_order(local: Seq<char>, peer: Seq<char>) -> Option<Ordering> {
    match (numeric_parts(local), numeric_parts(peer)) {
        (Some(a), Some(b)) => Some(lex_order(a, b)),
        _ => None,
    }
}

/// The opposite order.
pub open spec fn opposite(o: Ordering) -> Ordering {
    match o {
        Ordering::Less => Ordering::Greater,
        Ordering::Equal => Ordering::Equal,
        Ordering::Greater => Ordering::Less,
    }
}

/// Compares two dotted numeric versions, ignoring one leading `v`; `None`
/// when either has a component that is not a `u64`.
pub fn compare_versions(local: &str, peer: &str) -> (r: Option<Ordering>)
    ensures
        r == version_order(local@, peer@),
{
    let local_parts = numeric_version_parts(local);
    let peer_parts = numeric_version_parts(peer);
    match (local_parts, peer_parts) {
        (Some(a), Some(b)) => Some(order_numbers(&a, &b)),
        _ => None,
    }
}

/// `values` holds the numbers `numbers`.
pub open spec fn holds_numbers(values: Seq<u64>, numbers: Seq<nat>) -> bool {
    &&& values.len() == numbers.len()
    &&& forall|i: int| 0 <= i < values.len() ==> values[i] == #[trigger] numbers[i]
}

fn order_numbers(a: &Vec<u64>, b: &Vec<u64>) -> (o: Ordering)
    ensures
        forall|x: Seq<nat>, y: Seq<nat>|
            holds_numbers(a@, x) && holds_numbers(b@, y) ==> o == #[trigger] lex_order(x, y),
{
    let i = first_difference(a, b);
    let o = if i == a.len() {
        if i == b.len() {
            Ordering::Equal
        } else {
            Ordering::Less
        }
    } else if i == b.len() {
        Ordering::Greater
    } else if a[i] < b[i] {
        Ordering::Less
    } else {
        Ordering::Greater
    };
    proof {
        assert forall|x: Seq<nat>, y: Seq<nat>|
            holds_numbers(a@, x) && holds_numbers(b@, y) implies o == #[trigger] lex_order(
            x,
            y,
        ) by {
            lemma_lex_code_at(a@, b@, x, y, i);
        }
    }
    o
}

/// The first position where `a` and `b` differ, or the length of the
/// shorter one when one is a prefix of the other.
fn first_difference(a: &Vec<u64>, b: &Vec<u64>) -> (i: usize)
    ensures
        i <= a@.len(),
        i <= b@.len(),
        forall|j: int| 0 <= j < i ==> a@[j] == b@[j],
        i < a@.len() && i < b@.len() ==> a@[i as int] != b@[i as int],
{
    let mut i: usize = 0;
    while i < a.len() && i < b.len() && a[i] == b[i]
        invariant
            i <= a@.len(),
            i <= b@.len(),
            forall|j: int| 0 <= j < i ==> a@[j] == b@[j],
        decreases a@.len() - i,
    {
        i = i + 1;
    }
    i
}

proof fn lemma_lex_code_at(a: Seq<u64>, b: Seq<u64>, x: Seq<nat>, y: Seq<nat>, k: usize)
    requires
        holds_numbers(a, x),
        holds_numbers(b, y),
        k <= a.len(),
        k <= b.len(),
        forall|j: int| 0 <= j < k ==> a[j] == b[j],
        k < a.len() && k < b.len() ==> a[k as int] != b[k as int],
    ensures
        lex_code(x, y) == if k == a.len() {
            if k == b.len() {
                0
            } else {
                -1
            }
        } else if k == b.len() {
            1
        } else if a[k as int] < b[k as int] {
            -1
        } else {
            1
        },
{
    assert forall|j: int| 0 <= j < k implies x[j] == y[j] by {
        assert(x[j] == a[j] && y[j] == b[j]);
    }
    lemma_lex_code_skip(x, y, k as int);
    if k < a.len() {
        assert(x.skip(k as int)[0] == x[k as int]);
    }
    if k < b.len() {
        assert(y.skip(k as int)[0] == y[k as int]);
    }
}

proof fn lemma_lex_code_skip(x: Seq<nat>, y: Seq<nat>, k: int)
    requires
        0 <= k <= x.len(),
        k <= y.len(),
        forall|j: int| 0 <= j < k ==> x[j] == y[j],
    ensures
        lex_code(x, y) == lex_code(x.skip(k), y.skip(k)),
    decreases k,
{
    if k > 0 {
        lemma_lex_code_skip(x.drop_first(), y.drop_first(), k - 1);
        assert(x.drop_first().skip(k - 1) =~= x.skip(k));
        assert(y.drop_first().skip(k - 1) =~= y.skip(k));
    } else {
        assert(x.skip(0) =~= x);
        assert(y.skip(0) =~= y);
    }
}

fn numeric_version_parts(version: &str) -> (r: Option<Vec<u64>>)
    ensures
        match numeric_parts(version@) {
            Some(numbers) => r matches Some(values) && holds_numbers(values@, numbers),
            None => r is None,
        },
{
    let chars = chars_of(version);
    let body = if chars.len() > 0 && chars[0] == 'v' {
        let mut rest = chars;
        rest.remove(0);
        rest
    } else {
        chars
    };
    assert(body@ == version_body(version@));
    let parts = split_chars(&body, '.');
    let ghost pieces = split(version_body(version@), '.');
    assert(texts(parts@) == pieces);
    let mut values: Vec<u64> = Vec::new();
    let mut i: usize = 0;
    while i < parts.len()
        invariant
            texts(parts@) == pieces,
            pieces == split(version_body(version@), '.'),
            i <= parts@.len(),
            values@.len() == i,
            forall|j: int| 0 <= j < i ==> component_parses(#[trigger] pieces[j]),
            forall|j: int|
                0 <= j < i ==> values@[j] == #[trigger] digits_value(component_digits(pieces[j])),
        decreases parts@.len() - i,
    {
        assert(texts(parts@)[i as int] == parts@[i as int]@);
        match component_value(&parts[i]) {
            Some(value) => {
                values.push(value);
            },
            None => {
                assert(!component_parses(pieces[i as int]));
                return None;
            },
        }
        i = i + 1;
    }
    proof {
        let numbers = pieces.map_values(|p: Seq<char>| digits_value(component_digits(p)));
        assert(holds_numbers(values@, numbers));
    }
    Some(values)
}

/// The value `u64::from_str` reads from a version component.
fn component_value(part: &Vec<char>) -> (r: Option<u64>)
    ensures
        r is Some <==> component_parses(part@),
        r matches Some(v) ==> v == digits_value(component_digits(part@)),
{
    let digits = if part.len() > 0 && part[0] == '+' {
        let mut rest = part.clone();
        rest.remove(0);
        rest
    } else {
        part.clone()
    };
    assert(digits@ == component_digits(part@));
    if digits.len() == 0 {
        return None;
    }
    let mut i: usize = 0;
    while i < digits.len()
        invariant
            digits@ == component_digits(part@),
            i <= digits@.len(),
            forall|j: int| 0 <= j < i ==> crate::text::is_ascii_digit(#[trigger] digits@[j]),
        decreases digits@.len() - i,
    {
        if !crate::text::ascii_digit(digits[i]) {
            assert(!crate::text::is_ascii_digit(digits@[i as int]));
            return None;
        }
        i = i + 1;
    }
    decimal_value(&digits, u64::MAX)
}


proof fn lemma_lex_code_antisymmetric(x: Seq<nat>, y: Seq<nat>)
    ensures
        lex_code(y, x) == -lex_code(x, y),
    decreases x.len(),
{
    if x.len() > 0 && y.len() > 0 && x[0] == y[0] {
        lemma_lex_code_antisymmetric(x.drop_first(), y.drop_first());
    }
}

proof fn lemma_lex_code_zero(x: Seq<nat>, y: Seq<nat>)
    ensures
        lex_code(x, y) == 0 <==> x == y,
    decreases x.len(),
{
    if x.len() > 0 && y.len() > 0 {
        lemma_lex_code_zero(x.drop_first(), y.drop_first());
        if x[0] == y[0] && x.drop_first() == y.drop_first() {
            assert(x =~= seq![x[0]] + x.drop_first());
            assert(y =~= seq![y[0]] + y.drop_first());
        }
        if x == y {
            assert(x.drop_first() == y.drop_first());
        }
    } else if x.len() == 0 && y.len() == 0 {
        assert(x =~= y);
    }
}

proof fn lemma_lex_code_transitive(x: Seq<nat>, y: Seq<nat>, z: Seq<nat>)
    requires
        lex_code(x, y) < 0,
        lex_code(y, z) < 0,
    ensures
        lex_code(x, z) < 0,
    decreases x.len(),
{
    if x.len() > 0 && y.len() > 0 && z.len() > 0 && x[0] == y[0] && y[0] == z[0] {
        lemma_lex_code_transitive(x.drop_first(), y.drop_first(), z.drop_first());
    }
}

/// Swapping the two versions reverses their order, and one of them fails to
/// parse exactly when it does either way round.
pub proof fn law_version_order_antisymmetric(local: Seq<char>, peer: Seq<char>)
    ensures
        version_order(peer, local) == match version_order(local, peer) {
            Some(o) => Some(opposite(o)),
            None => None,
        },
{
    if let (Some(a), Some(b)) = (numeric_parts(local), numeric_parts(peer)) {
        lemma_lex_code_antisymmetric(a, b);
    }
}

/// A version that parses is equal to itself.
pub proof fn law_version_order_reflexive(version: Seq<char>)
    requires
        numeric_parts(version) is Some,
    ensures
        version_order(version, version) == Some(Ordering::Equal),
{
    let a = numeric_parts(version)->0;
    lemma_lex_code_zero(a, a);
}

/// Two parsed versions are equal exactly when they denote the same numbers,
/// so leading zeros and a leading `v` do not matter.
pub proof fn law_version_order_equal_iff_same_numbers(local: Seq<char>, peer: Seq<char>)
    requires
        numeric_parts(local) is Some,
        numeric_parts(peer) is Some,
    ensures
        version_order(local, peer) == Some(Ordering::Equal) <==> numeric_parts(local)
            == numeric_parts(peer),
{
    let a = numeric_parts(local)->0;
    let b = numeric_parts(peer)->0;
    lemma_lex_code_zero(a, b);
}

/// Being older is transitive.
pub proof fn law_version_order_transitive(a: Seq<char>, b: Seq<char>, c: Seq<char>)
    requires
        version_order(a, b) == Some(Ordering::Less),
        version_order(b, c) == Some(Ordering::Less),
    ensures
        version_order(a, c) == Some(Ordering::Less),
{
    let x = numeric_parts(a)->0;
    let y = numeric_parts(b)->0;
    let z = numeric_parts(c)->0;
    lemma_lex_code_transitive(x, y, z);
}

/// One leading `v` is ignored.
pub proof fn law_leading_v_ignored(version: Seq<char>, peer: Seq<char>)
    requires
        version.len() == 0 || version[0] != 'v',
    ensures
        version_order(seq!['v'] + version, peer) == version_order(version, peer),
{
    assert((seq!['v'] + version).drop_first() =~= version);
}

} // verus!
