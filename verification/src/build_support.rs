//! Release version rules for build scripts: calendar versions
//! (`YYYY.MM.DD.N`) and plain Cargo versions.

use vstd::prelude::*;

use crate::error::{outcome, Error, Failure, Result};
use crate::text::{
    all_digits, ascii_digit, before_first, chars_of, debug_quoted, debug_text, decimal_value,
    digits_value, extend_chars, is_decimal_of, law_strip_zeros_is_decimal, extend_text, is_ascii_digit, is_ascii_uppercase, is_digit_run,
    lemma_split_nonempty, split, split_chars, string_of, strip_zeros, texts, trim, trimmed, without_leading_zeros,
};

verus! {

/// How a product numbers its releases.
#[derive(Clone, Copy, Debug, PartialEq, Eq, Structural)]
pub enum VersionFormat {
    /// `YYYY.MM.DD.N`, mapped to the Cargo version `YYYY.M.D-N`.
    Calendar,
    /// `MAJOR.MINOR.PATCH`, with optional pre-release and build metadata.
    Cargo,
}

/// The version has four dot-separated digit runs of widths 4, 2, 2 and at
/// least 1.
pub open spec fn calendar_shaped(v: Seq<char>) -> bool {
    let parts = split(v, '.');
    &&& parts.len() == 4
    &&& parts[0].len() == 4
    &&& parts[1].len() == 2
    &&& parts[2].len() == 2
    &&& forall|i: int| 0 <= i < 4 ==> #[trigger] parts[i].len() > 0 && all_digits(parts[i])
}

/// Year, month, day and release number fit the integer types they are read
/// into (`u16`, `u8`, `u8`, `u32`).
pub open spec fn calendar_numbers_fit(v: Seq<char>) -> bool {
    let parts = split(v, '.');
    &&& digits_value(parts[0]) <= 0xffff
    &&& digits_value(parts[1]) <= 0xff
    &&& digits_value(parts[2]) <= 0xff
    &&& digits_value(parts[3]) <= 0xffff_ffff
}

/// The month is 1 to 12, the day 1 to 31 and the release number not 0.
pub open spec fn calendar_date_valid(v: Seq<char>) -> bool {
    let parts = split(v, '.');
    &&& 1 <= digits_value(parts[1]) <= 12
    &&& 1 <= digits_value(parts[2]) <= 31
    &&& digits_value(parts[3]) != 0
}

/// `YYYY.MM.DD.N` written as the Cargo version `Y.M.D-N`, each number in
/// decimal without leading zeros.
pub open spec fn cargo_form(v: Seq<char>) -> Seq<char> {
    let parts = split(v, '.');
    strip_zeros(parts[0]) + seq!['.'] + strip_zeros(parts[1]) + seq!['.'] + strip_zeros(parts[2])
        + seq!['-'] + strip_zeros(parts[3])
}

/// The message of a number that does not fit its integer type.
pub open spec fn number_overflow_message() -> Seq<char> {
    "invalid numeric version component: number too large to fit in target type"@
}

/// What `cargo_version` gives for the calendar version `v`.
pub open spec fn calendar_to_cargo(v: Seq<char>) -> core::result::Result<Seq<char>, Failure> {
    if !calendar_shaped(v) {
        Err(Failure::InvalidInput("calendar versions must use YYYY.MM.DD.N"@))
    } else if !calendar_numbers_fit(v) {
        Err(Failure::InvalidInput(number_overflow_message()))
    } else if !calendar_date_valid(v) {
        Err(
            Failure::InvalidInput(
                "calendar version contains an invalid date or release number"@,
            ),
        )
    } else {
        Ok(cargo_form(v))
    }
}

/// The part of a Cargo version before its build metadata (`+...`) and its
/// pre-release (`-...`).
pub open spec fn cargo_core(v: Seq<char>) -> Seq<char> {
    split(split(v, '+')[0], '-')[0]
}

/// The core of the version is three dot-separated runs of ASCII digits.
pub open spec fn cargo_shaped(v: Seq<char>) -> bool {
    let parts = split(cargo_core(v), '.');
    &&& parts.len() == 3
    &&& forall|i: int| 0 <= i < 3 ==> #[trigger] parts[i].len() > 0 && all_digits(parts[i])
}

/// What `validate_version` gives for `v` in `format`.
pub open spec fn version_check(v: Seq<char>, format: VersionFormat) -> core::result::Result<
    (),
    Failure,
> {
    match format {
        VersionFormat::Calendar => match calendar_to_cargo(v) {
            Ok(_) => Ok(()),
            Err(failure) => Err(failure),
        },
        VersionFormat::Cargo => if cargo_shaped(v) {
            Ok(())
        } else {
            Err(
                Failure::InvalidInput(
                    "version "@ + debug_quoted(v) + " is not a supported Cargo version"@,
                ),
            )
        },
    }
}

/// A build environment variable name: non-empty, of uppercase ASCII letters,
/// digits and underscores.
pub open spec fn environment_name_valid(name: Seq<char>) -> bool {
    &&& name.len() > 0
    &&& forall|i: int|
        0 <= i < name.len() ==> is_ascii_uppercase(#[trigger] name[i]) || is_ascii_digit(name[i])
            || name[i] == '_'
}

pub(crate) fn environment_name_chars(name: &Vec<char>) -> (b: bool)
    ensures
        b == environment_name_valid(name@),
{
    if name.len() == 0 {
        return false;
    }
    let mut i: usize = 0;
    while i < name.len()
        invariant
            i <= name@.len(),
            forall|j: int|
                0 <= j < i ==> is_ascii_uppercase(#[trigger] name@[j]) || is_ascii_digit(name@[j])
                    || name@[j] == '_',
        decreases name@.len() - i,
    {
        let c = name[i];
        if !((c >= 'A' && c <= 'Z') || ascii_digit(c) || c == '_') {
            return false;
        }
        i = i + 1;
    }
    true
}

fn invalid_input(text: &str) -> (e: Error)
    ensures
        e@ == Failure::InvalidInput(text@),
{
    Error::InvalidInput(text.to_owned())
}

/// Checks `version` against `format`.
pub fn validate_version(version: &str, format: VersionFormat) -> (r: Result<()>)
    ensures
        outcome(r) == version_check(version@, format),
{
    match format {
        VersionFormat::Calendar => {
            match cargo_version(version) {
                Ok(_) => Ok(()),
                Err(e) => Err(e),
            }
        },
        VersionFormat::Cargo => {
            if is_cargo_version(version) {
                Ok(())
            } else {
                let mut message: Vec<char> = Vec::new();
                extend_text(&mut message, "version ");
                let quoted = debug_text(version);
                extend_text(&mut message, quoted.as_str());
                extend_text(&mut message, " is not a supported Cargo version");
                Err(Error::InvalidInput(string_of(&message)))
            }
        },
    }
}

/// Maps the calendar version `YYYY.MM.DD.N` to the Cargo version `Y.M.D-N`.
pub fn cargo_version(public_version: &str) -> (r: Result<String>)
    ensures
        outcome(r) == calendar_to_cargo(public_version@),
{
    let chars = chars_of(public_version);
    let parts = split_chars(&chars, '.');
    let ghost v = public_version@;
    proof {
        assert(texts(parts@) == split(v, '.'));
    }
    if parts.len() != 4 {
        return Err(invalid_input("calendar versions must use YYYY.MM.DD.N"));
    }
    proof {
        assert forall|i: int| 0 <= i < 4 implies #[trigger] parts@[i]@ == split(v, '.')[i] by {
            assert(texts(parts@)[i] == parts@[i]@);
        }
    }
    if parts[0].len() != 4 || parts[1].len() != 2 || parts[2].len() != 2 || !is_digit_run(
        &parts[0],
    ) || !is_digit_run(&parts[1]) || !is_digit_run(&parts[2]) || !is_digit_run(&parts[3]) {
        proof {
            if calendar_shaped(v) {
                assert(split(v, '.')[0].len() > 0 && all_digits(split(v, '.')[0]));
                assert(split(v, '.')[1].len() > 0 && all_digits(split(v, '.')[1]));
                assert(split(v, '.')[2].len() > 0 && all_digits(split(v, '.')[2]));
                assert(split(v, '.')[3].len() > 0 && all_digits(split(v, '.')[3]));
            }
        }
        return Err(invalid_input("calendar versions must use YYYY.MM.DD.N"));
    }
    assert(calendar_shaped(v));
    let year = decimal_value(&parts[0], 0xffff);
    let month = decimal_value(&parts[1], 0xff);
    let day = decimal_value(&parts[2], 0xff);
    let release = decimal_value(&parts[3], 0xffff_ffff);
    match (year, month, day, release) {
        (Some(_), Some(month), Some(day), Some(release)) => {
            if month < 1 || month > 12 || day < 1 || day > 31 || release == 0 {
                return Err(
                    invalid_input("calendar version contains an invalid date or release number"),
                );
            }
            let mut out = without_leading_zeros(&parts[0]);
            out.push('.');
            let m = without_leading_zeros(&parts[1]);
            extend_chars(&mut out, &m);
            out.push('.');
            let d = without_leading_zeros(&parts[2]);
            extend_chars(&mut out, &d);
            out.push('-');
            let n = without_leading_zeros(&parts[3]);
            extend_chars(&mut out, &n);
            assert(out@ =~= cargo_form(v));
            Ok(string_of(&out))
        },
        _ => Err(
            invalid_input("invalid numeric version component: number too large to fit in target type"),
        ),
    }
}

/// Whether `version` is `MAJOR.MINOR.PATCH` of ASCII digits, optionally
/// followed by a pre-release and build metadata.
fn is_cargo_version(version: &str) -> (b: bool)
    ensures
        b == cargo_shaped(version@),
{
    let chars = chars_of(version);
    let without_build = before_first(&chars, '+');
    let core = before_first(&without_build, '-');
    let parts = split_chars(&core, '.');
    let ghost parts_view = split(cargo_core(version@), '.');
    proof {
        assert(texts(parts@) == parts_view);
    }
    if parts.len() != 3 {
        return false;
    }
    proof {
        assert forall|i: int| 0 <= i < 3 implies #[trigger] parts@[i]@ == parts_view[i] by {
            assert(texts(parts@)[i] == parts@[i]@);
        }
    }
    let ok = is_digit_run(&parts[0]) && is_digit_run(&parts[1]) && is_digit_run(&parts[2]);
    proof {
        if cargo_shaped(version@) {
            assert(parts_view[0].len() > 0 && all_digits(parts_view[0]));
            assert(parts_view[1].len() > 0 && all_digits(parts_view[1]));
            assert(parts_view[2].len() > 0 && all_digits(parts_view[2]));
        }
    }
    ok
}

/// Checks the name of the environment variable a build script exports the
/// version under.
pub fn check_environment_name(environment_name: &str) -> (r: Result<()>)
    ensures
        outcome(r) == if environment_name_valid(environment_name@) {
            Ok::<(), Failure>(())
        } else {
            Err(
                Failure::InvalidInput(
                    "build environment name must use uppercase ASCII, digits, and underscores"@,
                ),
            )
        },
{
    let name = chars_of(environment_name);
    if environment_name_chars(&name) {
        Ok(())
    } else {
        Err(invalid_input("build environment name must use uppercase ASCII, digits, and underscores"))
    }
}

/// The version held by the contents of a version file: the trimmed text,
/// when it is a valid version of `format`.
pub fn version_file_version(contents: &str, format: VersionFormat) -> (r: Result<String>)
    ensures
        outcome(r) == match version_check(trim(contents@), format) {
            Ok(_) => Ok::<Seq<char>, Failure>(trim(contents@)),
            Err(failure) => Err(failure),
        },
{
    let chars = chars_of(contents);
    let version = string_of(&trimmed(&chars));
    match validate_version(version.as_str(), format) {
        Ok(()) => Ok(version),
        Err(e) => Err(e),
    }
}

/// The two lines a build script prints: rerun when the version file changes,
/// and export the version under `environment_name`.
pub fn build_directives(path_display: &str, environment_name: &str, version: &str) -> (lines:
    Vec<String>)
    ensures
        lines@.len() == 2,
        lines@[0]@ == "cargo:rerun-if-changed="@ + path_display@,
        lines@[1]@ == "cargo:rustc-env="@ + environment_name@ + seq!['='] + version@,
{
    let mut rerun: Vec<char> = Vec::new();
    extend_text(&mut rerun, "cargo:rerun-if-changed=");
    extend_text(&mut rerun, path_display);
    let mut export: Vec<char> = Vec::new();
    extend_text(&mut export, "cargo:rustc-env=");
    extend_text(&mut export, environment_name);
    export.push('=');
    extend_text(&mut export, version);
    let mut lines: Vec<String> = Vec::new();
    lines.push(string_of(&rerun));
    lines.push(string_of(&export));
    lines
}


/// Each number of the Cargo form is the decimal writing of the matching
/// calendar component, so the mapping keeps the year, month, day and release.
pub proof fn law_cargo_form_keeps_numbers(v: Seq<char>)
    requires
        calendar_shaped(v),
    ensures
        forall|i: int|
            0 <= i < 4 ==> is_decimal_of(
                #[trigger] strip_zeros(split(v, '.')[i]),
                digits_value(split(v, '.')[i]),
            ),
{
    let parts = split(v, '.');
    assert forall|i: int| 0 <= i < 4 implies is_decimal_of(
        #[trigger] strip_zeros(split(v, '.')[i]),
        digits_value(split(v, '.')[i]),
    ) by {
        assert(parts[i].len() > 0 && all_digits(parts[i]));
        law_strip_zeros_is_decimal(parts[i]);
    }
}


/// A calendar version is valid exactly when it maps to a Cargo version.
pub proof fn law_calendar_validation_agrees_with_mapping(v: Seq<char>)
    ensures
        (version_check(v, VersionFormat::Calendar) is Ok) == (calendar_to_cargo(v) is Ok),
        calendar_to_cargo(v) matches Err(failure) ==> version_check(v, VersionFormat::Calendar)
            == Err::<(), Failure>(failure),
{
}


/// A non-empty run of ASCII digits.
pub open spec fn digit_run(x: Seq<char>) -> bool {
    &&& x.len() > 0
    &&& forall|i: int| 0 <= i < x.len() ==> '0' <= #[trigger] x[i] && x[i] <= '9'
}

/// Words joined by `sep`.
spec fn joined_words(words: Seq<Seq<char>>, sep: char) -> Seq<char>
    decreases words.len(),
{
    if words.len() == 0 {
        Seq::<char>::empty()
    } else if words.len() == 1 {
        words[0]
    } else {
        joined_words(words.drop_last(), sep) + seq![sep] + words.last()
    }
}

proof fn lemma_split_joins(s: Seq<char>, sep: char)
    ensures
        joined_words(split(s, sep), sep) == s,
    decreases s.len(),
{
    if s.len() > 0 {
        let init = split(s.drop_last(), sep);
        lemma_split_joins(s.drop_last(), sep);
        lemma_split_nonempty(s.drop_last(), sep);
        if s.last() == sep {
            let w = init.push(Seq::<char>::empty());
            assert(w.drop_last() =~= init);
            assert(joined_words(w, sep) =~= s);
        } else {
            let w = init.update(init.len() - 1, init.last().push(s.last()));
            if init.len() == 1 {
                assert(joined_words(w, sep) =~= s);
            } else {
                assert(w.drop_last() =~= init.drop_last());
                assert(joined_words(w, sep) == joined_words(init.drop_last(), sep) + seq![sep]
                    + init.last().push(s.last()));
                assert(joined_words(init, sep) == joined_words(init.drop_last(), sep) + seq![sep]
                    + init.last());
                assert(split(s, sep) == w);
                assert(s =~= s.drop_last().push(s.last()));
                assert(joined_words(w, sep) =~= joined_words(init, sep).push(s.last()));
                assert(joined_words(w, sep) =~= s);
            }
        }
    }
}

proof fn lemma_split_extend(s: Seq<char>, t: Seq<char>, sep: char)
    requires
        forall|i: int| 0 <= i < t.len() ==> #[trigger] t[i] != sep,
    ensures
        split(s + t, sep) == split(s, sep).update(
            split(s, sep).len() - 1,
            split(s, sep).last() + t,
        ),
    decreases t.len(),
{
    lemma_split_nonempty(s, sep);
    let w = split(s, sep);
    if t.len() == 0 {
        assert(s + t =~= s);
        assert(w.update(w.len() - 1, w.last() + t) =~= w);
    } else {
        let u = t.drop_last();
        lemma_split_extend(s, u, sep);
        assert((s + t).drop_last() =~= s + u);
        assert((s + t).last() == t.last());
        assert((w.last() + u).push(t.last()) =~= w.last() + t);
        assert(split(s + t, sep) =~= w.update(w.len() - 1, w.last() + t));
    }
}

proof fn lemma_split_separator(s: Seq<char>, sep: char)
    ensures
        split(s + seq![sep], sep) == split(s, sep).push(Seq::<char>::empty()),
{
    assert((s + seq![sep]).drop_last() =~= s);
}

proof fn lemma_split_three(a: Seq<char>, b: Seq<char>, c: Seq<char>)
    requires
        digit_run(a),
        digit_run(b),
        digit_run(c),
    ensures
        split(a + seq!['.'] + b + seq!['.'] + c, '.') == seq![a, b, c],
{
    let e = Seq::<char>::empty();
    assert(a =~= e + a);
    lemma_split_extend(e, a, '.');
    assert(split(a, '.') =~= seq![a]);
    lemma_split_separator(a, '.');
    let s2 = a + seq!['.'];
    lemma_split_extend(s2, b, '.');
    assert(split(s2 + b, '.') =~= seq![a, b]);
    lemma_split_separator(s2 + b, '.');
    let s4 = s2 + b + seq!['.'];
    lemma_split_extend(s4, c, '.');
    assert(split(s4 + c, '.') =~= seq![a, b, c]);
    assert(a + seq!['.'] + b + seq!['.'] + c =~= s4 + c);
}

/// A Cargo version is accepted exactly when its core, the text before any
/// `-` pre-release and `+` build metadata, is `MAJOR.MINOR.PATCH`: three
/// non-empty runs of ASCII digits joined by `.`, and nothing more.
pub proof fn law_cargo_core_is_three_numbers(v: Seq<char>)
    ensures
        (version_check(v, VersionFormat::Cargo) is Ok) <==> exists|
            a: Seq<char>,
            b: Seq<char>,
            c: Seq<char>,
        |
            digit_run(a) && digit_run(b) && digit_run(c) && cargo_core(v) == a + seq!['.'] + b
                + seq!['.'] + c,
{
    let core = cargo_core(v);
    let parts = split(core, '.');
    if cargo_shaped(v) {
        lemma_split_joins(core, '.');
        let p = parts;
        let p1 = p.drop_last();
        assert(p1.drop_last() =~= seq![p[0]]);
        assert(joined_words(p1.drop_last(), '.') == p[0]);
        assert(joined_words(p1, '.') == joined_words(p1.drop_last(), '.') + seq!['.'] + p[1]);
        assert(joined_words(p, '.') == joined_words(p1, '.') + seq!['.'] + p[2]);
        assert(joined_words(p, '.') =~= p[0] + seq!['.'] + p[1] + seq!['.'] + p[2]);
        assert forall|k: int| 0 <= k < 3 implies digit_run(#[trigger] p[k]) by {
            assert(p[k].len() > 0 && all_digits(p[k]));
            assert forall|i: int| 0 <= i < p[k].len() implies '0' <= #[trigger] p[k][i] && p[k][i]
                <= '9' by {
                assert(is_ascii_digit(p[k][i]));
            }
        }
        assert(digit_run(p[0]) && digit_run(p[1]) && digit_run(p[2]));
    }
    if exists|a: Seq<char>, b: Seq<char>, c: Seq<char>|
        digit_run(a) && digit_run(b) && digit_run(c) && core == a + seq!['.'] + b + seq!['.'] + c {
        let (a, b, c) = choose|a: Seq<char>, b: Seq<char>, c: Seq<char>|
            digit_run(a) && digit_run(b) && digit_run(c) && core == a + seq!['.'] + b + seq!['.']
                + c;
        lemma_split_three(a, b, c);
        assert(parts == seq![a, b, c]);
        assert forall|k: int| 0 <= k < 3 implies #[trigger] parts[k].len() > 0 && all_digits(
            parts[k],
        ) by {
            assert(digit_run(parts[k]));
        }
        assert(cargo_shaped(v));
    }
}

} // verus!
