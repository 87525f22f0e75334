//! Rendering child programs back to the user: command lines quoted so that
//! they read back through a shell as the command that ran, and the wording
//! of a failed run.

use vstd::prelude::*;

use crate::text::{
    ascii_alphanumeric, chars_of, extend_text, is_ascii_alphanumeric, string_of, trim, trimmed,
};

verus! {

/// A character a shell reads as itself outside quotes, among those the
/// renderer leaves bare.
pub open spec fn shell_safe(c: char) -> bool {
    ||| is_ascii_alphanumeric(c)
    ||| c == '-'
    ||| c == '_'
    ||| c == '.'
    ||| c == '/'
    ||| c == ':'
    ||| c == '='
    ||| c == '@'
}

/// Every character of `v` is shell-safe.
pub open spec fn all_shell_safe(v: Seq<char>) -> bool {
    forall|i: int| 0 <= i < v.len() ==> shell_safe(#[trigger] v[i])
}

/// A character inside single quotes: `'` closes the quotes, adds an escaped
/// quote and reopens them.
pub open spec fn quoted_piece(c: char) -> Seq<char> {
    if c == '\'' {
        seq!['\'', '\\', '\'', '\'']
    } else {
        seq![c]
    }
}

/// The inside of the single-quoted form of `v`.
pub open spec fn escape_quotes(v: Seq<char>) -> Seq<char>
    decreases v.len(),
{
    if v.len() == 0 {
        Seq::<char>::empty()
    } else {
        quoted_piece(v[0]) + escape_quotes(v.drop_first())
    }
}

/// `v` as one shell word: bare when it is non-empty and shell-safe,
/// otherwise in single quotes.
pub open spec fn shell_quote(v: Seq<char>) -> Seq<char> {
    if v.len() > 0 && all_shell_safe(v) {
        v
    } else {
        seq!['\''] + escape_quotes(v) + seq!['\'']
    }
}

/// Words joined with single spaces.
pub open spec fn spaced(words: Seq<Seq<char>>) -> Seq<char>
    decreases words.len(),
{
    if words.len() == 0 {
        Seq::<char>::empty()
    } else if words.len() == 1 {
        words[0]
    } else {
        words[0] + seq![' '] + spaced(words.drop_first())
    }
}

/// The quoted forms of `words`.
pub open spec fn quoted_words(words: Seq<Seq<char>>) -> Seq<Seq<char>> {
    words.map_values(|word: Seq<char>| shell_quote(word))
}

/// The command line of `program` with `arguments`, each quoted, separated by
/// spaces.
pub open spec fn command_line(program: Seq<char>, arguments: Seq<Seq<char>>) -> Seq<char> {
    spaced(quoted_words(seq![program] + arguments))
}

proof fn lemma_spaced_push(words: Seq<Seq<char>>, last: Seq<char>)
    requires
        words.len() > 0,
    ensures
        spaced(words.push(last)) == spaced(words) + seq![' '] + last,
    decreases words.len(),
{
    if words.len() == 1 {
        assert(words.push(last).drop_first() =~= seq![last]);
        assert(spaced(seq![last]) == last);
        assert(words.push(last)[0] == words[0]);
    } else {
        assert(words.push(last)[0] == words[0]);
        lemma_spaced_push(words.drop_first(), last);
        assert(words.push(last).drop_first() =~= words.drop_first().push(last));
        assert(spaced(words.push(last)) =~= spaced(words) + seq![' '] + last);
    }
}

fn shell_safe_char(c: char) -> (b: bool)
    ensures
        b == shell_safe(c),
{
    ascii_alphanumeric(c) || c == '-' || c == '_' || c == '.' || c == '/' || c == ':' || c == '='
        || c == '@'
}

proof fn lemma_escape_quotes_skip(v: Seq<char>, i: int)
    requires
        0 <= i < v.len(),
    ensures
        escape_quotes(v.skip(i)) == quoted_piece(v[i]) + escape_quotes(v.skip(i + 1)),
{
    assert(v.skip(i).drop_first() =~= v.skip(i + 1));
    assert(v.skip(i)[0] == v[i]);
}

/// `value` as one shell word: unchanged when it is non-empty and made of
/// ASCII letters, digits and `-_./:=@`, otherwise single-quoted with each
/// `'` written as `'\''`.
pub fn quote(value: &str) -> (quoted: String)
    ensures
        quoted@ == shell_quote(value@),
{
    let chars = chars_of(value);
    let mut safe = chars.len() > 0;
    let mut i: usize = 0;
    while safe && i < chars.len()
        invariant
            i <= chars@.len(),
            safe ==> chars@.len() > 0,
            safe ==> forall|j: int| 0 <= j < i ==> shell_safe(#[trigger] chars@[j]),
            !safe ==> !(chars@.len() > 0 && all_shell_safe(chars@)),
        decreases chars@.len() - i,
    {
        let c = chars[i];
        if !shell_safe_char(c) {
            assert(!shell_safe(chars@[i as int]));
            safe = false;
        }
        i = i + 1;
    }
    if safe {
        return string_of(&chars);
    }
    let mut out: Vec<char> = Vec::new();
    out.push('\'');
    let mut k: usize = 0;
    assert(chars@.skip(0) =~= chars@);
    while k < chars.len()
        invariant
            k <= chars@.len(),
            seq!['\''] + escape_quotes(chars@) == out@ + escape_quotes(chars@.skip(k as int)),
        decreases chars@.len() - k,
    {
        let c = chars[k];
        proof {
            lemma_escape_quotes_skip(chars@, k as int);
        }
        let ghost before = out@;
        if c == '\'' {
            out.push('\'');
            out.push('\\');
            out.push('\'');
            out.push('\'');
        } else {
            out.push(c);
        }
        assert(out@ =~= before + quoted_piece(c));
        k = k + 1;
    }
    assert(chars@.skip(chars@.len() as int) =~= Seq::<char>::empty());
    out.push('\'');
    assert(out@ =~= seq!['\''] + escape_quotes(chars@) + seq!['\'']);
    string_of(&out)
}

/// The command line of `program` with `arguments`, each quoted as one
/// shell word, separated by spaces.
pub fn display(program: &str, arguments: &Vec<String>) -> (line: String)
    ensures
        line@ == command_line(program@, arguments@.map_values(|a: String| a@)),
{
    let ghost words = quoted_words(seq![program@] + arguments@.map_values(|a: String| a@));
    let first = quote(program);
    let mut out = chars_of(first.as_str());
    assert(words.take(1) =~= seq![words[0]]);
    let mut i: usize = 0;
    while i < arguments.len()
        invariant
            i <= arguments@.len(),
            words.len() == arguments@.len() + 1,
            words == quoted_words(seq![program@] + arguments@.map_values(|a: String| a@)),
            out@ == spaced(words.take(i + 1)),
        decreases arguments@.len() - i,
    {
        let word = quote(arguments[i].as_str());
        let ghost before = words.take(i + 1);
        out.push(' ');
        extend_text(&mut out, word.as_str());
        assert(words[i + 1] == shell_quote(arguments@[i as int]@));
        assert(words.take(i + 2) =~= before.push(words[i + 1]));
        proof {
            lemma_spaced_push(before, words[i + 1]);
        }
        i = i + 1;
    }
    assert(words.take(arguments@.len() + 1 as int) =~= words);
    string_of(&out)
}

/// A failed program's own explanation: its trimmed error output, or its
/// trimmed standard output when the error output is blank.
pub fn failure_message(stderr: &str, stdout: &str) -> (message: String)
    ensures
        message@ == if trim(stderr@).len() == 0 {
            trim(stdout@)
        } else {
            trim(stderr@)
        },
{
    let err = trimmed(&chars_of(stderr));
    if err.len() == 0 {
        string_of(&trimmed(&chars_of(stdout)))
    } else {
        string_of(&err)
    }
}

/// Why a child program did not produce a usable result.
pub enum FailureCause {
    /// The program is not installed, or not on `PATH`.
    NotFound,
    /// The program could not be started, for this reason.
    Spawn { reason: String },
    /// The program ran and failed, saying this.
    Failed { message: String },
}

/// The sentence for a failed run of `program`, whose rendered command line
/// is `command`.
pub fn describe_failure(program: &str, command: &str, cause: &FailureCause) -> (text: String)
    ensures
        text@ == match cause {
            FailureCause::NotFound => "required command `"@ + program@ + "` was not found on PATH"@,
            FailureCause::Spawn { reason } => "could not run "@ + command@ + ": "@ + reason@,
            FailureCause::Failed { message } => if message@.len() == 0 {
                "command failed: "@ + command@
            } else {
                "command failed: "@ + command@ + ": "@ + message@
            },
        },
{
    let mut text: Vec<char> = Vec::new();
    match cause {
        FailureCause::NotFound => {
            extend_text(&mut text, "required command `");
            extend_text(&mut text, program);
            extend_text(&mut text, "` was not found on PATH");
        },
        FailureCause::Spawn { reason } => {
            extend_text(&mut text, "could not run ");
            extend_text(&mut text, command);
            extend_text(&mut text, ": ");
            extend_text(&mut text, reason.as_str());
        },
        FailureCause::Failed { message } => {
            extend_text(&mut text, "command failed: ");
            extend_text(&mut text, command);
            if !message.as_str().is_empty() {
                extend_text(&mut text, ": ");
                extend_text(&mut text, message.as_str());
            }
        },
    }
    string_of(&text)
}

/// A character a POSIX shell reads as part of a word, with no special
/// meaning, outside quotes: a printable ASCII character other than the space
/// and the characters of the shell's own syntax: `| & ; < > ( ) $ ` \ " '`,
/// the pattern characters `* ? [ ]`, the comment `#`, the tilde `~`, the
/// braces `{ }` and `!`.
pub open spec fn shell_literal(c: char) -> bool {
    &&& '!' <= c && c <= '~'
    &&& c != '|' && c != '&' && c != ';' && c != '<' && c != '>' && c != '(' && c != ')'
    &&& c != '$' && c != '`' && c != '\\' && c != '"' && c != '\''
    &&& c != '*' && c != '?' && c != '[' && c != ']'
    &&& c != '#' && c != '~' && c != '{' && c != '}' && c != '!'
}

/// Adds `prefix` to the front of the first word of a reading.
pub open spec fn extend_first(prefix: Seq<char>, reading: Option<Seq<Seq<char>>>) -> Option<
    Seq<Seq<char>>,
> {
    match reading {
        Some(words) => if words.len() > 0 {
            Some(words.update(0, prefix + words[0]))
        } else {
            None
        },
        None => None,
    }
}

/// How a POSIX shell splits a command line whose words are separated by
/// single spaces, outside quotes: a space ends the current word, and
/// literal characters, backslash escapes and single-quoted text make up
/// words. `None` for text outside this form, such as text holding an operator
/// or an expansion outside quotes.
pub open spec fn read_line(s: Seq<char>) -> Option<Seq<Seq<char>>>
    decreases s.len(),
{
    if s.len() == 0 {
        Some(seq![Seq::<char>::empty()])
    } else if s[0] == ' ' {
        match read_line(s.drop_first()) {
            Some(words) => Some(seq![Seq::<char>::empty()] + words),
            None => None,
        }
    } else if s[0] == '\'' {
        read_line_quoted(s.drop_first())
    } else if s[0] == '\\' {
        if s.len() >= 2 {
            extend_first(seq![s[1]], read_line(s.drop_first().drop_first()))
        } else {
            None
        }
    } else if shell_literal(s[0]) {
        extend_first(seq![s[0]], read_line(s.drop_first()))
    } else {
        None
    }
}

/// The same reading inside single quotes.
pub open spec fn read_line_quoted(s: Seq<char>) -> Option<Seq<Seq<char>>>
    decreases s.len(),
{
    if s.len() == 0 {
        None
    } else if s[0] == '\'' {
        read_line(s.drop_first())
    } else {
        extend_first(seq![s[0]], read_line_quoted(s.drop_first()))
    }
}

proof fn lemma_read_line_words(s: Seq<char>)
    ensures
        read_line(s) matches Some(words) ==> words.len() > 0,
        read_line_quoted(s) matches Some(words) ==> words.len() > 0,
    decreases s.len(),
{
    if s.len() > 0 {
        lemma_read_line_words(s.drop_first());
        if s.len() >= 2 {
            lemma_read_line_words(s.drop_first().drop_first());
        }
    }
}

proof fn lemma_extend_first_twice(a: Seq<char>, b: Seq<char>, r: Option<Seq<Seq<char>>>)
    ensures
        extend_first(a, extend_first(b, r)) == extend_first(a + b, r),
{
    if let Some(words) = r {
        if words.len() > 0 {
            assert(a + (b + words[0]) =~= (a + b) + words[0]);
            assert(words.update(0, b + words[0]).update(0, a + (b + words[0])) =~= words.update(
                0,
                (a + b) + words[0],
            ));
        }
    }
}

proof fn lemma_read_line_escaped(v: Seq<char>, tail: Seq<char>)
    ensures
        read_line_quoted(escape_quotes(v) + tail) == extend_first(v, read_line_quoted(tail)),
    decreases v.len(),
{
    lemma_read_line_words(tail);
    if v.len() == 0 {
        assert(escape_quotes(v) + tail =~= tail);
        if let Some(words) = read_line_quoted(tail) {
            assert(words.update(0, v + words[0]) =~= words);
        }
    } else {
        let c = v[0];
        let rest = v.drop_first();
        lemma_read_line_escaped(rest, tail);
        let s = escape_quotes(v) + tail;
        let after = escape_quotes(rest) + tail;
        if c == '\'' {
            let s1 = seq!['\\', '\'', '\''] + after;
            let s2 = seq!['\''] + after;
            assert(s =~= seq!['\''] + s1);
            assert(s.drop_first() =~= s1);
            assert(read_line_quoted(s) == read_line(s1));
            assert(s1.drop_first().drop_first() =~= s2);
            assert(s1[1] == '\'');
            assert(read_line(s1) == extend_first(seq!['\''], read_line(s2)));
            assert(s2.drop_first() =~= after);
            assert(read_line(s2) == read_line_quoted(after));
        } else {
            assert(s =~= seq![c] + after);
            assert(s.drop_first() =~= after);
            assert(read_line_quoted(s) == extend_first(seq![c], read_line_quoted(after)));
        }
        lemma_extend_first_twice(seq![c], rest, read_line_quoted(tail));
        assert(seq![c] + rest =~= v);
    }
}

proof fn lemma_read_line_safe(v: Seq<char>, tail: Seq<char>)
    requires
        all_shell_safe(v),
    ensures
        read_line(v + tail) == extend_first(v, read_line(tail)),
    decreases v.len(),
{
    lemma_read_line_words(tail);
    if v.len() == 0 {
        assert(v + tail =~= tail);
        if let Some(words) = read_line(tail) {
            assert(words.update(0, v + words[0]) =~= words);
        }
    } else {
        let rest = v.drop_first();
        assert(shell_safe(v[0]));
        assert(shell_literal(v[0]));
        lemma_read_line_safe(rest, tail);
        assert((v + tail).drop_first() =~= rest + tail);
        assert((v + tail)[0] == v[0]);
        lemma_extend_first_twice(seq![v[0]], rest, read_line(tail));
        assert(seq![v[0]] + rest =~= v);
    }
}

proof fn lemma_read_line_word(w: Seq<char>, tail: Seq<char>)
    ensures
        read_line(shell_quote(w) + tail) == extend_first(w, read_line(tail)),
{
    if w.len() > 0 && all_shell_safe(w) {
        lemma_read_line_safe(w, tail);
    } else {
        let s = shell_quote(w) + tail;
        assert(s =~= seq!['\''] + (escape_quotes(w) + (seq!['\''] + tail)));
        assert(s.drop_first() =~= escape_quotes(w) + (seq!['\''] + tail));
        lemma_read_line_escaped(w, seq!['\''] + tail);
        assert((seq!['\''] + tail).drop_first() =~= tail);
        assert(read_line_quoted(seq!['\''] + tail) == read_line(tail));
    }
}

/// A rendered command line reads back, through a shell, as exactly the
/// words that were rendered: the program and each of its arguments.
pub proof fn law_command_line_round_trips(words: Seq<Seq<char>>)
    requires
        words.len() > 0,
    ensures
        read_line(spaced(quoted_words(words))) == Some(words),
    decreases words.len(),
{
    let q = quoted_words(words);
    if words.len() == 1 {
        assert(spaced(q) == q[0]);
        lemma_read_line_word(words[0], Seq::<char>::empty());
        assert(q[0] + Seq::<char>::empty() =~= q[0]);
        assert(seq![Seq::<char>::empty()].update(0, words[0] + Seq::<char>::empty()) =~= words);
    } else {
        let rest = words.drop_first();
        law_command_line_round_trips(rest);
        assert(q.drop_first() =~= quoted_words(rest));
        let tail = seq![' '] + spaced(quoted_words(rest));
        assert(spaced(q) == q[0] + tail);
        lemma_read_line_word(words[0], tail);
        assert(tail.drop_first() =~= spaced(quoted_words(rest)));
        assert(read_line(tail) == Some(seq![Seq::<char>::empty()] + rest));
        assert((seq![Seq::<char>::empty()] + rest).update(0, words[0] + Seq::<char>::empty())
            =~= words);
    }
}

/// The command line `display` renders reads back as the program followed by
/// its arguments.
pub proof fn law_display_round_trips(program: Seq<char>, arguments: Seq<Seq<char>>)
    ensures
        read_line(command_line(program, arguments)) == Some(seq![program] + arguments),
{
    law_command_line_round_trips(seq![program] + arguments);
}


/// A quoted word reads back, through a shell, as exactly the original text.
pub proof fn law_quote_round_trips(v: Seq<char>)
    ensures
        read_line(shell_quote(v)) == Some(seq![v]),
{
    law_command_line_round_trips(seq![v]);
    assert(quoted_words(seq![v]) =~= seq![shell_quote(v)]);
}

/// The characters `quote` leaves bare: ASCII letters and digits and
/// `-_./:=@`.
pub open spec fn bare_char(c: char) -> bool {
    ||| 'a' <= c && c <= 'z'
    ||| 'A' <= c && c <= 'Z'
    ||| '0' <= c && c <= '9'
    ||| c == '-' || c == '_' || c == '.' || c == '/' || c == ':' || c == '=' || c == '@'
}

proof fn lemma_escape_quotes_len(v: Seq<char>)
    ensures
        escape_quotes(v).len() >= v.len(),
    decreases v.len(),
{
    if v.len() > 0 {
        lemma_escape_quotes_len(v.drop_first());
    }
}

/// A word is left bare exactly when it is non-empty and made of ASCII
/// letters, digits and `-_./:=@`; every other word, the empty one among
/// them, is quoted. Each bare character is one a POSIX shell reads literally.
pub proof fn law_bare_words(v: Seq<char>)
    ensures
        (shell_quote(v) == v) <==> (v.len() > 0 && forall|i: int|
            0 <= i < v.len() ==> #[trigger] bare_char(v[i])),
        shell_quote(v) == v ==> forall|i: int| 0 <= i < v.len() ==> shell_literal(#[trigger] v[i]),
{
    if v.len() > 0 && all_shell_safe(v) {
        assert forall|i: int| 0 <= i < v.len() implies #[trigger] bare_char(v[i]) by {
            assert(shell_safe(v[i]));
        }
    } else {
        lemma_escape_quotes_len(v);
        assert(shell_quote(v).len() >= v.len() + 2);
        if v.len() > 0 && forall|i: int| 0 <= i < v.len() ==> #[trigger] bare_char(v[i]) {
            assert forall|i: int| 0 <= i < v.len() implies shell_safe(#[trigger] v[i]) by {
                assert(bare_char(v[i]));
            }
            assert(false);
        }
    }
}

} // verus!
