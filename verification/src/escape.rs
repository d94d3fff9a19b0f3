//! Escaping and unescaping of string content for safe embedding inside a
//! single-quoted SQL text literal.
//!
//! `escape_string` substitutes each character of a small fixed table by a
//! backslash followed by a code character; every other character passes
//! through. `unescape_string` is its left inverse: an unescaped backslash
//! starts a two-character sequence whose second character is mapped back
//! through the same table, and code characters outside the table (notably
//! the quote characters and the backslash itself) pass through unchanged.
use vstd::prelude::*;

verus! {

/// Whether `c` is replaced by an escape sequence.
pub open spec fn needs_escape(c: char) -> bool {
    ||| c == '\\'
    ||| c == '"'
    ||| c == '\''
    ||| c == '\0'
    ||| c == '\u{8}'
    ||| c == '\t'
    ||| c == '\u{1a}'
    ||| c == '\n'
    ||| c == '\r'
}

/// The code character written after the backslash for an escaped character.
pub open spec fn escape_code(c: char) -> char {
    if c == '\0' {
        '0'
    } else if c == '\u{8}' {
        'b'
    } else if c == '\t' {
        't'
    } else if c == '\u{1a}' {
        'z'
    } else if c == '\n' {
        'n'
    } else if c == '\r' {
        'r'
    } else {
        c
    }
}

/// The character a code character maps back to when it follows a backslash.
/// Codes outside the table (quotes, the backslash) pass through unchanged.
pub open spec fn unescape_code(c: char) -> char {
    if c == '0' {
        '\0'
    } else if c == 'b' {
        '\u{8}'
    } else if c == 't' {
        '\t'
    } else if c == 'z' {
        '\u{1a}'
    } else if c == 'n' {
        '\n'
    } else if c == 'r' {
        '\r'
    } else {
        c
    }
}

/// The substitution applied to one character when escaping.
pub open spec fn escaped_char(c: char) -> Seq<char> {
    if needs_escape(c) {
        seq!['\\', escape_code(c)]
    } else {
        seq![c]
    }
}

/// The escaped form of a whole string, character by character.
pub open spec fn escape_spec(s: Seq<char>) -> Seq<char>
    decreases s.len(),
{
    if s.len() == 0 {
        Seq::empty()
    } else {
        escaped_char(s[0]) + escape_spec(s.skip(1))
    }
}

/// The unescaped form of `s`, scanning left to right; `pending` records
/// whether an escape marker has just been consumed. A trailing unmatched
/// escape marker yields nothing.
pub open spec fn unescape_state(s: Seq<char>, pending: bool) -> Seq<char>
    decreases s.len(),
{
    if s.len() == 0 {
        Seq::empty()
    } else if pending {
        seq![unescape_code(s[0])] + unescape_state(s.skip(1), false)
    } else if s[0] == '\\' {
        unescape_state(s.skip(1), true)
    } else {
        seq![s[0]] + unescape_state(s.skip(1), false)
    }
}

/// The unescaped form of a whole string.
pub open spec fn unescape_spec(s: Seq<char>) -> Seq<char> {
    unescape_state(s, false)
}

/// Relies on `String::push`: appends exactly the one character.
pub assume_specification[ std::string::String::push ](s: &mut std::string::String, c: char)
    ensures
        final(s)@ == old(s)@.push(c),
;

/// Escape string content for a single-quoted SQL text literal.
pub fn escape_string(string: &str) -> (r: String)
    ensures
        r@ == escape_spec(string@),
{
    let n: usize = string.unicode_len();
    let mut out = String::new();
    let mut i: usize = 0;
    proof {
        assert(string@.skip(0) =~= string@);
        assert(Seq::<char>::empty() + escape_spec(string@) =~= escape_spec(string@));
    }
    while i < n
        invariant
            n == string@.len(),
            i <= n,
            out@ + escape_spec(string@.skip(i as int)) == escape_spec(string@),
        decreases n - i,
    {
        let ghost prev = out@;
        let c = string.get_char(i);
        if c == '\\' {
            out.push('\\');
            out.push('\\');
        } else if c == '"' {
            out.push('\\');
            out.push('"');
        } else if c == '\'' {
            out.push('\\');
            out.push('\'');
        } else if c == '\0' {
            out.push('\\');
            out.push('0');
        } else if c == '\u{8}' {
            out.push('\\');
            out.push('b');
        } else if c == '\t' {
            out.push('\\');
            out.push('t');
        } else if c == '\u{1a}' {
            out.push('\\');
            out.push('z');
        } else if c == '\n' {
            out.push('\\');
            out.push('n');
        } else if c == '\r' {
            out.push('\\');
            out.push('r');
        } else {
            out.push(c);
        }
        proof {
            let tail = string@.skip(i as int);
            assert(tail[0] == c);
            assert(tail.skip(1) =~= string@.skip(i as int + 1));
            assert(out@ =~= prev + escaped_char(c));
            assert((prev + escaped_char(c)) + escape_spec(tail.skip(1)) =~= prev + (
            escaped_char(c) + escape_spec(tail.skip(1))));
        }
        i = i + 1;
    }
    proof {
        assert(string@.skip(n as int) =~= Seq::<char>::empty());
        assert(out@ + Seq::<char>::empty() =~= out@);
    }
    out
}

/// Unescape string content produced for a single-quoted SQL text literal.
pub fn unescape_string(input: &str) -> (r: String)
    ensures
        r@ == unescape_spec(input@),
{
    let n: usize = input.unicode_len();
    let mut out = String::new();
    let mut pending = false;
    let mut i: usize = 0;
    proof {
        assert(input@.skip(0) =~= input@);
        assert(Seq::<char>::empty() + unescape_spec(input@) =~= unescape_spec(input@));
    }
    while i < n
        invariant
            n == input@.len(),
            i <= n,
            out@ + unescape_state(input@.skip(i as int), pending) == unescape_spec(input@),
        decreases n - i,
    {
        let ghost prev = out@;
        let c = input.get_char(i);
        proof {
            let tail = input@.skip(i as int);
            assert(tail[0] == c);
            assert(tail.skip(1) =~= input@.skip(i as int + 1));
        }
        if !pending && c == '\\' {
            pending = true;
        } else if pending {
            let d = if c == '0' {
                '\0'
            } else if c == 'b' {
                '\u{8}'
            } else if c == 't' {
                '\t'
            } else if c == 'z' {
                '\u{1a}'
            } else if c == 'n' {
                '\n'
            } else if c == 'r' {
                '\r'
            } else {
                c
            };
            out.push(d);
            pending = false;
            proof {
                assert(out@ =~= prev + seq![unescape_code(c)]);
                assert((prev + seq![unescape_code(c)]) + unescape_state(
                    input@.skip(i as int + 1),
                    false,
                ) =~= prev + (seq![unescape_code(c)] + unescape_state(
                    input@.skip(i as int + 1),
                    false,
                )));
            }
        } else {
            out.push(c);
            proof {
                assert(out@ =~= prev + seq![c]);
                assert((prev + seq![c]) + unescape_state(input@.skip(i as int + 1), false) =~= prev
                    + (seq![c] + unescape_state(input@.skip(i as int + 1), false)));
            }
        }
        i = i + 1;
    }
    proof {
        assert(input@.skip(n as int) =~= Seq::<char>::empty());
        assert(out@ + Seq::<char>::empty() =~= out@);
    }
    out
}

/// Law: unescaping inverts escaping, from any starting prefix.
proof fn lemma_unescape_state_escape(s: Seq<char>)
    ensures
        unescape_state(escape_spec(s), false) == s,
    decreases s.len(),
{
    if s.len() == 0 {
        assert(s =~= Seq::<char>::empty());
    } else {
        let c = s[0];
        let rest = s.skip(1);
        lemma_unescape_state_escape(rest);
        let tail = escape_spec(rest);
        if needs_escape(c) {
            let k = escape_code(c);
            let full = seq!['\\', k] + tail;
            assert(escape_spec(s) == full);
            assert(full[0] == '\\');
            assert(full.skip(1) =~= seq![k] + tail);
            assert((seq![k] + tail)[0] == k);
            assert((seq![k] + tail).skip(1) =~= tail);
            assert(unescape_code(k) == c);
            assert(unescape_state(full, false) == unescape_state(seq![k] + tail, true));
            assert(unescape_state(seq![k] + tail, true) == seq![unescape_code(k)]
                + unescape_state(tail, false));
            assert(unescape_state(full, false) == seq![c] + unescape_state(tail, false));
            assert(seq![c] + rest =~= s);
        } else {
            let full = seq![c] + tail;
            assert(escape_spec(s) == full);
            assert(full[0] == c);
            assert(c != '\\');
            assert(full.skip(1) =~= tail);
            assert(unescape_state(full, false) == seq![c] + unescape_state(tail, false));
            assert(seq![c] + rest =~= s);
        }
    }
}

/// Law: for every string `s`, `unescape(escape(s)) == s`.
pub proof fn lemma_unescape_escape(s: Seq<char>)
    ensures
        unescape_spec(escape_spec(s)) == s,
{
    lemma_unescape_state_escape(s);
}

} // verus!
