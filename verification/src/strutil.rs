//! Small string helpers shared by the lexer, the builder and the dispatcher:
//! character classes, appending a character to a `String`, and reading a
//! small decimal number out of a word.

use vstd::prelude::*;
use vstd::string::*;

verus! {

/// The characters that separate words on a command line: the Unicode
/// White_Space set (tab through carriage return, space, next line,
/// no-break space, ogham space mark, the en-quad–hair-space run, the line
/// and paragraph separators, narrow no-break space, medium mathematical
/// space and ideographic space).
pub open spec fn is_shell_space(c: char) -> bool {
    ('\u{09}' <= c && c <= '\u{0D}') || c == ' ' || c == '\u{85}' || c == '\u{A0}'
        || c == '\u{1680}' || ('\u{2000}' <= c && c <= '\u{200A}') || c == '\u{2028}'
        || c == '\u{2029}' || c == '\u{202F}' || c == '\u{205F}' || c == '\u{3000}'
}

/// Whether `c` separates words on a command line.
pub fn is_space_char(c: char) -> (r: bool)
    ensures
        r == is_shell_space(c),
{
    ('\u{09}' <= c && c <= '\u{0D}') || c == ' ' || c == '\u{85}' || c == '\u{A0}'
        || c == '\u{1680}' || ('\u{2000}' <= c && c <= '\u{200A}') || c == '\u{2028}'
        || c == '\u{2029}' || c == '\u{202F}' || c == '\u{205F}' || c == '\u{3000}'
}

/// An ASCII decimal digit.
pub open spec fn is_digit(c: char) -> bool {
    '0' <= c && c <= '9'
}

/// The numeric value of a digit character.
pub open spec fn digit_value(c: char) -> int {
    c as int - '0' as int
}

/// Whether every character of `s` is an ASCII digit and `s` is non-empty.
pub open spec fn all_digits(s: Seq<char>) -> bool {
    s.len() > 0 && (forall|i: int| 0 <= i < s.len() ==> is_digit(#[trigger] s[i]))
}

/// The value of a digit string read in base ten.
pub open spec fn digits_value(s: Seq<char>) -> int
    decreases s.len(),
{
    if s.len() == 0 {
        0
    } else {
        digits_value(s.drop_last()) * 10 + digit_value(s.last())
    }
}

/// A word usable as a file-descriptor number: solely ASCII digits, with a
/// value small enough for one byte.
pub open spec fn is_fd_word(s: Seq<char>) -> bool {
    all_digits(s) && 0 <= digits_value(s) <= 255
}

/// The descriptor number a word denotes, if it is solely ASCII digits and
/// small enough for one byte.
pub open spec fn spec_fd_of_word(s: Seq<char>) -> Option<u8> {
    if is_fd_word(s) {
        Some(digits_value(s) as u8)
    } else {
        None
    }
}

/// Relies on `String::push`: it appends exactly the one given character.
#[verifier::external_body]
pub fn string_push_char(s: &mut String, c: char)
    ensures
        final(s)@ == old(s)@.push(c),
{
    s.push(c);
}

/// `digits_value` never goes negative on digit strings.
pub proof fn lemma_digits_value_nonneg(s: Seq<char>)
    requires
        forall|i: int| 0 <= i < s.len() ==> is_digit(#[trigger] s[i]),
    ensures
        digits_value(s) >= 0,
    decreases s.len(),
{
    if s.len() > 0 {
        lemma_digits_value_nonneg(s.drop_last());
    }
}

/// Reads the descriptor number a word denotes: `Some(n)` exactly when the
/// word is solely ASCII digits whose value fits in one byte.
pub fn fd_of_word(w: &str) -> (r: Option<u8>)
    ensures
        r == spec_fd_of_word(w@),
{
    let n = w.unicode_len();
    if n == 0 {
        return None;
    }
    let mut value: u32 = 0;
    let mut i: usize = 0;
    while i < n
        invariant
            n == w@.len(),
            0 < n,
            0 <= i <= n,
            forall|j: int| 0 <= j < i ==> is_digit(#[trigger] w@[j]),
            value == digits_value(w@.take(i as int)),
            value <= 255,
        decreases n - i,
    {
        let c = w.get_char(i);
        if !('0' <= c && c <= '9') {
            return None;
        }
        let d: u32 = (c as u32) - ('0' as u32);
        let next: u32 = value * 10 + d;
        proof {
            assert(w@.take(i + 1).drop_last() =~= w@.take(i as int));
            assert(w@.take(i + 1).last() == w@[i as int]);
        }
        if next > 255 {
            proof {
                assert(w@.take(n as int) =~= w@);
                lemma_digits_prefix_monotone(w@, i + 1);
            }
            return None;
        }
        value = next;
        i += 1;
    }
    proof {
        assert(w@.take(n as int) =~= w@);
    }
    Some(value as u8)
}

/// Once a digit prefix exceeds one byte, every longer digit prefix does too.
proof fn lemma_digits_prefix_monotone(s: Seq<char>, k: int)
    requires
        0 < k <= s.len(),
        digits_value(s.take(k)) > 255,
    ensures
        !is_fd_word(s),
    decreases s.len() - k,
{
    if k == s.len() {
        assert(s.take(k) =~= s);
    } else if forall|i: int| 0 <= i < s.len() ==> is_digit(#[trigger] s[i]) {
        assert(s.take(k + 1).drop_last() =~= s.take(k));
        assert(is_digit(s.take(k + 1).last()));
        assert(digit_value(s.take(k + 1).last()) >= 0);
        assert(digits_value(s.take(k + 1)) > 255);
        lemma_digits_prefix_monotone(s, k + 1);
    }
}

/// The arguments of a word sequence joined with single spaces.
pub open spec fn spec_join_spaces(args: Seq<Seq<char>>) -> Seq<char>
    decreases args.len(),
{
    if args.len() == 0 {
        seq![]
    } else if args.len() == 1 {
        args[0]
    } else {
        spec_join_spaces(args.drop_last()) + seq![' '] + args.last()
    }
}

/// Joins words with single spaces, as the `echo` builtin prints them.
pub fn join_spaces(args: &[String]) -> (r: String)
    ensures
        r@ == spec_join_spaces(args@.map_values(|a: String| a@)),
{
    let ghost model = args@.map_values(|a: String| a@);
    let mut r = String::new();
    assert(r@ =~= spec_join_spaces(model.take(0)));
    let mut i: usize = 0;
    while i < args.len()
        invariant
            model == args@.map_values(|a: String| a@),
            model.len() == args@.len(),
            0 <= i <= args.len(),
            r@ == spec_join_spaces(model.take(i as int)),
        decreases args.len() - i,
    {
        if i > 0 {
            r.append(" ");
            proof {
                reveal_strlit(" ");
                assert(" "@ =~= seq![' ']);
            }
        }
        r.append(args[i].as_str());
        proof {
            assert(model.take(i + 1).drop_last() =~= model.take(i as int));
            assert(model.take(i + 1).last() == model[i as int]);
            if i == 0 {
                assert(r@ =~= spec_join_spaces(model.take(1)));
            }
        }
        i += 1;
    }
    proof {
        assert(model.take(args@.len() as int) =~= model);
    }
    r
}

} // verus!
