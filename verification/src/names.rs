//! File-name rules: which names are selectable images and how a display name
//! is derived from a file name.

use vstd::prelude::*;
use vstd::string::*;

verus! {

/// The suffix every selectable image carries, `.png`, as characters.
pub open spec fn png_suffix() -> Seq<char> {
    seq!['.', 'p', 'n', 'g']
}

/// `name` ends with the literal, case-sensitive suffix `.png`.
pub open spec fn spec_is_png_name(name: Seq<char>) -> bool {
    name.len() >= 4 && name.subrange(name.len() - 4, name.len() as int) == png_suffix()
}

/// `name` holds the path separator `/`.
pub open spec fn spec_has_separator(name: Seq<char>) -> bool {
    exists|i: int| 0 <= i < name.len() && name[i] == '/'
}

/// One of the ten decimal digits `0` to `9`.
pub open spec fn spec_is_digit(c: char) -> bool {
    '0' <= c && c <= '9'
}

/// `name` without its `.png` suffix; a name without the suffix is left alone.
pub open spec fn spec_strip_png(name: Seq<char>) -> Seq<char> {
    if spec_is_png_name(name) {
        name.subrange(0, name.len() - 4)
    } else {
        name
    }
}

/// `s` with every underscore replaced by a space.
pub open spec fn spec_underscores_to_spaces(s: Seq<char>) -> Seq<char> {
    Seq::new(s.len(), |i: int| if s[i] == '_' { ' ' } else { s[i] })
}

/// Length of the run of decimal digits that `s` starts with.
pub open spec fn spec_leading_digits(s: Seq<char>) -> nat
    decreases s.len(),
{
    if s.len() > 0 && spec_is_digit(s[0]) {
        1 + spec_leading_digits(s.drop_first())
    } else {
        0
    }
}

/// `s` starts with one or more decimal digits followed by a hyphen.
pub open spec fn spec_has_order_prefix(s: Seq<char>) -> bool {
    let d = spec_leading_digits(s);
    0 < d && d < s.len() && s[d as int] == '-'
}

/// `s` without its ordering prefix (the leading digits and the hyphen after
/// them); a string without such a prefix is left alone.
pub open spec fn spec_strip_order_prefix(s: Seq<char>) -> Seq<char> {
    if spec_has_order_prefix(s) {
        s.subrange(spec_leading_digits(s) as int + 1, s.len() as int)
    } else {
        s
    }
}

/// The display name of a file: suffix stripped, underscores turned into
/// spaces, ordering prefix removed, in that order.
pub open spec fn spec_display_name(filename: Seq<char>) -> Seq<char> {
    spec_strip_order_prefix(spec_underscores_to_spaces(spec_strip_png(filename)))
}

/// The digit run is what its name says: `d` characters that are all digits,
/// and no digit right after them.
pub proof fn lemma_leading_digits(s: Seq<char>)
    ensures
        spec_leading_digits(s) <= s.len(),
        forall|i: int| 0 <= i < spec_leading_digits(s) ==> spec_is_digit(#[trigger] s[i]),
        spec_leading_digits(s) < s.len() ==> !spec_is_digit(s[spec_leading_digits(s) as int]),
    decreases s.len(),
{
    if s.len() > 0 && spec_is_digit(s[0]) {
        let rest = s.drop_first();
        lemma_leading_digits(rest);
        assert forall|i: int| 0 <= i < spec_leading_digits(s) implies spec_is_digit(
            #[trigger] s[i],
        ) by {
            if i > 0 {
                assert(s[i] == rest[i - 1]);
            }
        }
        if spec_leading_digits(s) < s.len() {
            assert(s[spec_leading_digits(s) as int] == rest[spec_leading_digits(rest) as int]);
        }
    }
}

/// A run of `d` digits that ends before a non-digit (or at the end) is the
/// leading digit run.
pub proof fn lemma_leading_digits_is(s: Seq<char>, d: int)
    requires
        0 <= d <= s.len(),
        forall|i: int| 0 <= i < d ==> spec_is_digit(#[trigger] s[i]),
        d < s.len() ==> !spec_is_digit(s[d]),
    ensures
        spec_leading_digits(s) == d,
    decreases s.len(),
{
    if d > 0 {
        let rest = s.drop_first();
        assert(spec_is_digit(s[0]));
        assert forall|i: int| 0 <= i < d - 1 implies spec_is_digit(#[trigger] rest[i]) by {
            assert(rest[i] == s[i + 1]);
        }
        lemma_leading_digits_is(rest, d - 1);
    }
}

/// `s` starts with exactly `d` decimal digits, `d` at least one, and a hyphen
/// right after them.
pub open spec fn spec_is_order_prefix(s: Seq<char>, d: int) -> bool {
    &&& 0 < d < s.len()
    &&& forall|i: int| 0 <= i < d ==> spec_is_digit(#[trigger] s[i])
    &&& s[d] == '-'
}

/// The rule of the ordering prefix, stated directly: a string has one exactly
/// if some `d` digits and a hyphen lead it, and then what is left after the
/// hyphen is kept. A string that starts with no digit, or whose digits are
/// not followed by a hyphen, has none, whatever hyphens come later.
pub proof fn lemma_order_prefix_rule(s: Seq<char>)
    ensures
        spec_has_order_prefix(s) <==> exists|d: int| spec_is_order_prefix(s, d),
        forall|d: int| #[trigger]
            spec_is_order_prefix(s, d) ==> spec_strip_order_prefix(s) == s.subrange(
                d + 1,
                s.len() as int,
            ),
        !spec_has_order_prefix(s) ==> spec_strip_order_prefix(s) == s,
{
    lemma_leading_digits(s);
    if spec_has_order_prefix(s) {
        assert(spec_is_order_prefix(s, spec_leading_digits(s) as int));
    }
    assert forall|d: int| #[trigger] spec_is_order_prefix(s, d) implies spec_leading_digits(s)
        == d by {
        lemma_leading_digits_is(s, d);
    }
}

/// `String::push` of the standard library appends the given character to the
/// end of the string. Assumed, not proved.
pub assume_specification[ String::push ](s: &mut String, ch: char)
    ensures
        final(s)@ == old(s)@.push(ch),
;

/// Whether `name` ends with `.png`.
pub fn is_png_name(name: &str) -> (b: bool)
    ensures
        b == spec_is_png_name(name@),
{
    let n: usize = name.unicode_len();
    if n < 4 {
        return false;
    }
    let b = name.get_char(n - 4) == '.' && name.get_char(n - 3) == 'p' && name.get_char(n - 2)
        == 'n' && name.get_char(n - 1) == 'g';
    proof {
        let tail = name@.subrange(name@.len() - 4, name@.len() as int);
        assert(tail.len() == 4);
        assert(tail[0] == name@[n - 4] && tail[1] == name@[n - 3] && tail[2] == name@[n - 2]
            && tail[3] == name@[n - 1]);
        if b {
            assert(tail =~= png_suffix());
        }
    }
    b
}

/// Whether `name` holds a `/`.
pub fn has_separator(name: &str) -> (b: bool)
    ensures
        b == spec_has_separator(name@),
{
    for c in it: name.chars()
        invariant
            it.seq() == name@,
            forall|j: int| 0 <= j < it.index() ==> name@[j] != '/',
    {
        if c == '/' {
            assert(name@[it.index()] == '/');
            return true;
        }
    }
    false
}

/// Whether `c` is a decimal digit.
pub fn is_digit(c: char) -> (b: bool)
    ensures
        b == spec_is_digit(c),
{
    '0' <= c && c <= '9'
}

/// Drops the `.png` suffix of `name`, if it has one.
pub fn strip_png(name: &str) -> (stem: &str)
    ensures
        stem@ == spec_strip_png(name@),
{
    if is_png_name(name) {
        let n: usize = name.unicode_len();
        name.substring_char(0, n - 4)
    } else {
        name
    }
}

/// Copies `s`, writing a space for every underscore.
pub fn underscores_to_spaces(s: &str) -> (out: String)
    ensures
        out@ == spec_underscores_to_spaces(s@),
{
    let mut out = String::new();
    for c in it: s.chars()
        invariant
            it.seq() == s@,
            out@ == spec_underscores_to_spaces(s@).take(it.index()),
    {
        if c == '_' {
            out.push(' ');
        } else {
            out.push(c);
        }
        assert(out@ =~= spec_underscores_to_spaces(s@).take(it.index() + 1));
    }
    assert(out@ =~= spec_underscores_to_spaces(s@));
    out
}

/// Drops the ordering prefix of `s`: a leading run of one or more decimal
/// digits and the hyphen that follows it. `12-3-a` gives `3-a`; `-a`, `a1-b`
/// and `12a-b` have no such prefix and come back unchanged.
pub fn strip_order_prefix(s: &str) -> (rest: &str)
    ensures
        rest@ == spec_strip_order_prefix(s@),
{
    let n: usize = s.unicode_len();
    let mut d: usize = 0;
    let mut in_run = true;
    let mut hyphen_follows = false;
    for c in it: s.chars()
        invariant
            it.seq() == s@,
            n == s@.len(),
            d <= it.index(),
            in_run ==> d == it.index(),
            !in_run ==> d < n && !spec_is_digit(s@[d as int]),
            !in_run ==> hyphen_follows == (s@[d as int] == '-'),
            forall|j: int| 0 <= j < d ==> spec_is_digit(#[trigger] s@[j]),
    {
        if in_run {
            if is_digit(c) {
                d += 1;
            } else {
                in_run = false;
                hyphen_follows = c == '-';
            }
        }
    }
    proof {
        lemma_leading_digits_is(s@, d as int);
    }
    if 0 < d && !in_run && hyphen_follows {
        s.substring_char(d + 1, n)
    } else {
        s
    }
}

/// Derives the display name of `filename`: `00-splash.png` is shown as
/// `splash`, `12-dragons_lair.png` as `dragons lair`.
pub fn display_name(filename: &str) -> (name: String)
    ensures
        name@ == spec_display_name(filename@),
{
    let spaced = underscores_to_spaces(strip_png(filename));
    strip_order_prefix(spaced.as_str()).to_owned()
}

} // verus!
