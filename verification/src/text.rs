//! Text helpers. Every contract speaks of a string through its view, the
//! sequence of its characters.

use vstd::prelude::*;
use vstd::string::*;

verus! {

/// Whether a character counts as white space when a string is trimmed.
/// This is the answer of `char::is_whitespace`, the Unicode property
/// `White_Space`; the library never needs to know more of it than that
/// it is a fixed property of the character.
pub uninterp spec fn is_white_space(c: char) -> bool;

/// `text` without its leading white space.
pub open spec fn trimmed_start(text: Seq<char>) -> Seq<char>
    decreases text.len(),
{
    if text.len() > 0 && is_white_space(text[0]) {
        trimmed_start(text.drop_first())
    } else {
        text
    }
}

/// `text` without its trailing white space.
pub open spec fn trimmed_end(text: Seq<char>) -> Seq<char>
    decreases text.len(),
{
    if text.len() > 0 && is_white_space(text.last()) {
        trimmed_end(text.drop_last())
    } else {
        text
    }
}

/// `text` without leading and trailing white space.
pub open spec fn trimmed(text: Seq<char>) -> Seq<char> {
    trimmed_end(trimmed_start(text))
}

/// A text is blank when trimming leaves nothing of it.
pub open spec fn blank(text: Seq<char>) -> bool {
    trimmed(text).len() == 0
}

/// `text` with every occurrence of `pattern` replaced by `with`, scanning
/// from the left and never matching inside an earlier match. An empty
/// pattern matches nowhere.
pub open spec fn replaced(text: Seq<char>, pattern: Seq<char>, with: Seq<char>) -> Seq<char>
    decreases text.len(),
{
    if pattern.len() == 0 || text.len() < pattern.len() {
        text
    } else if text.subrange(0, pattern.len() as int) == pattern {
        with + replaced(text.subrange(pattern.len() as int, text.len() as int), pattern, with)
    } else {
        seq![text[0]] + replaced(text.drop_first(), pattern, with)
    }
}

/// Whether `pattern` occurs in `text` at position `at`.
pub open spec fn occurs_at(text: Seq<char>, pattern: Seq<char>, at: int) -> bool {
    0 <= at && at + pattern.len() <= text.len() && text.subrange(at, at + pattern.len())
        == pattern
}

/// Whether `pattern` occurs somewhere in `text`.
pub open spec fn occurs(text: Seq<char>, pattern: Seq<char>) -> bool {
    exists|at: int| occurs_at(text, pattern, at)
}

/// The lower-case form of a text, as `str::to_lowercase` computes it from
/// the Unicode case mappings.
pub uninterp spec fn lowercased(text: Seq<char>) -> Seq<char>;

/// The value that `str::parse::<i32>` reads from a text, if it reads one.
pub uninterp spec fn parsed_i32(text: Seq<char>) -> Option<i32>;

/// The decimal digit for `d`, which is meant to lie in `0..=9`.
pub open spec fn digit_char(d: int) -> char {
    if d == 0 {
        '0'
    } else if d == 1 {
        '1'
    } else if d == 2 {
        '2'
    } else if d == 3 {
        '3'
    } else if d == 4 {
        '4'
    } else if d == 5 {
        '5'
    } else if d == 6 {
        '6'
    } else if d == 7 {
        '7'
    } else if d == 8 {
        '8'
    } else {
        '9'
    }
}

/// The decimal digits of a natural number, most significant first.
pub open spec fn digits(n: nat) -> Seq<char>
    decreases n,
{
    if n < 10 {
        seq![digit_char(n as int)]
    } else {
        digits(n / 10).push(digit_char((n % 10) as int))
    }
}

/// The decimal text of an integer: a minus sign for a negative one, then
/// its digits.
pub open spec fn decimal_text(n: int) -> Seq<char> {
    if n < 0 {
        seq!['-'] + digits((-n) as nat)
    } else {
        digits(n as nat)
    }
}

/// The part of a locale name that names the language: what stands before
/// the first hyphen or underscore, or all of it where there is neither.
pub open spec fn language_part(locale: Seq<char>) -> Seq<char>
    decreases locale.len(),
{
    if locale.len() == 0 || locale[0] == '-' || locale[0] == '_' {
        Seq::empty()
    } else {
        seq![locale[0]] + language_part(locale.drop_first())
    }
}

/// The language part of a locale is its prefix up to the first separator.
pub proof fn lemma_language_part(locale: Seq<char>, n: int)
    requires
        0 <= n <= locale.len(),
        forall|j: int| 0 <= j < n ==> locale[j] != '-' && locale[j] != '_',
        n == locale.len() || locale[n] == '-' || locale[n] == '_',
    ensures
        language_part(locale) == locale.take(n),
    decreases n,
{
    if n > 0 {
        let rest = locale.drop_first();
        lemma_language_part(rest, n - 1);
    }
}

/// Whether two string slices hold the same characters.
pub fn same(a: &str, b: &str) -> (r: bool)
    ensures
        r == (a@ == b@),
{
    a.to_owned() == b.to_owned()
}

/// `str::trim`: the slice without leading and trailing white space, white
/// space being what `char::is_whitespace` accepts.
#[verifier::external_body]
pub(crate) fn trim(text: &str) -> (r: &str)
    ensures
        r@ == trimmed(text@),
        r@.len() > 0 ==> !is_white_space(r@.first()) && !is_white_space(r@.last()),
{
    text.trim()
}

/// `str::replace` with a string pattern: every non-overlapping match of
/// `pattern`, found from the left, is replaced by `with`. The empty
/// pattern, which the standard library treats as matching between all
/// characters, is left out.
#[verifier::external_body]
pub(crate) fn replace(text: &str, pattern: &str, with: &str) -> (r: String)
    requires
        pattern@.len() > 0,
    ensures
        r@ == replaced(text@, pattern@, with@),
{
    text.replace(pattern, with)
}

/// `str::to_lowercase`: the result is named, not described.
#[verifier::external_body]
pub(crate) fn to_lowercase(text: &str) -> (r: String)
    ensures
        r@ == lowercased(text@),
{
    text.to_lowercase()
}

/// `str::parse::<i32>`, with the error dropped: the result is named, not
/// described.
#[verifier::external_body]
pub(crate) fn parse_i32(text: &str) -> (r: Option<i32>)
    ensures
        r == parsed_i32(text@),
{
    text.parse::<i32>().ok()
}

/// `i64::to_string`: the decimal text of the number.
#[verifier::external_body]
pub(crate) fn decimal(n: i64) -> (r: String)
    ensures
        r@ == decimal_text(n as int),
{
    n.to_string()
}

/// Whether trimming leaves nothing of `text`.
pub fn is_blank(text: &str) -> (r: bool)
    ensures
        r == blank(text@),
{
    trim(text).is_empty()
}

/// The language that a locale name such as `en-US` or `pt_BR` names.
pub fn language_of_locale(locale: &str) -> (r: String)
    ensures
        r@ == language_part(locale@),
{
    let total = locale.unicode_len();
    let mut n: usize = 0;
    let mut open = true;
    for c in it: locale.chars()
        invariant
            it.seq() == locale@,
            locale@.len() == total,
            n <= it.index(),
            open ==> n == it.index(),
            !open ==> n < locale@.len() && (locale@[n as int] == '-' || locale@[n as int]
                == '_'),
            forall|j: int| 0 <= j < n ==> locale@[j] != '-' && locale@[j] != '_',
    {
        if open {
            if c == '-' || c == '_' {
                open = false;
            } else {
                n = n + 1;
            }
        }
    }
    proof {
        lemma_language_part(locale@, n as int);
    }
    locale.substring_char(0, n).to_owned()
}

/// A fresh string with the characters of `text`.
pub fn owned(text: &str) -> (r: String)
    ensures
        r@ == text@,
{
    text.to_owned()
}

/// A copy of an optional string.
pub fn clone_optional(text: &Option<String>) -> (r: Option<String>)
    ensures
        r.deep_view() == text.deep_view(),
{
    match text {
        Some(t) => Some(t.clone()),
        None => None,
    }
}

/// A copy of a list of strings.
pub fn clone_strings(list: &Vec<String>) -> (r: Vec<String>)
    ensures
        r.deep_view() == list.deep_view(),
{
    let mut copy: Vec<String> = Vec::new();
    let mut i: usize = 0;
    while i < list.len()
        invariant
            i <= list.len(),
            copy.len() == i,
            forall|j: int| 0 <= j < i ==> copy[j]@ == list[j]@,
        decreases list.len() - i,
    {
        copy.push(list[i].clone());
        i = i + 1;
    }
    copy
}

/// The concatenation of two pieces of text.
pub fn join2(a: &str, b: &str) -> (r: String)
    ensures
        r@ == a@ + b@,
{
    let mut r = a.to_owned();
    r.append(b);
    r
}

/// The concatenation of three pieces of text.
pub fn join3(a: &str, b: &str, c: &str) -> (r: String)
    ensures
        r@ == a@ + b@ + c@,
{
    let mut r = a.to_owned();
    r.append(b);
    r.append(c);
    r
}

/// The four characters that take no room on the screen and that some
/// language models put into their answers: the zero-width space, the
/// zero-width non-joiner, the zero-width joiner and the byte-order mark.
pub open spec fn is_invisible(c: char) -> bool {
    c == '\u{200B}' || c == '\u{200C}' || c == '\u{200D}' || c == '\u{FEFF}'
}

/// `text` without its invisible characters.
pub open spec fn visible_part(text: Seq<char>) -> Seq<char> {
    text.filter(|c: char| !is_invisible(c))
}

/// `text` without the character `c`.
pub open spec fn without(text: Seq<char>, c: char) -> Seq<char> {
    text.filter(|x: char| x != c)
}

/// Replacing a one-character pattern by nothing removes that character.
pub proof fn lemma_replaced_single(text: Seq<char>, c: char)
    ensures
        replaced(text, seq![c], Seq::empty()) == without(text, c),
    decreases text.len(),
{
    reveal_with_fuel(Seq::filter, 2);
    if text.len() > 0 {
        let head = seq![text[0]];
        let rest = text.drop_first();
        assert(text =~= head + rest);
        lemma_replaced_single(rest, c);
        if text.subrange(0, 1) == seq![c] {
            assert(text.subrange(0, 1)[0] == text[0]);
        } else if text[0] == c {
            assert(text.subrange(0, 1) =~= seq![c]);
        }
    }
}

/// Removing the four invisible characters one after the other leaves the
/// visible part.
pub proof fn lemma_without_all(text: Seq<char>)
    ensures
        without(without(without(without(text, '\u{200B}'), '\u{200C}'), '\u{200D}'), '\u{FEFF}')
            == visible_part(text),
    decreases text.len(),
{
    reveal(Seq::filter);
    if text.len() > 0 {
        let init = text.drop_last();
        let last = text.last();
        lemma_without_all(init);
        let a = without(init, '\u{200B}');
        let b = without(a, '\u{200C}');
        let c = without(b, '\u{200D}');
        assert(a.push(last).drop_last() =~= a);
        assert(b.push(last).drop_last() =~= b);
        assert(c.push(last).drop_last() =~= c);
    }
}

/// A text without invisible characters is its own visible part.
pub proof fn lemma_visible_part_of_clean(text: Seq<char>)
    requires
        forall|i: int| 0 <= i < text.len() ==> !is_invisible(#[trigger] text[i]),
    ensures
        visible_part(text) == text,
    decreases text.len(),
{
    reveal(Seq::filter);
    if text.len() > 0 {
        let init = text.drop_last();
        lemma_visible_part_of_clean(init);
    }
}

/// The visible part of a text holds no invisible character, and taking the
/// visible part once more changes nothing.
pub proof fn lemma_visible_part_idempotent(text: Seq<char>)
    ensures
        forall|i: int|
            0 <= i < visible_part(text).len() ==> !is_invisible(#[trigger] visible_part(text)[i]),
        visible_part(visible_part(text)) == visible_part(text),
{
    lemma_visible_part_of_clean(visible_part(text));
}

/// `text` without zero-width spaces, zero-width joiners and non-joiners,
/// and byte-order marks.
pub fn strip_invisible(text: &str) -> (r: String)
    ensures
        r@ == visible_part(text@),
{
    proof {
        reveal_strlit("\u{200B}");
        reveal_strlit("\u{200C}");
        reveal_strlit("\u{200D}");
        reveal_strlit("\u{FEFF}");
        reveal_strlit("");
        assert("\u{200B}"@ =~= seq!['\u{200B}']);
        assert("\u{200C}"@ =~= seq!['\u{200C}']);
        assert("\u{200D}"@ =~= seq!['\u{200D}']);
        assert("\u{FEFF}"@ =~= seq!['\u{FEFF}']);
        assert(""@ =~= Seq::<char>::empty());
    }
    let a = replace(text, "\u{200B}", "");
    let b = replace(a.as_str(), "\u{200C}", "");
    let c = replace(b.as_str(), "\u{200D}", "");
    let d = replace(c.as_str(), "\u{FEFF}", "");
    proof {
        lemma_replaced_single(text@, '\u{200B}');
        lemma_replaced_single(a@, '\u{200C}');
        lemma_replaced_single(b@, '\u{200D}');
        lemma_replaced_single(c@, '\u{FEFF}');
        lemma_without_all(text@);
    }
    d
}

} // verus!
