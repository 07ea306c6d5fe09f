//! Text primitives shared by every module.
//!
//! Specifications speak of a text as the sequence of its characters. Executable
//! code takes `&str` and gives `String`, and works on a vector of characters
//! where it needs positions.

use vstd::prelude::*;
use vstd::string::*;

verus! {

/// `String::push`: appends the character to the end of the string.
pub assume_specification[ String::push ](s: &mut String, c: char)
    ensures
        final(s)@ == old(s)@.push(c),
;

/// The characters of each string of a list.
pub open spec fn texts(list: Seq<String>) -> Seq<Seq<char>> {
    list.map_values(|s: String| s@)
}

/// The texts of two lists one after the other.
pub proof fn lemma_texts_add(a: Seq<String>, b: Seq<String>)
    ensures
        texts(a + b) == texts(a) + texts(b),
{
    assert(texts(a + b) =~= texts(a) + texts(b));
}

/// The characters of an optional text.
pub open spec fn opt_text(value: Option<String>) -> Option<Seq<char>> {
    match value {
        Some(s) => Some(s@),
        None => None,
    }
}

/// The characters of an optional borrowed text.
pub open spec fn opt_str(value: Option<&str>) -> Option<Seq<char>> {
    match value {
        Some(s) => Some(s@),
        None => None,
    }
}

/// The characters of a text, in order.
pub fn chars_of(s: &str) -> (r: Vec<char>)
    ensures
        r@ == s@,
{
    let mut out: Vec<char> = Vec::new();
    for c in it: s.chars()
        invariant
            it.seq() == s@,
            out@ == s@.take(it.index()),
    {
        out.push(c);
        assert(s@.take(it.index() + 1) =~= s@.take(it.index()).push(c));
    }
    assert(s@.take(s@.len() as int) =~= s@);
    out
}

/// The text between two positions.
pub fn text_between(chars: &Vec<char>, from: usize, to: usize) -> (r: String)
    requires
        from <= to <= chars@.len(),
    ensures
        r@ == chars@.subrange(from as int, to as int),
{
    let mut out = String::new();
    let mut i: usize = from;
    while i < to
        invariant
            from <= i <= to <= chars@.len(),
            out@ == chars@.subrange(from as int, i as int),
        decreases to - i,
    {
        out.push(chars[i]);
        i = i + 1;
        assert(chars@.subrange(from as int, i as int) =~= chars@.subrange(
            from as int,
            i - 1,
        ).push(chars@[i - 1]));
    }
    out
}

/// The text made of the given characters.
pub fn text_of(chars: &Vec<char>) -> (r: String)
    ensures
        r@ == chars@,
{
    let r = text_between(chars, 0, chars.len());
    assert(chars@.subrange(0, chars@.len() as int) =~= chars@);
    r
}

/// Whether two texts hold the same characters.
pub fn same_text(a: &str, b: &str) -> (r: bool)
    ensures
        r == (a@ == b@),
{
    a.to_owned() == b.to_owned()
}

/// Whether `prefix` opens the text.
pub open spec fn opens_with(s: Seq<char>, prefix: Seq<char>) -> bool {
    prefix.len() <= s.len() && s.take(prefix.len() as int) == prefix
}

/// Whether `suffix` closes the text.
pub open spec fn closes_with(s: Seq<char>, suffix: Seq<char>) -> bool {
    suffix.len() <= s.len() && s.skip(s.len() - suffix.len()) == suffix
}

/// What follows the prefix, if the text opens with it.
pub open spec fn after_prefix(s: Seq<char>, prefix: Seq<char>) -> Option<Seq<char>> {
    if opens_with(s, prefix) {
        Some(s.skip(prefix.len() as int))
    } else {
        None
    }
}

/// What precedes the suffix, if the text closes with it.
pub open spec fn before_suffix(s: Seq<char>, suffix: Seq<char>) -> Option<Seq<char>> {
    if closes_with(s, suffix) {
        Some(s.take(s.len() - suffix.len()))
    } else {
        None
    }
}

/// Whether `needle` stands in `text` at position `at`.
pub open spec fn occurs_at(text: Seq<char>, needle: Seq<char>, at: int) -> bool {
    0 <= at && at + needle.len() <= text.len() && text.subrange(at, at + needle.len()) == needle
}

/// Whether `needle` stands somewhere in `text`.
pub open spec fn contains_text(text: Seq<char>, needle: Seq<char>) -> bool {
    exists|at: int| occurs_at(text, needle, at)
}

/// The first position at or after `from` at which `needle` stands in `text`.
pub open spec fn find_from(text: Seq<char>, needle: Seq<char>, from: int) -> Option<int>
    decreases text.len() + 1 - from,
{
    if from + needle.len() > text.len() {
        None
    } else if text.subrange(from, from + needle.len()) == needle {
        Some(from)
    } else {
        find_from(text, needle, from + 1)
    }
}

/// The first position at which `needle` stands in `text`.
pub open spec fn find(text: Seq<char>, needle: Seq<char>) -> Option<int> {
    find_from(text, needle, 0)
}

/// A search from `from` gives an occurrence, and no occurrence stands between
/// `from` and it; it gives none where no occurrence follows.
pub proof fn lemma_find_from(text: Seq<char>, needle: Seq<char>, from: int)
    requires
        0 <= from,
    ensures
        find_from(text, needle, from) matches Some(at) ==> from <= at && occurs_at(
            text,
            needle,
            at,
        ) && forall|j: int| from <= j < at ==> !occurs_at(text, needle, j),
        find_from(text, needle, from) is None ==> forall|j: int|
            from <= j ==> !occurs_at(text, needle, j),
    decreases text.len() + 1 - from,
{
    if from + needle.len() <= text.len() && text.subrange(from, from + needle.len()) != needle {
        lemma_find_from(text, needle, from + 1);
    }
}

/// A text is found exactly where it is contained.
pub proof fn lemma_find_contains(text: Seq<char>, needle: Seq<char>)
    ensures
        (find(text, needle) is Some) == contains_text(text, needle),
{
    lemma_find_from(text, needle, 0);
    if find(text, needle) is Some {
        assert(occurs_at(text, needle, find(text, needle)->0));
    }
}

/// The characters that Unicode calls white space.
pub open spec fn is_space(c: char) -> bool {
    ||| '\u{9}' <= c <= '\u{d}'
    ||| c == ' '
    ||| c == '\u{85}'
    ||| c == '\u{a0}'
    ||| c == '\u{1680}'
    ||| '\u{2000}' <= c <= '\u{200a}'
    ||| c == '\u{2028}'
    ||| c == '\u{2029}'
    ||| c == '\u{202f}'
    ||| c == '\u{205f}'
    ||| c == '\u{3000}'
}

/// The text without its leading white space.
pub open spec fn trim_start(s: Seq<char>) -> Seq<char>
    decreases s.len(),
{
    if s.len() > 0 && is_space(s[0]) {
        trim_start(s.skip(1))
    } else {
        s
    }
}

/// The text without its trailing white space.
pub open spec fn trim_end(s: Seq<char>) -> Seq<char>
    decreases s.len(),
{
    if s.len() > 0 && is_space(s.last()) {
        trim_end(s.drop_last())
    } else {
        s
    }
}

/// The text without its leading and trailing white space.
pub open spec fn trim(s: Seq<char>) -> Seq<char> {
    trim_end(trim_start(s))
}

/// The pieces of a text between the characters that `cut` selects.
pub open spec fn split_where(s: Seq<char>, cut: spec_fn(char) -> bool) -> Seq<Seq<char>>
    decreases s.len(),
{
    if s.len() == 0 {
        seq![Seq::<char>::empty()]
    } else {
        let before = split_where(s.drop_last(), cut);
        if cut(s.last()) {
            before.push(Seq::<char>::empty())
        } else {
            before.drop_last().push(before.last().push(s.last()))
        }
    }
}

/// Selects the separator.
pub open spec fn cut_at(separator: char) -> spec_fn(char) -> bool {
    |c: char| c == separator
}

/// The pieces of a text between the separators; one piece where there is none.
pub open spec fn split(s: Seq<char>, separator: char) -> Seq<Seq<char>> {
    split_where(s, cut_at(separator))
}

/// The pieces that hold a character.
pub open spec fn nonempty(pieces: Seq<Seq<char>>) -> Seq<Seq<char>> {
    pieces.filter(|piece: Seq<char>| piece.len() > 0)
}

/// The longest runs of characters other than white space.
pub open spec fn words(s: Seq<char>) -> Seq<Seq<char>> {
    nonempty(split_where(s, |c: char| is_space(c)))
}

/// The pieces one after the other, with `glue` between neighbours.
pub open spec fn join(pieces: Seq<Seq<char>>, glue: Seq<char>) -> Seq<char>
    decreases pieces.len(),
{
    if pieces.len() == 0 {
        Seq::empty()
    } else if pieces.len() == 1 {
        pieces[0]
    } else {
        join(pieces.drop_last(), glue) + glue + pieces.last()
    }
}

/// The text with every `from` replaced by `to`.
pub open spec fn replace_char(s: Seq<char>, from: char, to: char) -> Seq<char> {
    s.map_values(|c: char| if c == from { to } else { c })
}

/// The lower-case form of an ASCII letter; any other character as it is.
pub open spec fn ascii_lower_char(c: char) -> char {
    if 'A' <= c <= 'Z' {
        (c as u8 + 32) as char
    } else {
        c
    }
}

/// The upper-case form of an ASCII letter; any other character as it is.
pub open spec fn ascii_upper_char(c: char) -> char {
    if 'a' <= c <= 'z' {
        (c as u8 - 32) as char
    } else {
        c
    }
}

/// The text with its ASCII letters in lower case.
pub open spec fn ascii_lower(s: Seq<char>) -> Seq<char> {
    s.map_values(|c: char| ascii_lower_char(c))
}

/// The text with its ASCII letters in upper case.
pub open spec fn ascii_upper(s: Seq<char>) -> Seq<char> {
    s.map_values(|c: char| ascii_upper_char(c))
}

/// Whether two texts differ at most in the case of ASCII letters.
pub open spec fn same_ignoring_ascii_case(a: Seq<char>, b: Seq<char>) -> bool {
    ascii_lower(a) == ascii_lower(b)
}

/// The digit of a number below sixteen.
pub open spec fn digit_char(d: nat) -> char {
    if d < 10 {
        (48 + d) as char
    } else {
        (87 + d) as char
    }
}

/// A number in decimal digits, without leading zeros.
pub open spec fn decimal(n: nat) -> Seq<char>
    decreases n,
{
    if n < 10 {
        seq![digit_char(n)]
    } else {
        decimal(n / 10).push(digit_char(n % 10))
    }
}

/// A number in lower-case hexadecimal digits, without leading zeros.
pub open spec fn hexadecimal(n: nat) -> Seq<char>
    decreases n,
{
    if n < 16 {
        seq![digit_char(n)]
    } else {
        hexadecimal(n / 16).push(digit_char(n % 16))
    }
}

/// Whether every character is an ASCII decimal digit.
pub open spec fn all_digits(s: Seq<char>) -> bool {
    forall|i: int| 0 <= i < s.len() ==> '0' <= #[trigger] s[i] <= '9'
}

/// The number that decimal digits stand for.
pub open spec fn digits_value(s: Seq<char>) -> nat
    decreases s.len(),
{
    if s.len() == 0 {
        0
    } else {
        digits_value(s.drop_last()) * 10 + (s.last() as nat - 48) as nat
    }
}

/// The number up to `max` that a text spells: decimal digits after at most one
/// plus sign.
pub open spec fn parse_unsigned(s: Seq<char>, max: nat) -> Option<nat> {
    let digits = if s.len() > 0 && s[0] == '+' {
        s.skip(1)
    } else {
        s
    };
    if digits.len() > 0 && all_digits(digits) && digits_value(digits) <= max {
        Some(digits_value(digits))
    } else {
        None
    }
}

/// Whether a list holds a text.
pub fn lists_text(list: &Vec<String>, wanted: &str) -> (r: bool)
    ensures
        r == texts(list@).contains(wanted@),
{
    let ghost all = texts(list@);
    let mut i: usize = 0;
    while i < list.len()
        invariant
            i <= list@.len(),
            all == texts(list@),
            forall|j: int| 0 <= j < i ==> #[trigger] all[j] != wanted@,
        decreases list@.len() - i,
    {
        assert(all[i as int] == list@[i as int]@);
        if same_text(list[i].as_str(), wanted) {
            return true;
        }
        i = i + 1;
    }
    false
}

/// Two texts, one after the other.
pub fn concat2(a: &str, b: &str) -> (r: String)
    ensures
        r@ == a@ + b@,
{
    let mut s = a.to_owned();
    s.append(b);
    s
}

/// Three texts, one after the other.
pub fn concat3(a: &str, b: &str, c: &str) -> (r: String)
    ensures
        r@ == a@ + b@ + c@,
{
    let mut s = concat2(a, b);
    s.append(c);
    s
}

/// Four texts, one after the other.
pub fn concat4(a: &str, b: &str, c: &str, d: &str) -> (r: String)
    ensures
        r@ == a@ + b@ + c@ + d@,
{
    let mut s = concat3(a, b, c);
    s.append(d);
    s
}

/// Five texts, one after the other.
pub fn concat5(a: &str, b: &str, c: &str, d: &str, e: &str) -> (r: String)
    ensures
        r@ == a@ + b@ + c@ + d@ + e@,
{
    let mut s = concat4(a, b, c, d);
    s.append(e);
    s
}

/// A copy of an optional text.
pub fn clone_optional(value: &Option<String>) -> (r: Option<String>)
    ensures
        r == *value,
{
    match value {
        Some(s) => Some(s.clone()),
        None => None,
    }
}

/// Whether the text opens with `prefix`.
pub fn has_prefix(s: &str, prefix: &str) -> (r: bool)
    ensures
        r == opens_with(s@, prefix@),
{
    let text = chars_of(s);
    let head = chars_of(prefix);
    stands_at(&text, &head, 0)
}

/// Whether `needle` stands in `text` at position `at`.
pub fn stands_at(text: &Vec<char>, needle: &Vec<char>, at: usize) -> (r: bool)
    requires
        at <= text@.len(),
    ensures
        r == occurs_at(text@, needle@, at as int),
        at == 0 ==> r == opens_with(text@, needle@),
{
    if needle.len() > text.len() - at {
        return false;
    }
    let mut i: usize = 0;
    let ghost window = text@.subrange(at as int, at + needle@.len());
    let len = text.len();
    while i < needle.len()
        invariant
            len == text@.len(),
            at + needle@.len() <= len,
            i <= needle@.len(),
            window == text@.subrange(at as int, at + needle@.len()),
            forall|j: int| 0 <= j < i ==> window[j] == needle@[j],
        decreases needle@.len() - i,
    {
        if text[at + i] != needle[i] {
            assert(window[i as int] != needle@[i as int]);
            assert(at == 0 ==> text@.take(needle@.len() as int) =~= window);
            return false;
        }
        i = i + 1;
    }
    assert(window =~= needle@);
    assert(at == 0 ==> text@.take(needle@.len() as int) =~= window);
    true
}

/// Whether the text closes with `suffix`.
pub fn has_suffix(s: &str, suffix: &str) -> (r: bool)
    ensures
        r == closes_with(s@, suffix@),
{
    let text = chars_of(s);
    let tail = chars_of(suffix);
    if tail.len() > text.len() {
        return false;
    }
    let at: usize = text.len() - tail.len();
    assert(text@.subrange(at as int, at + tail@.len()) =~= text@.skip(at as int));
    stands_at(&text, &tail, at)
}

/// What follows the prefix, if the text opens with it.
pub fn strip_prefix(s: &str, prefix: &str) -> (r: Option<String>)
    ensures
        opt_text(r) == after_prefix(s@, prefix@),
{
    let text = chars_of(s);
    let head = chars_of(prefix);
    if stands_at(&text, &head, 0) {
        let rest = text_between(&text, head.len(), text.len());
        assert(rest@ =~= s@.skip(prefix@.len() as int));
        Some(rest)
    } else {
        None
    }
}

/// What precedes the suffix, if the text closes with it.
pub fn strip_suffix(s: &str, suffix: &str) -> (r: Option<String>)
    ensures
        opt_text(r) == before_suffix(s@, suffix@),
{
    if has_suffix(s, suffix) {
        let text = chars_of(s);
        let tail = chars_of(suffix);
        let rest = text_between(&text, 0, text.len() - tail.len());
        assert(rest@ =~= s@.take(s@.len() - suffix@.len()));
        Some(rest)
    } else {
        None
    }
}

/// The first position at which `needle` stands in `text`.
pub fn find_chars(text: &Vec<char>, needle: &Vec<char>) -> (r: Option<usize>)
    ensures
        match find(text@, needle@) {
            Some(at) => r == Some(at as usize) && 0 <= at && at + needle@.len() <= text@.len(),
            None => r is None,
        },
{
    proof {
        lemma_find_from(text@, needle@, 0);
    }
    if needle.len() > text.len() {
        return None;
    }
    let last: usize = text.len() - needle.len();
    let mut at: usize = 0;
    while at <= last
        invariant
            last + needle@.len() == text@.len(),
            at <= last + 1,
            find(text@, needle@) == find_from(text@, needle@, at as int),
        decreases last + 1 - at,
    {
        if stands_at(text, needle, at) {
            return Some(at);
        }
        if at == last {
            assert(find_from(text@, needle@, at + 1) is None);
            return None;
        }
        at = at + 1;
    }
    None
}

/// Whether `needle` stands somewhere in the text.
pub fn has_text(s: &str, needle: &str) -> (r: bool)
    ensures
        r == contains_text(s@, needle@),
{
    proof {
        lemma_find_contains(s@, needle@);
    }
    let text = chars_of(s);
    let wanted = chars_of(needle);
    find_chars(&text, &wanted).is_some()
}

/// Whether the character stands in the text.
pub fn has_char(s: &str, wanted: char) -> (r: bool)
    ensures
        r == s@.contains(wanted),
{
    let text = chars_of(s);
    let mut i: usize = 0;
    while i < text.len()
        invariant
            text@ == s@,
            i <= text@.len(),
            forall|j: int| 0 <= j < i ==> text@[j] != wanted,
        decreases text@.len() - i,
    {
        if text[i] == wanted {
            assert(s@[i as int] == wanted);
            return true;
        }
        i = i + 1;
    }
    false
}

/// Whether Unicode calls the character white space.
pub fn is_whitespace(c: char) -> (r: bool)
    ensures
        r == is_space(c),
{
    ('\u{9}' <= c && c <= '\u{d}') || c == ' ' || c == '\u{85}' || c == '\u{a0}' || c == '\u{1680}'
        || ('\u{2000}' <= c && c <= '\u{200a}') || c == '\u{2028}' || c == '\u{2029}' || c
        == '\u{202f}' || c == '\u{205f}' || c == '\u{3000}'
}

/// The text without its leading and trailing white space.
pub fn trim_text(s: &str) -> (r: String)
    ensures
        r@ == trim(s@),
{
    let text = chars_of(s);
    let mut from: usize = 0;
    assert(text@.skip(0) =~= text@);
    while from < text.len() && is_whitespace(text[from])
        invariant
            text@ == s@,
            from <= text@.len(),
            trim_start(s@) == trim_start(text@.skip(from as int)),
        decreases text@.len() - from,
    {
        assert(text@.skip(from as int).skip(1) =~= text@.skip(from + 1));
        from = from + 1;
    }
    assert(trim_start(s@) == text@.skip(from as int));
    let mut to: usize = text.len();
    assert(text@.subrange(from as int, to as int) =~= text@.skip(from as int));
    while from < to && is_whitespace(text[to - 1])
        invariant
            text@ == s@,
            from <= to <= text@.len(),
            trim(s@) == trim_end(text@.subrange(from as int, to as int)),
        decreases to,
    {
        assert(text@.subrange(from as int, to as int).drop_last() =~= text@.subrange(
            from as int,
            to - 1,
        ));
        to = to - 1;
    }
    text_between(&text, from, to)
}

/// The text without its surrounding white space, if anything is left of it.
pub open spec fn trimmed(s: Seq<char>) -> Option<Seq<char>> {
    if trim(s).len() == 0 {
        None
    } else {
        Some(trim(s))
    }
}

/// The pieces of the text between the separators.
pub fn split_text(s: &str, separator: char) -> (r: Vec<String>)
    ensures
        texts(r@) == split(s@, separator),
{
    let text = chars_of(s);
    let mut pieces: Vec<String> = Vec::new();
    let mut current = String::new();
    let ghost cut = cut_at(separator);
    let mut i: usize = 0;
    assert(texts(pieces@).push(current@) =~= split_where(text@.take(0), cut));
    while i < text.len()
        invariant
            text@ == s@,
            i <= text@.len(),
            cut == cut_at(separator),
            texts(pieces@).push(current@) == split_where(text@.take(i as int), cut),
        decreases text@.len() - i,
    {
        let c = text[i];
        let ghost before = texts(pieces@).push(current@);
        assert(text@.take(i + 1).drop_last() =~= text@.take(i as int));
        assert(before.drop_last() =~= texts(pieces@));
        if c == separator {
            pieces.push(current);
            current = String::new();
            assert(texts(pieces@) =~= before);
        } else {
            current.push(c);
        }
        i = i + 1;
    }
    let ghost all = texts(pieces@).push(current@);
    pieces.push(current);
    assert(texts(pieces@) =~= all);
    assert(text@.take(text@.len() as int) =~= s@);
    pieces
}

/// The pieces that hold a character.
pub fn keep_nonempty(pieces: Vec<String>) -> (r: Vec<String>)
    ensures
        texts(r@) == nonempty(texts(pieces@)),
{
    let mut kept: Vec<String> = Vec::new();
    let ghost all = texts(pieces@);
    let ghost filled = |piece: Seq<char>| piece.len() > 0;
    let mut i: usize = 0;
    proof {
        reveal(Seq::filter);
        assert(texts(kept@) =~= all.take(0).filter(filled));
    }
    while i < pieces.len()
        invariant
            i <= pieces@.len(),
            all == texts(pieces@),
            filled == (|piece: Seq<char>| piece.len() > 0),
            texts(kept@) == all.take(i as int).filter(filled),
        decreases pieces@.len() - i,
    {
        proof {
            reveal(Seq::filter);
            assert(all.take(i + 1).drop_last() =~= all.take(i as int));
        }
        let ghost before = texts(kept@);
        if !pieces[i].as_str().is_empty() {
            kept.push(pieces[i].clone());
            assert(texts(kept@) =~= before.push(all[i as int]));
        }
        i = i + 1;
    }
    assert(all.take(all.len() as int) =~= all);
    kept
}

/// The words of the text: what stands between white space.
pub fn split_words(s: &str) -> (r: Vec<String>)
    ensures
        texts(r@) == words(s@),
{
    let text = chars_of(s);
    let mut pieces: Vec<String> = Vec::new();
    let mut current = String::new();
    let ghost cut = |c: char| is_space(c);
    let mut i: usize = 0;
    assert(texts(pieces@).push(current@) =~= split_where(text@.take(0), cut));
    while i < text.len()
        invariant
            text@ == s@,
            i <= text@.len(),
            cut == (|c: char| is_space(c)),
            texts(pieces@).push(current@) == split_where(text@.take(i as int), cut),
        decreases text@.len() - i,
    {
        let c = text[i];
        let ghost before = texts(pieces@).push(current@);
        assert(text@.take(i + 1).drop_last() =~= text@.take(i as int));
        assert(before.drop_last() =~= texts(pieces@));
        if is_whitespace(c) {
            pieces.push(current);
            current = String::new();
            assert(texts(pieces@) =~= before);
        } else {
            current.push(c);
        }
        i = i + 1;
    }
    let ghost all = texts(pieces@).push(current@);
    pieces.push(current);
    assert(texts(pieces@) =~= all);
    assert(text@.take(text@.len() as int) =~= s@);
    keep_nonempty(pieces)
}

/// The pieces one after the other, with `glue` between neighbours.
pub fn join_texts(pieces: &Vec<String>, glue: &str) -> (r: String)
    ensures
        r@ == join(texts(pieces@), glue@),
{
    let ghost all = texts(pieces@);
    let mut out = String::new();
    let mut i: usize = 0;
    assert(out@ =~= join(all.take(0), glue@));
    while i < pieces.len()
        invariant
            i <= pieces@.len(),
            all == texts(pieces@),
            out@ == join(all.take(i as int), glue@),
        decreases pieces@.len() - i,
    {
        assert(all.take(i + 1).drop_last() =~= all.take(i as int));
        assert(all.take(i + 1).last() == pieces@[i as int]@);
        if i > 0 {
            out.append(glue);
            out.append(pieces[i].as_str());
        } else {
            out = pieces[i].clone();
        }
        i = i + 1;
    }
    assert(all.take(all.len() as int) =~= all);
    out
}

/// The text with every `from` replaced by `to`.
pub fn replace_chars(s: &str, from: char, to: char) -> (r: String)
    ensures
        r@ == replace_char(s@, from, to),
{
    let text = chars_of(s);
    let mut out = String::new();
    let mut i: usize = 0;
    while i < text.len()
        invariant
            text@ == s@,
            i <= text@.len(),
            out@ == replace_char(s@.take(i as int), from, to),
        decreases text@.len() - i,
    {
        let c = text[i];
        let ghost before = out@;
        out.push(
            if c == from {
                to
            } else {
                c
            },
        );
        i = i + 1;
        assert(out@ =~= replace_char(s@.take(i as int), from, to));
    }
    assert(s@.take(s@.len() as int) =~= s@);
    out
}

/// The lower-case form of an ASCII letter; any other character as it is.
pub fn lower_ascii_char(c: char) -> (r: char)
    ensures
        r == ascii_lower_char(c),
{
    if 'A' <= c && c <= 'Z' {
        (c as u8 + 32u8) as char
    } else {
        c
    }
}

/// The upper-case form of an ASCII letter; any other character as it is.
pub fn upper_ascii_char(c: char) -> (r: char)
    ensures
        r == ascii_upper_char(c),
{
    if 'a' <= c && c <= 'z' {
        (c as u8 - 32u8) as char
    } else {
        c
    }
}

/// The text with its ASCII letters in lower case.
pub fn to_ascii_lower(s: &str) -> (r: String)
    ensures
        r@ == ascii_lower(s@),
{
    let text = chars_of(s);
    let mut out = String::new();
    let mut i: usize = 0;
    while i < text.len()
        invariant
            text@ == s@,
            i <= text@.len(),
            out@ == ascii_lower(s@.take(i as int)),
        decreases text@.len() - i,
    {
        out.push(lower_ascii_char(text[i]));
        i = i + 1;
        assert(out@ =~= ascii_lower(s@.take(i as int)));
    }
    assert(s@.take(s@.len() as int) =~= s@);
    out
}

/// The text with its ASCII letters in upper case.
pub fn to_ascii_upper(s: &str) -> (r: String)
    ensures
        r@ == ascii_upper(s@),
{
    let text = chars_of(s);
    let mut out = String::new();
    let mut i: usize = 0;
    while i < text.len()
        invariant
            text@ == s@,
            i <= text@.len(),
            out@ == ascii_upper(s@.take(i as int)),
        decreases text@.len() - i,
    {
        out.push(upper_ascii_char(text[i]));
        i = i + 1;
        assert(out@ =~= ascii_upper(s@.take(i as int)));
    }
    assert(s@.take(s@.len() as int) =~= s@);
    out
}

/// Whether two texts differ at most in the case of ASCII letters.
pub fn equal_ignoring_ascii_case(a: &str, b: &str) -> (r: bool)
    ensures
        r == same_ignoring_ascii_case(a@, b@),
{
    to_ascii_lower(a) == to_ascii_lower(b)
}

/// The digit of a number below sixteen.
fn digit_of(d: u8) -> (r: char)
    requires
        d < 16,
    ensures
        r == digit_char(d as nat),
{
    if d < 10 {
        (48u8 + d) as char
    } else {
        (87u8 + d) as char
    }
}

/// The number in decimal digits.
pub fn decimal_text(n: u128) -> (r: String)
    ensures
        r@ == decimal(n as nat),
    decreases n,
{
    let last = digit_of((n % 10) as u8);
    if n < 10 {
        let mut out = String::new();
        out.push(last);
        assert(out@ =~= decimal(n as nat));
        out
    } else {
        let mut out = decimal_text(n / 10);
        out.push(last);
        out
    }
}

/// The number in lower-case hexadecimal digits.
pub fn hexadecimal_text(n: u128) -> (r: String)
    ensures
        r@ == hexadecimal(n as nat),
    decreases n,
{
    let last = digit_of((n % 16) as u8);
    if n < 16 {
        let mut out = String::new();
        out.push(last);
        assert(out@ =~= hexadecimal(n as nat));
        out
    } else {
        let mut out = hexadecimal_text(n / 16);
        out.push(last);
        out
    }
}

/// The number up to `max` that the text spells.
pub fn parse_number(s: &str, max: u32) -> (r: Option<u32>)
    ensures
        match parse_unsigned(s@, max as nat) {
            Some(n) => r == Some(n as u32) && n <= max,
            None => r is None,
        },
{
    let text = chars_of(s);
    let start: usize = if text.len() > 0 && text[0] == '+' {
        1
    } else {
        0
    };
    let ghost digits = text@.skip(start as int);
    assert(digits =~= if s@.len() > 0 && s@[0] == '+' {
        s@.skip(1)
    } else {
        s@
    });
    if start == text.len() {
        return None;
    }
    let mut value: u64 = 0;
    let mut over = false;
    let mut i: usize = start;
    while i < text.len()
        invariant
            start <= i <= text@.len(),
            digits == text@.skip(start as int),
            digits == if s@.len() > 0 && s@[0] == '+' {
                s@.skip(1)
            } else {
                s@
            },
            all_digits(digits.take(i - start)),
            over ==> digits_value(digits.take(i - start)) > max,
            !over ==> value == digits_value(digits.take(i - start)) && value <= max,
        decreases text@.len() - i,
    {
        let c = text[i];
        let ghost at = (i - start) as int;
        assert(digits[at] == c);
        if c < '0' || '9' < c {
            assert(!all_digits(digits));
            return None;
        }
        assert(digits.take(at + 1).drop_last() =~= digits.take(at));
        assert(digits.take(at + 1).last() == c);
        assert forall|j: int| 0 <= j < digits.take(at + 1).len() implies '0' <= #[trigger] digits.take(
            at + 1,
        )[j] <= '9' by {
            if j < at {
                assert(digits.take(at)[j] == digits.take(at + 1)[j]);
            }
        }
        if !over {
            value = value * 10 + (c as u8 - 48u8) as u64;
            if value > max as u64 {
                over = true;
            }
        }
        i = i + 1;
    }
    assert(digits.take(digits.len() as int) =~= digits);
    if over {
        None
    } else {
        Some(value as u32)
    }
}

/// Every piece that is kept is one of the pieces.
pub proof fn lemma_nonempty_members(pieces: Seq<Seq<char>>)
    ensures
        forall|i: int|
            0 <= i < nonempty(pieces).len() ==> pieces.contains(#[trigger] nonempty(pieces)[i]),
    decreases pieces.len(),
{
    reveal(Seq::filter);
    if pieces.len() > 0 {
        let front = pieces.drop_last();
        lemma_nonempty_members(front);
        assert forall|i: int| 0 <= i < nonempty(pieces).len() implies pieces.contains(
            #[trigger] nonempty(pieces)[i],
        ) by {
            if i < nonempty(front).len() {
                assert(nonempty(pieces)[i] == nonempty(front)[i]);
                let at = choose|at: int|
                    0 <= at < front.len() && front[at] == nonempty(front)[i];
                assert(pieces[at] == nonempty(pieces)[i]);
            } else {
                assert(pieces[pieces.len() - 1] == nonempty(pieces)[i]);
            }
        }
    }
}

/// Whether the separator stands in none of the pieces.
pub open spec fn free_of(pieces: Seq<Seq<char>>, separator: char) -> bool {
    forall|i: int| 0 <= i < pieces.len() ==> !(#[trigger] pieces[i]).contains(separator)
}

proof fn lemma_contains_push(s: Seq<char>, c: char, wanted: char)
    ensures
        s.push(c).contains(wanted) == (s.contains(wanted) || c == wanted),
{
    if s.contains(wanted) {
        let i = choose|i: int| 0 <= i < s.len() && s[i] == wanted;
        assert(s.push(c)[i] == wanted);
    }
    if c == wanted {
        assert(s.push(c)[s.len() as int] == wanted);
    }
    if s.push(c).contains(wanted) && c != wanted {
        let i = choose|i: int| 0 <= i < s.push(c).len() && s.push(c)[i] == wanted;
        assert(s[i] == wanted);
    }
}

/// Splitting gives at least one piece, and no piece holds the separator.
pub proof fn law_split_is_free_of_separator(s: Seq<char>, separator: char)
    ensures
        split(s, separator).len() >= 1,
        free_of(split(s, separator), separator),
    decreases s.len(),
{
    let pieces = split(s, separator);
    if s.len() > 0 {
        law_split_is_free_of_separator(s.drop_last(), separator);
        let before = split(s.drop_last(), separator);
        assert forall|i: int| 0 <= i < pieces.len() implies !(#[trigger] pieces[i]).contains(
            separator,
        ) by {
            if i < pieces.len() - 1 {
                assert(pieces[i] == before[i]);
            } else if s.last() != separator {
                lemma_contains_push(before.last(), s.last(), separator);
                assert(!before[before.len() - 1].contains(separator));
            }
        }
    }
}

/// Joining the pieces of a split with the separator gives the text back.
pub proof fn law_join_undoes_split(s: Seq<char>, separator: char)
    ensures
        join(split(s, separator), seq![separator]) == s,
    decreases s.len(),
{
    let glue = seq![separator];
    let pieces = split(s, separator);
    law_split_is_free_of_separator(s, separator);
    if s.len() == 0 {
        assert(pieces[0] =~= s);
    } else {
        let shorter = s.drop_last();
        let before = split(shorter, separator);
        law_join_undoes_split(shorter, separator);
        law_split_is_free_of_separator(shorter, separator);
        if s.last() == separator {
            assert(pieces.drop_last() =~= before);
            assert(join(pieces, glue) =~= shorter.push(separator));
        } else {
            assert(pieces.drop_last() =~= before.drop_last());
            if before.len() > 1 {
                assert(join(pieces, glue) =~= join(before, glue).push(s.last()));
            }
        }
        assert(shorter.push(s.last()) =~= s);
    }
}

proof fn lemma_split_append(s: Seq<char>, tail: Seq<char>, separator: char)
    requires
        !tail.contains(separator),
    ensures
        split(s + tail, separator) == split(s, separator).drop_last().push(
            split(s, separator).last() + tail,
        ),
    decreases tail.len(),
{
    law_split_is_free_of_separator(s, separator);
    let base = split(s, separator);
    if tail.len() == 0 {
        assert(s + tail =~= s);
        assert(base.last() + tail =~= base.last());
        assert(base.drop_last().push(base.last()) =~= base);
    } else {
        let shorter = tail.drop_last();
        lemma_contains_push(shorter, tail.last(), separator);
        assert(shorter.push(tail.last()) =~= tail);
        lemma_split_append(s, shorter, separator);
        assert((s + tail).drop_last() =~= s + shorter);
        assert((base.last() + shorter).push(tail.last()) =~= base.last() + tail);
        assert(base.drop_last().push(base.last() + shorter).drop_last() =~= base.drop_last());
    }
}

/// Splitting what was joined with the separator gives the pieces back, if there
/// are any and none of them holds the separator.
pub proof fn law_split_undoes_join(pieces: Seq<Seq<char>>, separator: char)
    requires
        pieces.len() > 0,
        free_of(pieces, separator),
    ensures
        split(join(pieces, seq![separator]), separator) == pieces,
    decreases pieces.len(),
{
    let glue = seq![separator];
    let last = pieces.last();
    assert(!pieces[pieces.len() - 1].contains(separator));
    if pieces.len() == 1 {
        lemma_split_append(Seq::<char>::empty(), last, separator);
        let nothing = Seq::<char>::empty();
        assert(nothing + last =~= last);
        assert(split(nothing, separator) =~= seq![nothing]);
        assert(split(last, separator) =~= pieces);
    } else {
        let front = pieces.drop_last();
        assert forall|i: int| 0 <= i < front.len() implies !(#[trigger] front[i]).contains(
            separator,
        ) by {
            assert(front[i] == pieces[i]);
        }
        law_split_undoes_join(front, separator);
        let head = join(front, glue) + glue;
        assert(head.drop_last() =~= join(front, glue));
        assert(split(head, separator) =~= front.push(Seq::<char>::empty()));
        lemma_split_append(head, last, separator);
        assert(Seq::<char>::empty() + last =~= last);
        assert(split(head + last, separator) =~= pieces);
    }
}

/// Trimming leaves no white space at either end.
pub proof fn law_trim_leaves_no_outer_space(s: Seq<char>)
    ensures
        trim(s).len() > 0 ==> !is_space(trim(s)[0]) && !is_space(trim(s).last()),
        trim(trim(s)) == trim(s),
{
    lemma_trim_start(s);
    lemma_trim_end(trim_start(s));
}

proof fn lemma_trim_start(s: Seq<char>)
    ensures
        trim_start(s).len() > 0 ==> !is_space(trim_start(s)[0]),
    decreases s.len(),
{
    if s.len() > 0 && is_space(s[0]) {
        lemma_trim_start(s.skip(1));
    }
}

proof fn lemma_trim_end(s: Seq<char>)
    ensures
        trim_end(s).len() > 0 ==> !is_space(trim_end(s).last()) && trim_end(s)[0] == s[0],
    decreases s.len(),
{
    if s.len() > 0 && is_space(s.last()) {
        lemma_trim_end(s.drop_last());
    }
}

proof fn lemma_decimal_digits(n: nat)
    ensures
        decimal(n).len() >= 1,
        all_digits(decimal(n)),
        digits_value(decimal(n)) == n,
    decreases n,
{
    let last = digit_char(n % 10);
    assert('0' <= last <= '9');
    if n < 10 {
        assert(n % 10 == n);
        let digits = decimal(n);
        assert(digits =~= seq![last]);
        assert(digits.drop_last() =~= Seq::<char>::empty());
        assert(digits_value(digits.drop_last()) == 0);
    } else {
        lemma_decimal_digits(n / 10);
        let front = decimal(n / 10);
        let digits = decimal(n);
        assert(digits.drop_last() =~= front);
        assert(digits.last() == last);
        assert forall|i: int| 0 <= i < digits.len() implies '0' <= #[trigger] digits[i] <= '9' by {
            if i < front.len() {
                assert(digits[i] == front[i]);
            }
        }
    }
}

proof fn lemma_trim_of_digits(s: Seq<char>)
    requires
        all_digits(s),
    ensures
        trim(s) == s,
{
    if s.len() > 0 {
        assert(!is_space(s[0]));
        assert(!is_space(s.last()));
    }
}

/// A number is read back from its decimal digits.
pub proof fn law_parse_undoes_decimal(n: nat, max: nat)
    requires
        n <= max,
    ensures
        parse_unsigned(decimal(n), max) == Some(n),
        trim(decimal(n)) == decimal(n),
{
    lemma_decimal_digits(n);
    lemma_trim_of_digits(decimal(n));
}

/// What is joined holds each of its pieces.
pub proof fn lemma_join_holds_its_pieces(pieces: Seq<Seq<char>>, glue: Seq<char>, i: int)
    requires
        0 <= i < pieces.len(),
    ensures
        contains_text(join(pieces, glue), pieces[i]),
    decreases pieces.len(),
{
    let whole = join(pieces, glue);
    if pieces.len() == 1 {
        assert(whole.subrange(0, whole.len() as int) =~= pieces[0]);
        assert(occurs_at(whole, pieces[0], 0));
    } else if i == pieces.len() - 1 {
        let at = whole.len() - pieces[i].len();
        assert(whole.subrange(at, at + pieces[i].len()) =~= pieces[i]);
        assert(occurs_at(whole, pieces[i], at));
    } else {
        let front = pieces.drop_last();
        lemma_join_holds_its_pieces(front, glue, i);
        assert(front[i] == pieces[i]);
        let at = choose|at: int| occurs_at(join(front, glue), pieces[i], at);
        assert(whole.subrange(at, at + pieces[i].len()) =~= join(front, glue).subrange(
            at,
            at + pieces[i].len(),
        ));
        assert(occurs_at(whole, pieces[i], at));
    }
}

/// Whether a text consists of white space.
pub open spec fn all_space(s: Seq<char>) -> bool {
    forall|i: int| 0 <= i < s.len() ==> is_space(#[trigger] s[i])
}

proof fn lemma_trim_start_skips(front: Seq<char>, s: Seq<char>)
    requires
        all_space(front),
        s.len() == 0 || !is_space(s[0]),
    ensures
        trim_start(front + s) == s,
    decreases front.len(),
{
    if front.len() == 0 {
        assert(front + s =~= s);
    } else {
        assert(is_space(front[0]));
        assert((front + s)[0] == front[0]);
        assert((front + s).skip(1) =~= front.skip(1) + s);
        assert forall|i: int| 0 <= i < front.skip(1).len() implies is_space(
            #[trigger] front.skip(1)[i],
        ) by {
            assert(front.skip(1)[i] == front[i + 1]);
        }
        lemma_trim_start_skips(front.skip(1), s);
    }
}

proof fn lemma_trim_end_drops(s: Seq<char>, back: Seq<char>)
    requires
        all_space(back),
        s.len() == 0 || !is_space(s.last()),
    ensures
        trim_end(s + back) == s,
    decreases back.len(),
{
    if back.len() == 0 {
        assert(s + back =~= s);
    } else {
        assert(is_space(back[back.len() - 1]));
        assert((s + back).last() == back.last());
        assert((s + back).drop_last() =~= s + back.drop_last());
        assert forall|i: int| 0 <= i < back.drop_last().len() implies is_space(
            #[trigger] back.drop_last()[i],
        ) by {
            assert(back.drop_last()[i] == back[i]);
        }
        lemma_trim_end_drops(s, back.drop_last());
    }
}

/// What trimming does: it takes the white space from both ends and nothing else; a
/// text of white space alone leaves nothing.
pub proof fn law_trim_takes_only_outer_space(front: Seq<char>, s: Seq<char>, back: Seq<char>)
    requires
        all_space(front),
        all_space(back),
        s.len() > 0 ==> !is_space(s[0]) && !is_space(s.last()),
    ensures
        trim(front + s + back) == s,
        trimmed(front + s + back) == if s.len() == 0 {
            None
        } else {
            Some(s)
        },
{
    if s.len() == 0 {
        let whole = front + s + back;
        assert forall|i: int| 0 <= i < whole.len() implies is_space(#[trigger] whole[i]) by {
            if i < front.len() {
                assert(whole[i] == front[i]);
            } else {
                assert(whole[i] == back[i - front.len()]);
            }
        }
        assert(whole + s =~= whole);
        lemma_trim_start_skips(whole, s);
        assert(trim_end(s) =~= s);
    } else {
        assert(front + s + back =~= front + (s + back));
        assert((s + back)[0] == s[0]);
        lemma_trim_start_skips(front, s + back);
        lemma_trim_end_drops(s, back);
    }
}

/// What counts as white space among the ASCII characters: the blank, the tab and the
/// line breaks.
pub proof fn law_ascii_white_space(c: char)
    requires
        c < '\u{80}',
    ensures
        is_space(c) <==> c == ' ' || c == '\t' || c == '\n' || c == '\r' || c == '\u{b}' || c
            == '\u{c}',
{
}

/// How pieces are joined: a list of one piece is that piece, and two lists are joined
/// with the glue between them.
pub proof fn law_glue_stands_between_neighbours(
    first: Seq<Seq<char>>,
    second: Seq<Seq<char>>,
    glue: Seq<char>,
)
    requires
        first.len() > 0,
        second.len() > 0,
    ensures
        join(first + second, glue) == join(first, glue) + glue + join(second, glue),
        join(seq![first[0]], glue) == first[0],
        join(Seq::<Seq<char>>::empty(), glue) == Seq::<char>::empty(),
    decreases second.len(),
{
    let whole = first + second;
    if second.len() == 1 {
        assert(whole.drop_last() =~= first);
        assert(join(whole, glue) =~= join(first, glue) + glue + join(second, glue));
    } else {
        law_glue_stands_between_neighbours(first, second.drop_last(), glue);
        assert(whole.drop_last() =~= first + second.drop_last());
        assert(join(whole, glue) =~= join(first, glue) + glue + join(second, glue));
    }
}

/// Which pieces hold a character: one more piece is kept at the end exactly where it
/// does.
pub proof fn law_only_empty_pieces_are_dropped(pieces: Seq<Seq<char>>, piece: Seq<char>)
    ensures
        nonempty(Seq::empty()) == Seq::<Seq<char>>::empty(),
        nonempty(pieces.push(piece)) == if piece.len() > 0 {
            nonempty(pieces).push(piece)
        } else {
            nonempty(pieces)
        },
{
    reveal(Seq::filter);
    assert(pieces.push(piece).drop_last() =~= pieces);
    assert(nonempty(Seq::empty()) =~= Seq::<Seq<char>>::empty());
}

/// Cutting and replacing character by character: only the wanted character changes.
pub proof fn law_replacing_changes_one_character(s: Seq<char>, from: char, to: char, i: int)
    requires
        0 <= i < s.len(),
    ensures
        replace_char(s, from, to).len() == s.len(),
        s[i] == from ==> replace_char(s, from, to)[i] == to,
        s[i] != from ==> replace_char(s, from, to)[i] == s[i],
{
}

/// The case of ASCII letters: `A` to `Z` and `a` to `z` are each other's other case,
/// and no other character has one.
pub proof fn law_case_of_ascii_letters(s: Seq<char>, i: int)
    requires
        0 <= i < s.len(),
    ensures
        ascii_lower(s).len() == s.len(),
        ascii_upper(s).len() == s.len(),
        'A' <= s[i] <= 'Z' ==> ascii_lower(s)[i] as int == s[i] as int + 32 && ascii_upper(s)[i]
            == s[i],
        'a' <= s[i] <= 'z' ==> ascii_upper(s)[i] as int == s[i] as int - 32 && ascii_lower(s)[i]
            == s[i],
        !('A' <= s[i] <= 'Z') && !('a' <= s[i] <= 'z') ==> ascii_lower(s)[i] == s[i]
            && ascii_upper(s)[i] == s[i],
{
}

/// Texts that differ in the case of ASCII letters at most: they have one length, and
/// at each place one character or one letter in two cases.
pub proof fn law_case_is_ignored(a: Seq<char>, b: Seq<char>)
    ensures
        same_ignoring_ascii_case(a, b) <==> a.len() == b.len() && forall|i: int|
            0 <= i < a.len() ==> {
                let x = #[trigger] a[i];
                let y = b[i];
                x == y || ('A' <= x <= 'Z' && y as int == x as int + 32) || ('A' <= y <= 'Z'
                    && x as int == y as int + 32)
            },
{
    let x = ascii_lower(a);
    let y = ascii_lower(b);
    if same_ignoring_ascii_case(a, b) {
        assert(x.len() == y.len());
        assert forall|i: int| 0 <= i < a.len() implies a[i] == b[i] || ('A' <= a[i] <= 'Z'
            && b[i] as int == a[i] as int + 32) || ('A' <= b[i] <= 'Z' && a[i] as int == b[i] as int
            + 32) by {
            assert(x[i] == y[i]);
            assert(x[i] == ascii_lower_char(a[i]));
            assert(y[i] == ascii_lower_char(b[i]));
        }
    }
    if a.len() == b.len() && forall|i: int|
        0 <= i < a.len() ==> {
            let c = #[trigger] a[i];
            let d = b[i];
            c == d || ('A' <= c <= 'Z' && d as int == c as int + 32) || ('A' <= d <= 'Z'
                && c as int == d as int + 32)
        } {
        assert forall|i: int| 0 <= i < a.len() implies x[i] == y[i] by {
            assert(a[i] == a[i]);
            assert(ascii_lower_char(a[i]) == ascii_lower_char(b[i]));
        }
        assert(x =~= y);
    }
}

proof fn lemma_split_where_blank(s: Seq<char>, c: char, cut: spec_fn(char) -> bool)
    requires
        cut(c),
    ensures
        split_where(s.push(c), cut) == split_where(s, cut).push(Seq::<char>::empty()),
{
    assert(s.push(c).drop_last() =~= s);
}

proof fn lemma_split_where_word(s: Seq<char>, word: Seq<char>, cut: spec_fn(char) -> bool)
    requires
        forall|i: int| 0 <= i < word.len() ==> !cut(#[trigger] word[i]),
    ensures
        split_where(s, cut).len() > 0,
        split_where(s + word, cut) == split_where(s, cut).drop_last().push(
            split_where(s, cut).last() + word,
        ),
    decreases s.len() + word.len(),
{
    let base = split_where(s, cut);
    if word.len() == 0 {
        if s.len() > 0 {
            lemma_split_where_word(s.drop_last(), word, cut);
        }
        assert(s + word =~= s);
        assert(base.last() + word =~= base.last());
        assert(base.drop_last().push(base.last()) =~= base);
    } else {
        let shorter = word.drop_last();
        assert forall|i: int| 0 <= i < shorter.len() implies !cut(#[trigger] shorter[i]) by {
            assert(shorter[i] == word[i]);
        }
        lemma_split_where_word(s, shorter, cut);
        assert((s + word).drop_last() =~= s + shorter);
        assert((s + word).last() == word.last());
        assert(!cut(word[word.len() - 1]));
        assert((base.last() + shorter).push(word.last()) =~= base.last() + word);
        assert(base.drop_last().push(base.last() + shorter).drop_last() =~= base.drop_last());
    }
}

/// What the words of a text are: white space separates them and is no part of them.
/// White space at the end adds none, and what follows white space is a word of its
/// own.
pub proof fn law_words_stand_between_white_space(s: Seq<char>, blank: char, word: Seq<char>)
    requires
        is_space(blank),
        word.len() > 0,
        forall|i: int| 0 <= i < word.len() ==> !is_space(#[trigger] word[i]),
    ensures
        words(Seq::empty()) == Seq::<Seq<char>>::empty(),
        words(word) == seq![word],
        words(s.push(blank)) == words(s),
        words(s.push(blank) + word) == words(s).push(word),
{
    let cut = |c: char| is_space(c);
    let nothing = Seq::<char>::empty();
    let pieces = split_where(s, cut);
    law_only_empty_pieces_are_dropped(pieces, nothing);
    law_only_empty_pieces_are_dropped(pieces, word);
    law_only_empty_pieces_are_dropped(Seq::empty(), nothing);
    law_only_empty_pieces_are_dropped(Seq::empty(), word);
    assert(split_where(nothing, cut) =~= Seq::<Seq<char>>::empty().push(nothing));
    lemma_split_where_word(nothing, word, cut);
    assert(nothing + word =~= word);
    assert(split_where(word, cut) =~= Seq::<Seq<char>>::empty().push(word));
    assert(Seq::<Seq<char>>::empty().push(word) =~= seq![word]);
    lemma_split_where_blank(s, blank, cut);
    lemma_split_where_word(s.push(blank), word, cut);
    assert(split_where(s.push(blank) + word, cut) =~= pieces.push(word));
}

/// How a number is written: a digit for a number below the base, else the digits of
/// the number without its last digit, and that digit.
pub proof fn law_digits_of_a_number(n: nat, d: nat)
    ensures
        d < 10 ==> decimal(d).len() == 1 && decimal(d)[0] as int == 48 + d,
        d < 10 && n > 0 ==> decimal(10 * n + d) == decimal(n) + decimal(d),
        d < 16 ==> hexadecimal(d).len() == 1 && hexadecimal(d)[0] as int == d + if d < 10 {
            48int
        } else {
            87int
        },
        d < 16 && n > 0 ==> hexadecimal(16 * n + d) == hexadecimal(n) + hexadecimal(d),
{
    if d < 10 && n > 0 {
        assert((10 * n + d) / 10 == n) by (nonlinear_arith)
            requires
                d < 10,
        ;
        assert((10 * n + d) % 10 == d) by (nonlinear_arith)
            requires
                d < 10,
        ;
        assert(decimal(10 * n + d) =~= decimal(n) + decimal(d));
    }
    if d < 16 && n > 0 {
        assert((16 * n + d) / 16 == n) by (nonlinear_arith)
            requires
                d < 16,
        ;
        assert((16 * n + d) % 16 == d) by (nonlinear_arith)
            requires
                d < 16,
        ;
        assert(hexadecimal(16 * n + d) =~= hexadecimal(n) + hexadecimal(d));
    }
}

/// Which texts spell a number: decimal digits, after a plus sign or without one; the
/// number is the one whose digits they are, and it is not above the limit.
pub proof fn law_number_is_spelled_by_digits(s: Seq<char>, max: nat)
    ensures
        parse_unsigned(s, max) matches Some(n) ==> n <= max && s.len() > 0 && forall|i: int|
            0 < i < s.len() ==> '0' <= #[trigger] s[i] <= '9',
        parse_unsigned(s, max) matches Some(n) ==> ('0' <= s[0] <= '9') || (s[0] == '+' && s.len()
            > 1),
        s.len() > 0 && s[0] != '+' ==> parse_unsigned(seq!['+'] + s, max) == parse_unsigned(s, max),
        parse_unsigned(s, max) is Some && s[0] != '+' ==> forall|c: char|
            '0' <= c <= '9' && parse_unsigned(s, max)->0 * 10 + (c as nat - 48) <= max
                ==> #[trigger] parse_unsigned(s.push(c), max) == Some(
                (parse_unsigned(s, max)->0 * 10 + (c as nat - 48)) as nat,
            ),
{
    if let Some(n) = parse_unsigned(s, max) {
        let digits = if s[0] == '+' {
            s.skip(1)
        } else {
            s
        };
        assert forall|i: int| 0 < i < s.len() implies '0' <= #[trigger] s[i] <= '9' by {
            if s[0] == '+' {
                assert(digits[i - 1] == s[i]);
            } else {
                assert(digits[i] == s[i]);
            }
        }
        assert(digits.len() > 0);
        assert('0' <= digits[0] <= '9');
        if s[0] != '+' {
            assert forall|c: char|
                '0' <= c <= '9' && parse_unsigned(s, max)->0 * 10 + (c as nat - 48)
                    <= max implies #[trigger] parse_unsigned(s.push(c), max) == Some(
                (parse_unsigned(s, max)->0 * 10 + (c as nat - 48)) as nat,
            ) by {
                let longer = s.push(c);
                assert(longer.drop_last() =~= s);
                assert forall|i: int| 0 <= i < longer.len() implies '0' <= #[trigger] longer[i]
                    <= '9' by {
                    if i < s.len() {
                        assert(longer[i] == s[i]);
                    }
                }
            }
        }
    }
    if s.len() > 0 && s[0] != '+' {
        let plus = seq!['+'] + s;
        assert(plus.skip(1) =~= s);
    }
}

/// Where a text stands in another one: what is found stands there, and stands nowhere
/// before; where nothing is found it stands nowhere.
pub proof fn law_first_occurrence_is_found(
    front: Seq<char>,
    needle: Seq<char>,
    back: Seq<char>,
)
    ensures
        find(front + needle + back, needle) matches Some(at) && 0 <= at <= front.len() && (front
            + needle + back).subrange(at, at + needle.len()) == needle,
        contains_text(front + needle + back, needle),
        opens_with(needle + back, needle) && after_prefix(needle + back, needle) == Some(back),
        closes_with(front + needle, needle) && before_suffix(front + needle, needle) == Some(
            front,
        ),
{
    let whole = front + needle + back;
    let at = front.len() as int;
    assert(whole.subrange(at, at + needle.len()) =~= needle);
    assert(occurs_at(whole, needle, at));
    lemma_find_from(whole, needle, 0);
    lemma_find_contains(whole, needle);
    assert((needle + back).take(needle.len() as int) =~= needle);
    assert((needle + back).skip(needle.len() as int) =~= back);
    assert((front + needle).skip(front.len() as int) =~= needle);
    assert((front + needle).take(front.len() as int) =~= front);
}

/// A text opens or closes with another one only where that one is its beginning or
/// its end, and it is contained only where it stands.
pub proof fn law_parts_of_a_text(s: Seq<char>, part: Seq<char>)
    ensures
        opens_with(s, part) ==> s == part + s.skip(part.len() as int),
        closes_with(s, part) ==> s == s.take(s.len() - part.len()) + part,
        after_prefix(s, part) is Some <==> opens_with(s, part),
        before_suffix(s, part) is Some <==> closes_with(s, part),
        contains_text(s, part) ==> exists|at: int|
            0 <= at && at + part.len() <= s.len() && #[trigger] s.subrange(at, at + part.len())
                == part,
        find(s, part) is None ==> !contains_text(s, part),
        find(s, part) matches Some(at) ==> forall|i: int|
            0 <= i < at ==> #[trigger] s.subrange(i, i + part.len()) != part,
{
    if opens_with(s, part) {
        assert(s =~= part + s.skip(part.len() as int));
    }
    if closes_with(s, part) {
        assert(s =~= s.take(s.len() - part.len()) + part);
    }
    lemma_find_contains(s, part);
    lemma_find_from(s, part, 0);
    if contains_text(s, part) {
        let at = choose|at: int| occurs_at(s, part, at);
        assert(s.subrange(at, at + part.len()) == part);
    }
    if let Some(at) = find(s, part) {
        assert forall|i: int| 0 <= i < at implies #[trigger] s.subrange(i, i + part.len())
            != part by {
            assert(!occurs_at(s, part, i));
        }
    }
}

} // verus!
