//! Texts as sequences of characters: comparing, trimming, and reading and writing
//! numerals.

use vstd::prelude::*;

verus! {

/// The characters of a text, in order.
pub fn chars_of(text: &str) -> (r: Vec<char>)
    ensures
        r@ == text@,
{
    let mut out: Vec<char> = Vec::new();
    for c in it: text.chars()
        invariant
            it.seq() == text@,
            out@ == text@.take(it.index() as int),
    {
        out.push(c);
        assert(out@ =~= text@.take(it.index() + 1));
    }
    assert(text@.take(text@.len() as int) =~= text@);
    out
}

/// Whether two texts are equal.
pub fn same_text(a: &str, b: &str) -> (r: bool)
    ensures
        r == (a@ == b@),
{
    a.to_owned() == b.to_owned()
}

/// `text` ends in `suffix`.
pub open spec fn has_suffix<T>(text: Seq<T>, suffix: Seq<T>) -> bool {
    text.len() >= suffix.len() && text.skip(text.len() - suffix.len()) == suffix
}

/// `text` begins with `prefix`.
pub open spec fn has_prefix<T>(text: Seq<T>, prefix: Seq<T>) -> bool {
    text.len() >= prefix.len() && text.take(prefix.len() as int) == prefix
}

/// What is left of `text` behind `prefix`, where it begins with it.
pub fn strip_prefix(text: &str, prefix: &str) -> (r: Option<String>)
    ensures
        r is Some <==> has_prefix(text@, prefix@),
        r matches Some(rest) ==> text@ == prefix@ + rest@,
{
    let n: usize = text.unicode_len();
    let k: usize = prefix.unicode_len();
    if n < k {
        return None;
    }
    let head = text.substring_char(0, k);
    assert(head@ =~= text@.take(k as int));
    if same_text(head, prefix) {
        let rest = text.substring_char(k, n);
        assert(text@ =~= prefix@ + rest@);
        Some(rest.to_owned())
    } else {
        None
    }
}

/// `text` without the copies of `prefix` that it begins with.
pub open spec fn without_prefixes(text: Seq<char>, prefix: Seq<char>) -> Seq<char>
    decreases text.len(),
{
    if prefix.len() > 0 && has_prefix(text, prefix) {
        without_prefixes(text.skip(prefix.len() as int), prefix)
    } else {
        text
    }
}

/// Takes off every copy of `prefix` that `text` begins with.
pub fn trim_prefixes(text: &str, prefix: &str) -> (r: String)
    requires
        prefix@.len() > 0,
    ensures
        r@ == without_prefixes(text@, prefix@),
{
    let mut rest: String = text.to_owned();
    loop
        invariant
            prefix@.len() > 0,
            without_prefixes(rest@, prefix@) == without_prefixes(text@, prefix@),
        decreases rest@.len(),
    {
        match strip_prefix(rest.as_str(), prefix) {
            Some(shorter) => {
                assert(shorter@ =~= rest@.skip(prefix@.len() as int));
                rest = shorter;
            },
            None => {
                return rest;
            },
        }
    }
}

/// The characters with the Unicode property White_Space.
pub open spec fn white_space(c: char) -> bool {
    ||| '\u{9}' <= c <= '\u{d}'
    ||| c == ' '
    ||| c == '\u{85}'
    ||| c == '\u{a0}'
    ||| c == '\u{1680}'
    ||| '\u{2000}' <= c <= '\u{200a}'
    ||| c == '\u{2028}'
    ||| c == '\u{2029}'
    ||| c == '\u{202f}'
    ||| c == '\u{205f}'
    ||| c == '\u{3000}'
}

/// Whether a character has the Unicode property White_Space.
pub fn is_white_space(c: char) -> (r: bool)
    ensures
        r == white_space(c),
{
    ('\u{9}' <= c && c <= '\u{d}') || c == ' ' || c == '\u{85}' || c == '\u{a0}' || c == '\u{1680}'
        || ('\u{2000}' <= c && c <= '\u{200a}') || c == '\u{2028}' || c == '\u{2029}' || c
        == '\u{202f}' || c == '\u{205f}' || c == '\u{3000}'
}

/// `text` without the white space that it begins with.
pub open spec fn trimmed_start(text: Seq<char>) -> Seq<char>
    decreases text.len(),
{
    if text.len() > 0 && white_space(text[0]) {
        trimmed_start(text.skip(1))
    } else {
        text
    }
}

/// `text` without the white space that it ends in.
pub open spec fn trimmed_end(text: Seq<char>) -> Seq<char>
    decreases text.len(),
{
    if text.len() > 0 && white_space(text.last()) {
        trimmed_end(text.drop_last())
    } else {
        text
    }
}

/// `text` without the white space at either end.
pub open spec fn trimmed(text: Seq<char>) -> Seq<char> {
    trimmed_end(trimmed_start(text))
}

/// The range of `text` that is left when the white space at either end is taken off.
pub fn trim_range(text: &Vec<char>) -> (r: (usize, usize))
    ensures
        r.0 <= r.1 <= text@.len(),
        text@.subrange(r.0 as int, r.1 as int) == trimmed(text@),
{
    let n: usize = text.len();
    let mut from: usize = 0;
    assert(text@.skip(0) =~= text@);
    while from < n && is_white_space(text[from])
        invariant
            n == text@.len(),
            from <= n,
            trimmed_start(text@.skip(from as int)) == trimmed_start(text@),
        decreases n - from,
    {
        assert(text@.skip(from as int).skip(1) =~= text@.skip(from + 1));
        from = from + 1;
    }
    let ghost rest = text@.skip(from as int);
    assert(rest == trimmed_start(text@));
    let mut to: usize = n;
    assert(text@.subrange(from as int, n as int) =~= rest);
    while to > from && is_white_space(text[to - 1])
        invariant
            n == text@.len(),
            from <= to <= n,
            trimmed_end(text@.subrange(from as int, to as int)) == trimmed_end(rest),
        decreases to,
    {
        assert(text@.subrange(from as int, to as int).drop_last() =~= text@.subrange(
            from as int,
            to - 1,
        ));
        assert(text@.subrange(from as int, to as int).last() == text@[to - 1]);
        to = to - 1;
    }
    proof {
        if to > from {
            assert(text@.subrange(from as int, to as int).last() == text@[to - 1]);
        }
    }
    (from, to)
}

/// The decimal digit for `d`.
pub open spec fn digit(d: nat) -> char {
    (48 + d) as char
}

/// A number as a decimal numeral without leading zeros.
pub open spec fn decimal(n: nat) -> Seq<char>
    decreases n,
{
    if n < 10 {
        seq![digit(n)]
    } else {
        decimal(n / 10).push(digit(n % 10))
    }
}

fn digit_text(d: u64) -> (r: String)
    requires
        d < 10,
    ensures
        r@ == seq![digit(d as nat)],
{
    let digits = "0123456789";
    proof {
        reveal_strlit("0123456789");
    }
    let i: usize = d as usize;
    let r = digits.substring_char(i, i + 1);
    assert(digits@[i as int] == digit(d as nat));
    assert(r@ =~= seq![digit(d as nat)]);
    r.to_owned()
}

/// Writes a number as a decimal numeral.
pub fn decimal_text(n: u64) -> (r: String)
    ensures
        r@ == decimal(n as nat),
    decreases n,
{
    if n < 10 {
        digit_text(n)
    } else {
        let head = decimal_text(n / 10);
        let last = digit_text(n % 10);
        let r = head.concat(last.as_str());
        assert(r@ =~= decimal(n as nat));
        r
    }
}

/// What a character stands for as a digit in a radix of up to sixteen, whatever its
/// case; a number beyond every such radix where it is no digit.
pub open spec fn digit_value(c: char) -> nat {
    if '0' <= c <= '9' {
        (c as u32 - 48) as nat
    } else if 'a' <= c <= 'f' {
        (c as u32 - 87) as nat
    } else if 'A' <= c <= 'F' {
        (c as u32 - 55) as nat
    } else {
        99
    }
}

/// `text` consists of digits in this radix.
pub open spec fn all_digits(text: Seq<char>, radix: nat) -> bool {
    forall|i: int| 0 <= i < text.len() ==> digit_value(#[trigger] text[i]) < radix
}

/// The number that a row of digits stands for.
pub open spec fn numeral(text: Seq<char>, radix: nat) -> nat
    decreases text.len(),
{
    if text.len() == 0 {
        0
    } else {
        numeral(text.drop_last(), radix) * radix + digit_value(text.last())
    }
}

/// `text` without one leading plus sign.
pub open spec fn unsigned_part(text: Seq<char>) -> Seq<char> {
    if text.len() > 0 && text[0] == '+' {
        text.skip(1)
    } else {
        text
    }
}

/// The byte that a text stands for: an optional plus sign, then at least one digit, with
/// a value of at most 255.
pub open spec fn byte_numeral(text: Seq<char>, radix: nat) -> Option<u8> {
    let digits = unsigned_part(text);
    if digits.len() > 0 && all_digits(digits, radix) && numeral(digits, radix) <= 255 {
        Some(numeral(digits, radix) as u8)
    } else {
        None
    }
}

fn digit_of(c: char) -> (r: u32)
    ensures
        r == digit_value(c),
{
    if '0' <= c && c <= '9' {
        c as u32 - 48
    } else if 'a' <= c && c <= 'f' {
        c as u32 - 87
    } else if 'A' <= c && c <= 'F' {
        c as u32 - 55
    } else {
        99
    }
}

proof fn lemma_numeral_grows(text: Seq<char>, radix: nat, i: int)
    requires
        0 <= i <= text.len(),
        radix >= 1,
    ensures
        numeral(text.take(i), radix) <= numeral(text, radix),
    decreases text.len() - i,
{
    if i < text.len() {
        lemma_numeral_grows(text, radix, i + 1);
        assert(text.take(i + 1).drop_last() =~= text.take(i));
        let head = numeral(text.take(i), radix);
        assert(head <= head * radix) by (nonlinear_arith)
            requires
                radix >= 1,
        ;
    } else {
        assert(text.take(i) =~= text);
    }
}

/// Reads the byte that a range of characters stands for.
pub fn read_byte(text: &Vec<char>, from: usize, to: usize, radix: u32) -> (r: Option<u8>)
    requires
        from <= to <= text@.len(),
        2 <= radix <= 16,
    ensures
        r == byte_numeral(text@.subrange(from as int, to as int), radix as nat),
{
    let ghost whole = text@.subrange(from as int, to as int);
    let mut start: usize = from;
    if from < to && text[from] == '+' {
        start = from + 1;
    }
    let ghost digits = unsigned_part(whole);
    assert(digits =~= text@.subrange(start as int, to as int));
    if start == to {
        return None;
    }
    let mut value: u32 = 0;
    let mut i: usize = start;
    assert(digits.take(0) =~= Seq::<char>::empty());
    while i < to
        invariant
            from <= start <= i <= to <= text@.len(),
            2 <= radix <= 16,
            digits == text@.subrange(start as int, to as int),
            value <= 255,
            value == numeral(digits.take(i - start), radix as nat),
            forall|k: int| 0 <= k < i - start ==> digit_value(#[trigger] digits[k]) < radix,
            digits == unsigned_part(text@.subrange(from as int, to as int)),
        decreases to - i,
    {
        let d: u32 = digit_of(text[i]);
        assert(digits[i - start] == text@[i as int]);
        if d >= radix {
            assert(!all_digits(digits, radix as nat));
            return None;
        }
        assert(digits.take(i - start + 1).drop_last() =~= digits.take(i - start));
        assert(value * radix <= 255 * 16) by (nonlinear_arith)
            requires
                value <= 255,
                radix <= 16,
        ;
        value = value * radix + d;
        if value > 255 {
            proof {
                lemma_numeral_grows(digits, radix as nat, i - start + 1);
            }
            return None;
        }
        i = i + 1;
    }
    assert(digits.take(digits.len() as int) =~= digits);
    Some(value as u8)
}

/// A text begins with another one exactly where it is that text followed by a rest.
pub proof fn law_beginnings_have_a_rest(prefix: Seq<char>, rest: Seq<char>, text: Seq<char>)
    ensures
        has_prefix(prefix + rest, prefix),
        has_prefix(text, prefix) ==> text == prefix + text.subrange(
            prefix.len() as int,
            text.len() as int,
        ),
        text.len() < prefix.len() ==> !has_prefix(text, prefix),
{
    assert((prefix + rest).take(prefix.len() as int) =~= prefix);
    if has_prefix(text, prefix) {
        assert(text =~= text.take(prefix.len() as int) + text.subrange(
            prefix.len() as int,
            text.len() as int,
        ));
    }
}

/// A row of bytes ends in another one exactly where it is something followed by that row.
pub proof fn law_endings_have_a_front(front: Seq<u8>, suffix: Seq<u8>, row: Seq<u8>)
    ensures
        has_suffix(front + suffix, suffix),
        has_suffix(row, suffix) ==> row == row.subrange(0, row.len() - suffix.len()) + suffix,
        row.len() < suffix.len() ==> !has_suffix(row, suffix),
{
    assert((front + suffix).skip(front.len() as int) =~= suffix);
    if has_suffix(row, suffix) {
        assert(row =~= row.subrange(0, row.len() - suffix.len()) + row.skip(
            row.len() - suffix.len(),
        ));
    }
}

/// One more copy of a prefix in front makes no difference to what is left without the copies
/// in front, and a text that does not begin with it is left as it is.
pub proof fn law_copies_in_front_are_taken_off(text: Seq<char>, prefix: Seq<char>)
    requires
        prefix.len() > 0,
    ensures
        without_prefixes(prefix + text, prefix) == without_prefixes(text, prefix),
        text.len() < prefix.len() || text.subrange(0, prefix.len() as int) != prefix
            ==> without_prefixes(text, prefix) == text,
{
    assert((prefix + text).take(prefix.len() as int) =~= prefix);
    assert((prefix + text).skip(prefix.len() as int) =~= text);
    if text.len() >= prefix.len() {
        assert(text.take(prefix.len() as int) =~= text.subrange(0, prefix.len() as int));
    }
}

/// The digits are the ten decimal ones and the letters up to F in either case, each with its
/// usual value; nothing else is a digit in any radix up to sixteen.
pub proof fn law_values_of_digits(c: char)
    ensures
        '0' <= c <= '9' ==> digit_value(c) + 48 == c as u32,
        'A' <= c <= 'F' ==> digit_value(c) + 55 == c as u32,
        'a' <= c <= 'f' ==> digit_value(c) + 87 == c as u32,
        !('0' <= c <= '9' || 'A' <= c <= 'F' || 'a' <= c <= 'f') ==> digit_value(c) >= 16,
{
}

/// A numeral grows by one digit as numbers do in its radix.
pub proof fn law_numerals_grow_by_digits(text: Seq<char>, c: char, radix: nat)
    ensures
        numeral(Seq::empty(), radix) == 0,
        numeral(text.push(c), radix) == numeral(text, radix) * radix + digit_value(c),
{
    assert(text.push(c).drop_last() =~= text);
}

/// A byte is read from a numeral of at least one digit and at most 255, with or without one
/// plus sign in front, and from nothing else.
pub proof fn law_bytes_are_short_numerals(digits: Seq<char>, radix: nat)
    ensures
        digits.len() > 0 && (forall|i: int|
            0 <= i < digits.len() ==> digit_value(#[trigger] digits[i]) < radix) && numeral(
            digits,
            radix,
        ) <= 255 ==> {
            &&& byte_numeral(seq!['+'] + digits, radix) == Some(numeral(digits, radix) as u8)
            &&& digits[0] != '+' ==> byte_numeral(digits, radix) == Some(
                numeral(digits, radix) as u8,
            )
        },
        digits.len() == 0 || numeral(digits, radix) > 255 || (exists|i: int|
            0 <= i < digits.len() && digit_value(#[trigger] digits[i]) >= radix) ==> {
            &&& byte_numeral(seq!['+'] + digits, radix) is None
            &&& digits.len() == 0 || digits[0] != '+' ==> byte_numeral(digits, radix) is None
        },
{
    assert((seq!['+'] + digits)[0] == '+');
    assert((seq!['+'] + digits).skip(1) =~= digits);
    if exists|i: int| 0 <= i < digits.len() && digit_value(#[trigger] digits[i]) >= radix {
        assert(!all_digits(digits, radix));
    }
}

/// A number is written in decimal digits without leading zeros, and reading them gives it
/// back.
pub proof fn law_decimals_read_back(n: nat)
    ensures
        decimal(n).len() > 0,
        forall|i: int| 0 <= i < decimal(n).len() ==> '0' <= #[trigger] decimal(n)[i] <= '9',
        n > 0 ==> decimal(n)[0] != '0',
        n == 0 ==> decimal(n).len() == 1,
        numeral(decimal(n), 10) == n,
    decreases n,
{
    if n < 10 {
        assert(decimal(n).drop_last() =~= Seq::<char>::empty());
        reveal_with_fuel(numeral, 2);
    } else {
        law_decimals_read_back(n / 10);
        let row = decimal(n);
        assert(row.drop_last() =~= decimal(n / 10));
        assert(row[0] == decimal(n / 10)[0]);
        assert forall|i: int| 0 <= i < row.len() implies '0' <= #[trigger] row[i] <= '9' by {
            if i < row.len() - 1 {
                assert(row[i] == decimal(n / 10)[i]);
            }
        }
    }
}

/// White space at either end is taken off and nothing else: a text between two characters
/// that are none is left as it is.
pub proof fn law_trimming_stops_at_other_characters(text: Seq<char>)
    ensures
        text.len() == 0 || (!white_space(text[0]) && !white_space(text[text.len() - 1]))
            ==> trimmed(text) == text,
        text.len() > 0 && white_space(text[0]) ==> trimmed(text) == trimmed(
            text.subrange(1, text.len() as int),
        ),
        text.len() > 0 && white_space(text[text.len() - 1]) ==> trimmed(text) == trimmed(
            text.subrange(0, text.len() - 1),
        ),
{
    if text.len() > 0 {
        assert(text.skip(1) =~= text.subrange(1, text.len() as int));
        if white_space(text[text.len() - 1]) {
            lemma_trimmed_last(text);
        }
    }
}

proof fn lemma_trimmed_last(text: Seq<char>)
    requires
        text.len() > 0,
        white_space(text.last()),
    ensures
        trimmed(text) == trimmed(text.subrange(0, text.len() - 1)),
    decreases text.len(),
{
    let shorter = text.subrange(0, text.len() - 1);
    assert(text.drop_last() =~= shorter);
    if white_space(text[0]) {
        if text.len() == 1 {
            assert(text.skip(1) =~= shorter);
        } else {
            let rest = text.skip(1);
            assert(rest.last() == text.last());
            lemma_trimmed_last(rest);
            assert(rest.subrange(0, rest.len() - 1) =~= shorter.skip(1));
            assert(shorter[0] == text[0]);
        }
    } else {
        assert(shorter[0] == text[0]);
    }
}

} // verus!
