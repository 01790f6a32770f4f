//! Border colours: reading `#RRGGBB` and telling when two colours are too close.

use vstd::prelude::*;

use crate::case::{ascii_lower, ascii_upper, lowered, raised};
use crate::text::{
    all_digits, byte_numeral, chars_of, digit_value, numeral, read_byte, trim_range, trimmed,
    trimmed_end, trimmed_start, unsigned_part, white_space, without_prefixes,
};

verus! {

/// The least distance that two border colours keep in RGB space.
pub const MIN_COLOR_DIST: u32 = 60;

/// The digits of a colour text: what is left without the white space around it and the
/// number signs in front.
pub open spec fn color_digits(text: Seq<char>) -> Seq<char> {
    without_prefixes(trimmed(text), seq!['#'])
}

/// The three channels that six digits stand for, two digits each.
pub open spec fn channels(digits: Seq<char>) -> Option<(u8, u8, u8)> {
    if digits.len() != 6 {
        None
    } else {
        match (
            byte_numeral(digits.subrange(0, 2), 16),
            byte_numeral(digits.subrange(2, 4), 16),
            byte_numeral(digits.subrange(4, 6), 16),
        ) {
            (Some(r), Some(g), Some(b)) => Some((r, g, b)),
            _ => None,
        }
    }
}

/// The colour that a text stands for, if it is one.
pub open spec fn rgb(text: Seq<char>) -> Option<(u8, u8, u8)> {
    channels(color_digits(text))
}

/// How many bytes a character takes in UTF-8.
pub open spec fn utf8_width(c: char) -> nat {
    if c as u32 <= 0x7f {
        1
    } else if c as u32 <= 0x7ff {
        2
    } else if c as u32 <= 0xffff {
        3
    } else {
        4
    }
}

/// How many bytes a text takes in UTF-8.
pub open spec fn utf8_len(text: Seq<char>) -> nat
    decreases text.len(),
{
    if text.len() == 0 {
        0
    } else {
        utf8_len(text.drop_last()) + utf8_width(text.last())
    }
}

/// The byte offset `at` lies between two characters of `text`, or at an end.
pub open spec fn char_boundary(text: Seq<char>, at: nat) -> bool {
    exists|i: int| 0 <= i <= text.len() && utf8_len(#[trigger] text.take(i)) == at
}

/// Digits that take six bytes are cut into pairs of two bytes each, up to the first pair
/// that is no byte. This says that no such cut goes through a character.
pub open spec fn cuts_cleanly(digits: Seq<char>) -> bool {
    utf8_len(digits) == 6 ==> {
        &&& char_boundary(digits, 2)
        &&& digits.len() >= 2 && byte_numeral(digits.take(2), 16) is Some ==> char_boundary(
            digits,
            4,
        )
    }
}

/// The text can be read as a colour, or told not to be one.
pub open spec fn readable_color(text: Seq<char>) -> bool {
    cuts_cleanly(color_digits(text))
}

fn char_width(c: char) -> (r: usize)
    ensures
        r == utf8_width(c),
{
    let code: u32 = c as u32;
    if code <= 0x7f {
        1
    } else if code <= 0x7ff {
        2
    } else if code <= 0xffff {
        3
    } else {
        4
    }
}

/// The range of `text` that holds the digits of the colour.
fn digit_range(text: &Vec<char>) -> (r: (usize, usize))
    ensures
        r.0 <= r.1 <= text@.len(),
        text@.subrange(r.0 as int, r.1 as int) == color_digits(text@),
{
    let (start, to) = trim_range(text);
    let mut from: usize = start;
    while from < to && text[from] == '#'
        invariant
            start <= from <= to <= text@.len(),
            without_prefixes(text@.subrange(from as int, to as int), seq!['#']) == color_digits(
                text@,
            ),
        decreases to - from,
    {
        let ghost rest = text@.subrange(from as int, to as int);
        assert(rest.take(1) =~= seq!['#']);
        assert(rest.skip(1) =~= text@.subrange(from + 1, to as int));
        from = from + 1;
    }
    let ghost rest = text@.subrange(from as int, to as int);
    assert(without_prefixes(rest, seq!['#']) == rest) by {
        if rest.len() >= 1 && rest.take(1) == seq!['#'] {
            assert(rest.take(1)[0] == '#');
        }
    }
    (from, to)
}

proof fn lemma_utf8_len_bounds(text: Seq<char>)
    ensures
        text.len() <= utf8_len(text) <= 4 * text.len(),
    decreases text.len(),
{
    if text.len() > 0 {
        lemma_utf8_len_bounds(text.drop_last());
    }
}

/// Digits that are bytes pair by pair are all of one byte in UTF-8, so they are cut
/// cleanly.
proof fn lemma_digits_cut_cleanly(digits: Seq<char>)
    requires
        channels(digits) is Some,
    ensures
        cuts_cleanly(digits),
        utf8_len(digits) == 6,
{
    assert forall|i: int| 0 <= i < 6 implies utf8_width(#[trigger] digits[i]) == 1 by {
        let pair = if i < 2 {
            digits.subrange(0, 2)
        } else if i < 4 {
            digits.subrange(2, 4)
        } else {
            digits.subrange(4, 6)
        };
        let k = i % 2;
        assert(pair[k] == digits[i]);
        let row = unsigned_part(pair);
        assert(all_digits(row, 16));
        if pair[0] == '+' {
            if k == 1 {
                assert(row[0] == pair[1]);
            }
        } else {
            assert(row[k] == pair[k]);
        }
        assert(digits[i] == '+' || digit_value(digits[i]) < 16);
    }
    reveal_with_fuel(utf8_len, 7);
    assert(digits.take(2).drop_last() =~= digits.take(1));
    assert(digits.take(1).drop_last() =~= digits.take(0));
    assert(digits.take(3).drop_last() =~= digits.take(2));
    assert(digits.take(4).drop_last() =~= digits.take(3));
    assert(digits.take(5).drop_last() =~= digits.take(4));
    assert(digits.take(6).drop_last() =~= digits.take(5));
    assert(digits.take(6) =~= digits);
    assert(utf8_len(digits.take(2)) == 2);
    assert(utf8_len(digits.take(4)) == 4);
}

/// A text that stands for a colour is readable.
pub proof fn law_colors_are_readable(text: Seq<char>)
    requires
        rgb(text) is Some,
    ensures
        readable_color(text),
{
    lemma_digits_cut_cleanly(color_digits(text));
}

/// Whether the digits in a range are cut cleanly.
fn digits_cut_cleanly(text: &Vec<char>, from: usize, to: usize) -> (r: bool)
    requires
        from <= to <= text@.len(),
    ensures
        r == cuts_cleanly(text@.subrange(from as int, to as int)),
{
    let ghost digits = text@.subrange(from as int, to as int);
    proof {
        lemma_utf8_len_bounds(digits);
    }
    if to - from > 6 {
        return true;
    }
    let mut i: usize = from;
    let mut total: usize = 0;
    let mut at_two: bool = false;
    let mut at_four: bool = false;
    assert(digits.take(0) =~= Seq::<char>::empty());
    while i < to
        invariant
            from <= i <= to <= text@.len(),
            to - from <= 6,
            digits == text@.subrange(from as int, to as int),
            total == utf8_len(digits.take(i - from)),
            total <= 4 * (i - from),
            at_two <==> (exists|k: int| 0 <= k <= i - from && utf8_len(#[trigger] digits.take(k)) == 2),
            at_four <==> (exists|k: int|
                0 <= k <= i - from && utf8_len(#[trigger] digits.take(k)) == 4),
        decreases to - i,
    {
        let w: usize = char_width(text[i]);
        assert(digits.take(i - from + 1).drop_last() =~= digits.take(i - from));
        assert(digits.take(i - from + 1).last() == text@[i as int]);
        total = total + w;
        i = i + 1;
        assert(total == utf8_len(digits.take(i - from)));
        if total == 2 {
            at_two = true;
        }
        if total == 4 {
            at_four = true;
        }
    }
    assert(digits.take(digits.len() as int) =~= digits);
    if total != 6 {
        return true;
    }
    if !at_two {
        return false;
    }
    if to - from >= 2 && !at_four {
        assert(digits.take(2) =~= text@.subrange(from as int, from + 2));
        return read_byte(text, from, from + 2, 16).is_none();
    }
    true
}

/// Whether a text can be read as a colour, or told not to be one.
pub fn is_readable_color(hex: &str) -> (r: bool)
    ensures
        r == readable_color(hex@),
{
    let text = chars_of(hex);
    let (from, to) = digit_range(&text);
    digits_cut_cleanly(&text, from, to)
}

/// The red, green and blue of a hexadecimal colour such as `#22D3EE`.
pub fn hex_to_rgb(hex: &str) -> (r: Option<(u8, u8, u8)>)
    requires
        readable_color(hex@),
    ensures
        r == rgb(hex@),
{
    let text = chars_of(hex);
    let (from, to) = digit_range(&text);
    let ghost digits = color_digits(text@);
    if to - from != 6 {
        return None;
    }
    assert(digits.subrange(0, 2) =~= text@.subrange(from as int, from + 2));
    assert(digits.subrange(2, 4) =~= text@.subrange(from + 2, from + 4));
    assert(digits.subrange(4, 6) =~= text@.subrange(from + 4, from + 6));
    let red = read_byte(&text, from, from + 2, 16);
    let green = read_byte(&text, from + 2, from + 4, 16);
    let blue = read_byte(&text, from + 4, from + 6, 16);
    match (red, green, blue) {
        (Some(r), Some(g), Some(b)) => Some((r, g, b)),
        _ => None,
    }
}

/// The square of the distance of two colours in RGB space.
pub open spec fn rgb_distance_squared(a: (u8, u8, u8), b: (u8, u8, u8)) -> int {
    let red = a.0 - b.0;
    let green = a.1 - b.1;
    let blue = a.2 - b.2;
    red * red + green * green + blue * blue
}

/// The square of the distance of two colour texts; `None` stands for a distance beyond
/// every other, where one of them is no colour.
pub open spec fn distance_squared(a: Seq<char>, b: Seq<char>) -> Option<u32> {
    match (rgb(a), rgb(b)) {
        (Some(x), Some(y)) => Some(rgb_distance_squared(x, y) as u32),
        _ => None,
    }
}

/// The two colour texts are closer than the least distance.
pub open spec fn too_close(a: Seq<char>, b: Seq<char>) -> bool {
    match (rgb(a), rgb(b)) {
        (Some(x), Some(y)) => rgb_distance_squared(x, y) < MIN_COLOR_DIST * MIN_COLOR_DIST,
        _ => false,
    }
}

proof fn lemma_distance_range(a: (u8, u8, u8), b: (u8, u8, u8))
    ensures
        0 <= rgb_distance_squared(a, b) <= 3 * 255 * 255,
{
    let red = a.0 - b.0;
    let green = a.1 - b.1;
    let blue = a.2 - b.2;
    assert(0 <= red * red <= 255 * 255) by (nonlinear_arith)
        requires
            -255 <= red <= 255,
    ;
    assert(0 <= green * green <= 255 * 255) by (nonlinear_arith)
        requires
            -255 <= green <= 255,
    ;
    assert(0 <= blue * blue <= 255 * 255) by (nonlinear_arith)
        requires
            -255 <= blue <= 255,
    ;
}

fn channel_distance(a: u8, b: u8) -> (r: u32)
    ensures
        r == (a - b) * (a - b),
        r <= 255 * 255,
{
    let d: u32 = if a >= b {
        (a - b) as u32
    } else {
        (b - a) as u32
    };
    assert(d * d == (a - b) * (a - b)) by (nonlinear_arith)
        requires
            d == a - b || d == b - a,
    ;
    assert(d * d <= 255 * 255) by (nonlinear_arith)
        requires
            d <= 255,
    ;
    d * d
}

/// The square of the distance of two colours; `None` where one of them is no colour, so
/// that the distance is beyond every other.
pub fn color_dist(a: &str, b: &str) -> (r: Option<u32>)
    requires
        readable_color(a@),
        readable_color(b@),
    ensures
        r == distance_squared(a@, b@),
        too_close(a@, b@) <==> (r matches Some(d) && d < MIN_COLOR_DIST * MIN_COLOR_DIST),
{
    let left = hex_to_rgb(a);
    let right = hex_to_rgb(b);
    match (left, right) {
        (Some(x), Some(y)) => {
            proof {
                lemma_distance_range(x, y);
            }
            let red: u32 = channel_distance(x.0, y.0);
            let green: u32 = channel_distance(x.1, y.1);
            let blue: u32 = channel_distance(x.2, y.2);
            Some(red + green + blue)
        },
        _ => None,
    }
}

/// The distance of two colours does not depend on their order.
pub proof fn law_distance_is_symmetric(a: Seq<char>, b: Seq<char>)
    ensures
        distance_squared(a, b) == distance_squared(b, a),
        too_close(a, b) == too_close(b, a),
{
    if rgb(a) is Some && rgb(b) is Some {
        let x = rgb(a)->0;
        let y = rgb(b)->0;
        assert((x.0 - y.0) * (x.0 - y.0) == (y.0 - x.0) * (y.0 - x.0)) by (nonlinear_arith);
        assert((x.1 - y.1) * (x.1 - y.1) == (y.1 - x.1) * (y.1 - x.1)) by (nonlinear_arith);
        assert((x.2 - y.2) * (x.2 - y.2) == (y.2 - x.2) * (y.2 - x.2)) by (nonlinear_arith);
    }
}

/// A colour is too close to every text that stands for the same colour, so two borders
/// that are not too close never show the same colour.
pub proof fn law_same_color_is_too_close(a: Seq<char>, b: Seq<char>)
    requires
        rgb(a) is Some,
        rgb(a) == rgb(b),
    ensures
        too_close(a, b),
{
}

proof fn lemma_raised_character(c: char)
    ensures
        white_space(ascii_upper(c)) == white_space(c),
        digit_value(ascii_upper(c)) == digit_value(c),
        ascii_upper(c) == '#' <==> c == '#',
        ascii_upper(c) == '+' <==> c == '+',
{
}

proof fn lemma_raised_start(text: Seq<char>)
    ensures
        trimmed_start(raised(text)) == raised(trimmed_start(text)),
    decreases text.len(),
{
    if text.len() > 0 {
        lemma_raised_character(text[0]);
        lemma_raised_start(text.skip(1));
        assert(raised(text).skip(1) =~= raised(text.skip(1)));
    }
}

proof fn lemma_raised_end(text: Seq<char>)
    ensures
        trimmed_end(raised(text)) == raised(trimmed_end(text)),
    decreases text.len(),
{
    if text.len() > 0 {
        lemma_raised_character(text.last());
        lemma_raised_end(text.drop_last());
        assert(raised(text).drop_last() =~= raised(text.drop_last()));
    }
}

proof fn lemma_raised_signs(text: Seq<char>)
    ensures
        without_prefixes(raised(text), seq!['#']) == raised(without_prefixes(text, seq!['#'])),
    decreases text.len(),
{
    if text.len() > 0 {
        lemma_raised_character(text[0]);
        lemma_raised_signs(text.skip(1));
        assert(raised(text).skip(1) =~= raised(text.skip(1)));
        if text[0] == '#' {
            assert(text.take(1) =~= seq!['#']);
            assert(raised(text).take(1) =~= seq!['#']);
        } else {
            assert(text.take(1)[0] != '#');
            assert(raised(text).take(1)[0] != '#');
        }
    }
}

proof fn lemma_raised_numeral(text: Seq<char>)
    ensures
        numeral(raised(text), 16) == numeral(text, 16),
        all_digits(raised(text), 16) == all_digits(text, 16),
    decreases text.len(),
{
    assert forall|i: int| 0 <= i < text.len() implies digit_value(#[trigger] raised(text)[i])
        == digit_value(text[i]) by {
        lemma_raised_character(text[i]);
    }
    if all_digits(raised(text), 16) {
        assert forall|i: int| 0 <= i < text.len() implies digit_value(#[trigger] text[i]) < 16 by {
            assert(digit_value(raised(text)[i]) < 16);
        }
    }
    if text.len() > 0 {
        lemma_raised_numeral(text.drop_last());
        assert(raised(text).drop_last() =~= raised(text.drop_last()));
    }
}

proof fn lemma_raised_byte(text: Seq<char>)
    ensures
        byte_numeral(raised(text), 16) == byte_numeral(text, 16),
{
    if text.len() > 0 {
        lemma_raised_character(text[0]);
        assert(raised(text).skip(1) =~= raised(text.skip(1)));
    }
    lemma_raised_numeral(unsigned_part(text));
    assert(unsigned_part(raised(text)) == raised(unsigned_part(text)));
}

proof fn lemma_raised_color(text: Seq<char>)
    ensures
        rgb(raised(text)) == rgb(text),
{
    lemma_raised_start(text);
    lemma_raised_end(trimmed_start(text));
    lemma_raised_signs(trimmed(text));
    let digits = color_digits(text);
    assert(color_digits(raised(text)) == raised(digits));
    if digits.len() == 6 {
        lemma_raised_byte(digits.subrange(0, 2));
        lemma_raised_byte(digits.subrange(2, 4));
        lemma_raised_byte(digits.subrange(4, 6));
        assert(raised(digits).subrange(0, 2) =~= raised(digits.subrange(0, 2)));
        assert(raised(digits).subrange(2, 4) =~= raised(digits.subrange(2, 4)));
        assert(raised(digits).subrange(4, 6) =~= raised(digits.subrange(4, 6)));
    }
}

/// The letters of a colour may be in either case: in upper case and in lower case the text
/// stands for the same colour.
pub proof fn law_case_of_a_color_does_not_matter(text: Seq<char>)
    ensures
        rgb(raised(text)) == rgb(text),
        rgb(lowered(text)) == rgb(text),
{
    lemma_raised_color(text);
    lemma_raised_color(lowered(text));
    assert forall|i: int| 0 <= i < text.len() implies ascii_upper(#[trigger] lowered(text)[i])
        == ascii_upper(text[i]) by {
        assert(lowered(text)[i] == ascii_lower(text[i]));
    }
    assert(raised(lowered(text)) =~= raised(text));
}

/// `text` is nothing but white space.
pub open spec fn all_white(text: Seq<char>) -> bool {
    forall|i: int| 0 <= i < text.len() ==> white_space(#[trigger] text[i])
}

proof fn lemma_white_start(before: Seq<char>, text: Seq<char>)
    requires
        all_white(before),
    ensures
        trimmed_start(before + text) == trimmed_start(text),
    decreases before.len(),
{
    if before.len() == 0 {
        assert(before + text =~= text);
    } else {
        let rest = before.skip(1);
        assert forall|i: int| 0 <= i < rest.len() implies white_space(#[trigger] rest[i]) by {
            assert(rest[i] == before[i + 1]);
        }
        assert((before + text)[0] == before[0]);
        assert((before + text).skip(1) =~= rest + text);
        lemma_white_start(rest, text);
    }
}

proof fn lemma_white_end(text: Seq<char>, behind: Seq<char>)
    requires
        all_white(behind),
    ensures
        trimmed_end(text + behind) == trimmed_end(text),
    decreases behind.len(),
{
    if behind.len() == 0 {
        assert(text + behind =~= text);
    } else {
        let rest = behind.drop_last();
        assert forall|i: int| 0 <= i < rest.len() implies white_space(#[trigger] rest[i]) by {
            assert(rest[i] == behind[i]);
        }
        assert((text + behind).last() == behind[behind.len() - 1]);
        assert((text + behind).drop_last() =~= text + rest);
        lemma_white_end(text, rest);
    }
}

proof fn lemma_white_behind(text: Seq<char>, behind: Seq<char>)
    requires
        all_white(behind),
    ensures
        trimmed(text + behind) == trimmed(text),
    decreases text.len(),
{
    if text.len() == 0 {
        lemma_white_start(behind, text);
        assert(text + behind =~= behind + text);
    } else if white_space(text[0]) {
        assert((text + behind)[0] == text[0]);
        assert((text + behind).skip(1) =~= text.skip(1) + behind);
        lemma_white_behind(text.skip(1), behind);
    } else {
        assert((text + behind)[0] == text[0]);
        lemma_white_end(text, behind);
    }
}

proof fn lemma_trimmed_ends(text: Seq<char>)
    ensures
        trimmed(text).len() > 0 ==> !white_space(trimmed(text)[0]) && !white_space(
            trimmed(text).last(),
        ),
{
    lemma_start_is_black(text);
    lemma_end_is_black(trimmed_start(text));
}

proof fn lemma_start_is_black(text: Seq<char>)
    ensures
        trimmed_start(text).len() > 0 ==> !white_space(trimmed_start(text)[0]),
    decreases text.len(),
{
    if text.len() > 0 && white_space(text[0]) {
        lemma_start_is_black(text.skip(1));
    }
}

proof fn lemma_end_is_black(text: Seq<char>)
    ensures
        trimmed_end(text).len() > 0 ==> !white_space(trimmed_end(text).last()) && trimmed_end(
            text,
        )[0] == text[0],
    decreases text.len(),
{
    if text.len() > 0 && white_space(text.last()) {
        lemma_end_is_black(text.drop_last());
    }
}

/// White space around a colour makes no difference to it, nor does one more number sign in
/// front of what is left without the white space.
pub proof fn law_trimmings_of_a_color_do_not_matter(
    before: Seq<char>,
    text: Seq<char>,
    behind: Seq<char>,
)
    requires
        all_white(before),
        all_white(behind),
    ensures
        rgb(before + text + behind) == rgb(text),
        rgb(seq!['#'] + trimmed(text)) == rgb(text),
{
    lemma_white_behind(before + text, behind);
    lemma_white_start(before, text);
    let bare = trimmed(text);
    let signed = seq!['#'] + bare;
    lemma_trimmed_ends(text);
    assert(signed[0] == '#');
    assert(trimmed_start(signed) == signed);
    assert(!white_space(signed.last())) by {
        if bare.len() > 0 {
            assert(signed.last() == bare.last());
        }
    }
    assert(trimmed(signed) == signed);
    assert(signed.take(1) =~= seq!['#']);
    assert(signed.skip(1) =~= bare);
}

/// Six hexadecimal digits behind any number of signs are a colour, two digits for each of red,
/// green and blue.
pub proof fn law_six_digits_are_a_color(digits: Seq<char>)
    requires
        digits.len() == 6,
        forall|i: int| 0 <= i < 6 ==> digit_value(#[trigger] digits[i]) < 16,
    ensures
        rgb(digits) == Some(
            (
                (16 * digit_value(digits[0]) + digit_value(digits[1])) as u8,
                (16 * digit_value(digits[2]) + digit_value(digits[3])) as u8,
                (16 * digit_value(digits[4]) + digit_value(digits[5])) as u8,
            ),
        ),
        rgb(seq!['#'] + digits) == rgb(digits),
{
    assert forall|i: int| 0 <= i < 6 implies !white_space(#[trigger] digits[i]) && digits[i] != '#'
        && digits[i] != '+' by {}
    assert(trimmed(digits) == digits);
    assert(without_prefixes(digits, seq!['#']) == digits) by {
        assert(digits.take(1)[0] != '#');
    }
    lemma_pair_of_digits(digits.subrange(0, 2));
    lemma_pair_of_digits(digits.subrange(2, 4));
    lemma_pair_of_digits(digits.subrange(4, 6));
    law_trimmings_of_a_color_do_not_matter(Seq::empty(), digits, Seq::empty());
}

proof fn lemma_pair_of_digits(pair: Seq<char>)
    requires
        pair.len() == 2,
        digit_value(pair[0]) < 16,
        digit_value(pair[1]) < 16,
        pair[0] != '+',
    ensures
        byte_numeral(pair, 16) == Some((16 * digit_value(pair[0]) + digit_value(pair[1])) as u8),
{
    reveal_with_fuel(numeral, 3);
    assert(pair.drop_last().last() == pair[0]);
}

/// A colour is six characters behind the signs, with no white space around: each is a
/// hexadecimal digit, or a plus sign as the first of its pair.
pub proof fn law_colors_have_six_digits(text: Seq<char>, i: int)
    requires
        rgb(text) is Some,
        0 <= i < 6,
    ensures
        color_digits(text) == without_prefixes(trimmed(text), seq!['#']),
        color_digits(text).len() == 6,
        digit_value(color_digits(text)[i]) < 16 || (i % 2 == 0 && color_digits(text)[i] == '+'),
{
    let digits = color_digits(text);
    let pair = if i < 2 {
        digits.subrange(0, 2)
    } else if i < 4 {
        digits.subrange(2, 4)
    } else {
        digits.subrange(4, 6)
    };
    let k = i % 2;
    assert(pair[k] == digits[i]);
    let row = unsigned_part(pair);
    assert(all_digits(row, 16));
    if pair[0] == '+' {
        if k == 1 {
            assert(row[0] == pair[1]);
        }
    } else {
        assert(row[k] == pair[k]);
    }
}

/// The three pairs of a colour are read one by one.
pub proof fn law_channels_are_read_in_pairs(a: Seq<char>, b: Seq<char>, c: Seq<char>)
    requires
        a.len() == 2,
        b.len() == 2,
        c.len() == 2,
    ensures
        channels(a + b + c) is Some <==> byte_numeral(a, 16) is Some && byte_numeral(b, 16) is Some
            && byte_numeral(c, 16) is Some,
        channels(a + b + c) matches Some(color) ==> {
            &&& byte_numeral(a, 16) == Some(color.0)
            &&& byte_numeral(b, 16) == Some(color.1)
            &&& byte_numeral(c, 16) == Some(color.2)
        },
{
    assert((a + b + c).subrange(0, 2) =~= a);
    assert((a + b + c).subrange(2, 4) =~= b);
    assert((a + b + c).subrange(4, 6) =~= c);
}

/// Two colours are told apart by the sum of the squares of their differences in red, green and
/// blue, and they are too close where that is below the square of sixty.
pub proof fn law_closeness_is_distance_below_sixty(
    a: Seq<char>,
    b: Seq<char>,
    x: (u8, u8, u8),
    y: (u8, u8, u8),
    sum: int,
)
    requires
        rgb(a) == Some(x),
        rgb(b) == Some(y),
        sum == (x.0 - y.0) * (x.0 - y.0) + (x.1 - y.1) * (x.1 - y.1) + (x.2 - y.2) * (x.2 - y.2),
    ensures
        distance_squared(a, b) is Some,
        distance_squared(a, b)->0 == sum,
        too_close(a, b) <==> sum < 3600,
{
    lemma_distance_range(x, y);
}

/// What is no colour is beyond every distance, and too close to nothing.
pub proof fn law_no_color_is_close_to_nothing(a: Seq<char>, b: Seq<char>)
    requires
        rgb(a) is None || rgb(b) is None,
    ensures
        distance_squared(a, b) is None,
        !too_close(a, b),
{
}

/// Characters take one to four bytes by their number, and the bytes of a text are those of its
/// characters together.
pub proof fn law_bytes_of_texts_add_up(text: Seq<char>, c: char)
    ensures
        utf8_len(Seq::empty()) == 0,
        c as u32 <= 0x7f ==> utf8_len(text.push(c)) == utf8_len(text) + 1,
        0x80 <= c as u32 <= 0x7ff ==> utf8_len(text.push(c)) == utf8_len(text) + 2,
        0x800 <= c as u32 <= 0xffff ==> utf8_len(text.push(c)) == utf8_len(text) + 3,
        c as u32 >= 0x10000 ==> utf8_len(text.push(c)) == utf8_len(text) + 4,
{
    assert(text.push(c).drop_last() =~= text);
}

/// A text is unreadable as a colour exactly where its digits take six bytes and a cut goes
/// through a character: that behind the second byte, or, where the first pair is a byte, that
/// behind the fourth.
pub proof fn law_unreadable_colors_are_cut_inside_characters(text: Seq<char>, front: Seq<char>, rest: Seq<char>)
    requires
        color_digits(text) == front + rest,
    ensures
        utf8_len(color_digits(text)) != 6 ==> readable_color(text),
        utf8_len(color_digits(text)) == 6 && utf8_len(front) == 4 && (exists|i: int|
            0 <= i <= color_digits(text).len() && utf8_len(
                #[trigger] color_digits(text).take(i),
            ) == 2) ==> readable_color(text),
        utf8_len(color_digits(text)) == 6 && (forall|i: int|
            0 <= i <= color_digits(text).len() ==> utf8_len(#[trigger] color_digits(text).take(i))
                != 2) ==> !readable_color(text),
        utf8_len(color_digits(text)) == 6 && utf8_len(front) == 2 && (front.len() != 2
            || byte_numeral(front, 16) is None) ==> readable_color(text),
        utf8_len(color_digits(text)) == 6 && front.len() == 2 && byte_numeral(front, 16) is Some
            && (forall|i: int|
            0 <= i <= color_digits(text).len() ==> utf8_len(#[trigger] color_digits(text).take(i))
                != 4) ==> !readable_color(text),
{
    let digits = color_digits(text);
    assert(digits.take(front.len() as int) =~= front);
    if utf8_len(digits) == 6 && utf8_len(front) == 2 && (front.len() != 2 || byte_numeral(
        front,
        16,
    ) is None) {
        lemma_utf8_len_bounds(front);
        if front.len() == 1 {
            reveal_with_fuel(utf8_len, 2);
            assert(utf8_width(front[0]) == 2) by {
                assert(front.drop_last() =~= Seq::<char>::empty());
            }
            if digits.len() >= 2 {
                let pair = digits.take(2);
                assert(pair[0] == front[0]);
                assert(unsigned_part(pair) == pair);
                assert(!all_digits(pair, 16));
            }
        } else {
            assert(front.len() == 2);
        }
    }
}

/// A colour is what the three pairs give that are left without white space and signs; any
/// other number of characters gives none.
pub proof fn law_colors_are_read_without_trimmings(text: Seq<char>)
    ensures
        rgb(text) == channels(without_prefixes(trimmed(text), seq!['#'])),
        without_prefixes(trimmed(text), seq!['#']).len() != 6 ==> rgb(text) is None,
{
}

} // verus!
