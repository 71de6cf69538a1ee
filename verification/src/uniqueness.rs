//! Proof that the escape sequence of a style tells which style it is: two
//! styles with the same sequence are the same style.

use vstd::prelude::*;

use crate::attributes::Attributes;
use crate::color::{AnsiColor, Color};
use crate::context::{RenderContext, ResetPolicy};
use crate::display::{
    attribute_codes, bg_code, color_code, decimal, digit, fg_code, flag_code, style_sequence,
    Render,
};
use crate::style::Style;

verus! {

/// Whether a character is a decimal digit.
pub open spec fn is_digit(c: char) -> bool {
    c == '0' || c == '1' || c == '2' || c == '3' || c == '4' || c == '5' || c == '6' || c == '7'
        || c == '8' || c == '9'
}

/// The characters of different digits differ, and each is a digit.
pub proof fn lemma_digit_injective(a: nat, b: nat)
    requires
        a < 10,
        b < 10,
    ensures
        is_digit(digit(a)),
        digit(a) == digit(b) ==> a == b,
{
}

/// The one, two or three digits of a number below 256.
pub proof fn lemma_decimal_shape(n: nat)
    requires
        n <= 255,
    ensures
        n < 10 ==> decimal(n) == seq![digit(n)],
        10 <= n < 100 ==> decimal(n) == seq![digit(n / 10), digit(n % 10)],
        100 <= n ==> decimal(n) == seq![digit(n / 100), digit((n / 10) % 10), digit(n % 10)],
{
    reveal_with_fuel(decimal, 3);
    if n >= 100 {
        assert(decimal(n) =~= seq![digit(n / 100), digit((n / 10) % 10), digit(n % 10)]);
    } else if n >= 10 {
        assert(decimal(n) =~= seq![digit(n / 10), digit(n % 10)]);
    }
}

/// A number below 256 has one to three characters in decimal, all digits.
pub proof fn lemma_decimal_digits(n: nat)
    requires
        n <= 255,
    ensures
        1 <= decimal(n).len() <= 3,
        forall|i: int| 0 <= i < decimal(n).len() ==> is_digit(#[trigger] decimal(n)[i]),
{
    lemma_decimal_shape(n);
    lemma_digit_injective(n % 10, 0);
    lemma_digit_injective((n / 10) % 10, 0);
    if n < 100 {
        lemma_digit_injective(n / 10, 0);
    } else {
        lemma_digit_injective(n / 100, 0);
    }
}

/// Different numbers below 256 differ in decimal.
pub proof fn lemma_decimal_injective(n1: nat, n2: nat)
    requires
        n1 <= 255,
        n2 <= 255,
        decimal(n1) == decimal(n2),
    ensures
        n1 == n2,
{
    lemma_decimal_shape(n1);
    lemma_decimal_shape(n2);
    let d1 = decimal(n1);
    let d2 = decimal(n2);
    assert(d1.len() == d2.len());
    if n1 < 10 {
        assert(d1[0] == d2[0]);
        lemma_digit_injective(n1, n2);
    } else if n1 < 100 {
        assert(d1[0] == d2[0]);
        assert(d1[1] == d2[1]);
        lemma_digit_injective(n1 / 10, n2 / 10);
        lemma_digit_injective(n1 % 10, n2 % 10);
    } else {
        assert(d1[0] == d2[0]);
        assert(d1[1] == d2[1]);
        assert(d1[2] == d2[2]);
        lemma_digit_injective(n1 / 100, n2 / 100);
        lemma_digit_injective((n1 / 10) % 10, (n2 / 10) % 10);
        lemma_digit_injective(n1 % 10, n2 % 10);
    }
}

/// A number in decimal ends where the first character that is no digit
/// stands: if two numbers, each followed by text that starts with such a
/// character, give the same text, then the numbers are the same and so is what
/// follows them.
pub proof fn lemma_decimal_delimited(n1: nat, rest1: Seq<char>, n2: nat, rest2: Seq<char>)
    requires
        n1 <= 255,
        n2 <= 255,
        rest1.len() > 0,
        rest2.len() > 0,
        !is_digit(rest1[0]),
        !is_digit(rest2[0]),
        decimal(n1) + rest1 == decimal(n2) + rest2,
    ensures
        n1 == n2,
        rest1 == rest2,
{
    let d1 = decimal(n1);
    let d2 = decimal(n2);
    let text = d1 + rest1;
    lemma_decimal_digits(n1);
    lemma_decimal_digits(n2);
    if d1.len() < d2.len() {
        assert(text[d1.len() as int] == rest1[0]);
        assert((d2 + rest2)[d1.len() as int] == d2[d1.len() as int]);
        assert(false);
    }
    if d2.len() < d1.len() {
        assert((d2 + rest2)[d2.len() as int] == rest2[0]);
        assert(text[d2.len() as int] == d1[d2.len() as int]);
        assert(false);
    }
    assert(d1 =~= d2) by {
        assert forall|i: int| 0 <= i < d1.len() implies d1[i] == d2[i] by {
            assert(text[i] == d1[i]);
            assert((d2 + rest2)[i] == d2[i]);
        }
    }
    assert(rest1 =~= text.subrange(d1.len() as int, text.len() as int));
    assert(rest2 =~= (d2 + rest2).subrange(d2.len() as int, (d2 + rest2).len() as int));
    lemma_decimal_injective(n1, n2);
}

/// The bit of the attribute that is written in place `k` (0 to 7).
spec fn flag_bit(k: nat) -> u8 {
    if k == 0 {
        Attributes::BOLD_BIT
    } else if k == 1 {
        Attributes::DIM_BIT
    } else if k == 2 {
        Attributes::ITALIC_BIT
    } else if k == 3 {
        Attributes::UNDERLINED_BIT
    } else if k == 4 {
        Attributes::BLINKING_BIT
    } else if k == 5 {
        Attributes::INVERTED_BIT
    } else if k == 6 {
        Attributes::HIDDEN_BIT
    } else {
        Attributes::CROSSED_BIT
    }
}

/// The code of the attribute that is written in place `k` (0 to 7).
spec fn flag_digit(k: nat) -> char {
    if k == 0 {
        '1'
    } else if k == 1 {
        '2'
    } else if k == 2 {
        '3'
    } else if k == 3 {
        '4'
    } else if k == 4 {
        '5'
    } else if k == 5 {
        '7'
    } else if k == 6 {
        '8'
    } else {
        '9'
    }
}

/// Whether a character is the code of an attribute in place `k` or later.
spec fn is_code_from(c: char, k: nat) -> bool {
    exists|j: nat| k <= j < 8 && c == #[trigger] flag_digit(j)
}

/// The end of a style's sequence from the attribute in place `k` on: the
/// parameters of the attributes in places `k` to 7, and `m`.
spec fn tail_from(attributes: Attributes, k: nat) -> Seq<char>
    decreases 8 - k,
{
    if k >= 8 {
        seq!['m']
    } else {
        flag_code(attributes, flag_bit(k), flag_digit(k)) + tail_from(attributes, k + 1)
    }
}

/// Whether two sets agree on the attributes in places `k` to 7.
spec fn agree_from(a: Attributes, b: Attributes, k: nat) -> bool
    decreases 8 - k,
{
    if k >= 8 {
        true
    } else {
        a.has(flag_bit(k)) == b.has(flag_bit(k)) && agree_from(a, b, k + 1)
    }
}

/// The parameters of a set of attributes, followed by `m`, are the tail from
/// place 0.
proof fn lemma_tail_from_start(attributes: Attributes)
    ensures
        attribute_codes(attributes) + seq!['m'] == tail_from(attributes, 0),
{
    reveal_with_fuel(tail_from, 9);
    assert(attribute_codes(attributes) + seq!['m'] =~= tail_from(attributes, 0));
}

/// A tail starts with `m`, or with `;`, the code of an attribute in place `k`
/// or later, and then `;` or `m`.
proof fn lemma_tail_head(attributes: Attributes, k: nat)
    requires
        k <= 8,
    ensures
        ({
            let tail = tail_from(attributes, k);
            tail.len() >= 1 && (tail[0] == 'm' || (tail.len() >= 3 && tail[0] == ';'
                && is_code_from(tail[1], k) && (tail[2] == ';' || tail[2] == 'm')))
        }),
    decreases 8 - k,
{
    if k < 8 {
        reveal(flag_code);
        lemma_tail_head(attributes, k + 1);
        let next = tail_from(attributes, k + 1);
        let tail = tail_from(attributes, k);
        if attributes.has(flag_bit(k)) {
            assert(tail =~= seq![';', flag_digit(k)] + next);
            assert(tail[1] == flag_digit(k));
            assert(tail[2] == next[0]);
            assert(is_code_from(tail[1], k));
        } else {
            assert(tail =~= next);
            if next[0] != 'm' {
                let j = choose|j: nat| k + 1 <= j < 8 && next[1] == #[trigger] flag_digit(j);
                assert(k <= j < 8 && tail[1] == flag_digit(j));
            }
        }
    }
}

/// Two sets whose tails from place `k` are the same agree on the attributes
/// from that place on.
proof fn lemma_tail_injective(a: Attributes, b: Attributes, k: nat)
    requires
        k <= 8,
        tail_from(a, k) == tail_from(b, k),
    ensures
        agree_from(a, b, k),
    decreases 8 - k,
{
    if k < 8 {
        reveal(flag_code);
        let next_a = tail_from(a, k + 1);
        let next_b = tail_from(b, k + 1);
        let tail_a = tail_from(a, k);
        let tail_b = tail_from(b, k);
        lemma_tail_head(a, k + 1);
        lemma_tail_head(b, k + 1);
        let code = seq![';', flag_digit(k)];
        if a.has(flag_bit(k)) && b.has(flag_bit(k)) {
            assert(tail_a == code + next_a);
            assert(tail_b == code + next_b);
            assert(next_a =~= tail_a.subrange(2, tail_a.len() as int));
            assert(next_b =~= tail_b.subrange(2, tail_b.len() as int));
        } else if a.has(flag_bit(k)) {
            assert(tail_a == code + next_a);
            assert(tail_b =~= next_b);
            lemma_later_code_differs(tail_a, next_b, k);
        } else if b.has(flag_bit(k)) {
            assert(tail_b == code + next_b);
            assert(tail_a =~= next_a);
            lemma_later_code_differs(tail_b, next_a, k);
        } else {
            assert(tail_a =~= next_a);
            assert(tail_b =~= next_b);
        }
        lemma_tail_injective(a, b, k + 1);
    }
}

/// Text that starts with `;` and the code of place `k` is not text that
/// starts with `m`, or with `;` and the code of a later place.
proof fn lemma_later_code_differs(with_code: Seq<char>, later: Seq<char>, k: nat)
    requires
        k < 8,
        with_code.len() >= 2,
        with_code[0] == ';',
        with_code[1] == flag_digit(k),
        later.len() >= 1,
        later[0] == 'm' || (later.len() >= 3 && later[0] == ';' && is_code_from(later[1], k + 1)),
    ensures
        with_code != later,
{
    if later[0] != 'm' {
        let j = choose|j: nat| k + 1 <= j < 8 && later[1] == #[trigger] flag_digit(j);
        assert(flag_digit(j) != flag_digit(k));
    }
}

/// Two sets with the same tail from place 0 are the same set.
proof fn lemma_tail_known(a: Attributes, b: Attributes)
    requires
        tail_from(a, 0) == tail_from(b, 0),
    ensures
        a == b,
{
    lemma_tail_injective(a, b, 0);
    reveal_with_fuel(agree_from, 9);
    let x = a.0;
    let y = b.0;
    assert(x == y) by (bit_vector)
        requires
            (x & 0x01 != 0) == (y & 0x01 != 0),
            (x & 0x02 != 0) == (y & 0x02 != 0),
            (x & 0x04 != 0) == (y & 0x04 != 0),
            (x & 0x08 != 0) == (y & 0x08 != 0),
            (x & 0x10 != 0) == (y & 0x10 != 0),
            (x & 0x20 != 0) == (y & 0x20 != 0),
            (x & 0x40 != 0) == (y & 0x40 != 0),
            (x & 0x80 != 0) == (y & 0x80 != 0),
    ;
}

/// Two sets of attributes with the same parameters are the same set.
pub proof fn lemma_attribute_codes_injective(a: Attributes, b: Attributes)
    requires
        attribute_codes(a) == attribute_codes(b),
    ensures
        a == b,
{
    lemma_tail_from_start(a);
    lemma_tail_from_start(b);
    lemma_tail_known(a, b);
}

/// What is left of a text after a common beginning is taken away.
proof fn lemma_same_prefix(prefix: Seq<char>, a: Seq<char>, b: Seq<char>)
    requires
        prefix + a == prefix + b,
    ensures
        a == b,
{
    let n = prefix.len() as int;
    assert(a =~= (prefix + a).subrange(n, (prefix + a).len() as int));
    assert(b =~= (prefix + b).subrange(n, (prefix + b).len() as int));
}

/// Whether text that follows the parameters of a color cannot be taken for
/// such parameters: it starts with `m`, or with `;` and then either a
/// character that starts no color of this kind or a second character that is
/// no digit.
pub open spec fn clear_of_color(rest: Seq<char>, base: char, bright: char) -> bool {
    rest.len() >= 1 && (rest[0] == 'm' || (rest.len() >= 3 && rest[0] == ';' && (!is_digit(
        rest[2],
    ) || (rest[1] != base && rest[1] != bright))))
}

/// A named color is known by its group and its place in the group.
proof fn lemma_ansi_color_known(a: AnsiColor, b: AnsiColor)
    requires
        a.is_bright() == b.is_bright(),
        a.ordinal() == b.ordinal(),
    ensures
        a == b,
{
}

/// Three numbers written as `r;g;b` and followed by text that starts with no
/// digit are known from the text, and so is what follows them.
proof fn lemma_rgb_delimited(
    r1: nat,
    g1: nat,
    b1: nat,
    rest1: Seq<char>,
    r2: nat,
    g2: nat,
    b2: nat,
    rest2: Seq<char>,
)
    requires
        r1 <= 255 && g1 <= 255 && b1 <= 255,
        r2 <= 255 && g2 <= 255 && b2 <= 255,
        rest1.len() > 0 && !is_digit(rest1[0]),
        rest2.len() > 0 && !is_digit(rest2[0]),
        decimal(r1) + seq![';'] + decimal(g1) + seq![';'] + decimal(b1) + rest1 == decimal(r2)
            + seq![';'] + decimal(g2) + seq![';'] + decimal(b2) + rest2,
    ensures
        r1 == r2,
        g1 == g2,
        b1 == b2,
        rest1 == rest2,
{
    let sep = seq![';'];
    let after_g1 = sep + (decimal(b1) + rest1);
    let after_g2 = sep + (decimal(b2) + rest2);
    let after_r1 = sep + (decimal(g1) + after_g1);
    let after_r2 = sep + (decimal(g2) + after_g2);
    assert(decimal(r1) + after_r1 =~= decimal(r1) + sep + decimal(g1) + sep + decimal(b1) + rest1);
    assert(decimal(r2) + after_r2 =~= decimal(r2) + sep + decimal(g2) + sep + decimal(b2) + rest2);
    assert(after_r1[0] == ';' && after_r2[0] == ';');
    lemma_decimal_delimited(r1, after_r1, r2, after_r2);
    lemma_same_prefix(sep, decimal(g1) + after_g1, decimal(g2) + after_g2);
    assert(after_g1[0] == ';' && after_g2[0] == ';');
    lemma_decimal_delimited(g1, after_g1, g2, after_g2);
    lemma_same_prefix(sep, decimal(b1) + rest1, decimal(b2) + rest2);
    lemma_decimal_delimited(b1, rest1, b2, rest2);
}

/// The beginning of the parameters of a color, whatever follows them: they
/// start with `;`, then the character of the base or of the bright group, then
/// a digit.
proof fn lemma_color_head(color: Color, rest: Seq<char>, base: char, bright: Seq<char>)
    requires
        color != Color::Default,
        (base == '3' && bright == seq!['9']) || (base == '4' && bright == seq!['1', '0']),
    ensures
        ({
            let text = color_code(color, seq![base], bright) + rest;
            &&& text.len() >= 3 + rest.len()
            &&& text[0] == ';'
            &&& text[1] == base || text[1] == bright[0]
            &&& is_digit(text[2])
            &&& color matches Color::Ansi(c) ==> (c.is_bright() <==> text[1] == bright[0])
            &&& color is Ansi ==> text[1] != base || text[2] != '8'
            &&& !(color is Ansi) ==> text[1] == base && text[2] == '8' && text.len() >= 7
                + rest.len() && text[4] == (if color is Ansi256 {
                '5'
            } else {
                '2'
            })
        }),
{
    let text = color_code(color, seq![base], bright) + rest;
    match color {
        Color::Default => {},
        Color::Ansi(c) => {
            lemma_digit_injective(c.ordinal(), 8);
            if c.is_bright() {
                assert(text =~= seq![';'] + bright + seq![digit(c.ordinal())] + rest);
                assert(text[1] == bright[0]);
            } else {
                assert(text =~= seq![';', base, digit(c.ordinal())] + rest);
            }
        },
        Color::Ansi256(i) => {
            lemma_decimal_digits(i as nat);
            assert(text =~= seq![';', base, '8', ';', '5', ';'] + (decimal(i as nat) + rest));
        },
        Color::Rgb(r, g, b) => {
            lemma_decimal_digits(r as nat);
            lemma_decimal_digits(g as nat);
            lemma_decimal_digits(b as nat);
            assert(text =~= seq![';', base, '8', ';', '2', ';'] + (decimal(r as nat) + seq![';']
                + decimal(g as nat) + seq![';'] + decimal(b as nat) + rest));
        },
    }
}

/// Two named colors that give the same text are the same color, and what
/// follows them is the same.
proof fn lemma_ansi_delimited(
    a: AnsiColor,
    rest1: Seq<char>,
    b: AnsiColor,
    rest2: Seq<char>,
    base: char,
    bright: Seq<char>,
)
    requires
        a.is_bright() == b.is_bright(),
        color_code(Color::Ansi(a), seq![base], bright) + rest1 == color_code(
            Color::Ansi(b),
            seq![base],
            bright,
        ) + rest2,
    ensures
        a == b,
        rest1 == rest2,
{
    let lead = seq![';'] + (if a.is_bright() {
        bright
    } else {
        seq![base]
    });
    let last1 = seq![digit(a.ordinal())];
    let last2 = seq![digit(b.ordinal())];
    assert(color_code(Color::Ansi(a), seq![base], bright) + rest1 =~= lead + (last1 + rest1));
    assert(color_code(Color::Ansi(b), seq![base], bright) + rest2 =~= lead + (last2 + rest2));
    lemma_same_prefix(lead, last1 + rest1, last2 + rest2);
    assert((last1 + rest1)[0] == digit(a.ordinal()));
    assert((last2 + rest2)[0] == digit(b.ordinal()));
    lemma_digit_injective(a.ordinal(), b.ordinal());
    lemma_ansi_color_known(a, b);
    lemma_same_prefix(last1, rest1, rest2);
}

/// Two palette entries that give the same text are the same entry, and what
/// follows them is the same.
proof fn lemma_palette_delimited(
    i: u8,
    rest1: Seq<char>,
    j: u8,
    rest2: Seq<char>,
    base: char,
    bright: Seq<char>,
)
    requires
        rest1.len() > 0 && !is_digit(rest1[0]),
        rest2.len() > 0 && !is_digit(rest2[0]),
        color_code(Color::Ansi256(i), seq![base], bright) + rest1 == color_code(
            Color::Ansi256(j),
            seq![base],
            bright,
        ) + rest2,
    ensures
        i == j,
        rest1 == rest2,
{
    let lead = seq![';', base, '8', ';', '5', ';'];
    assert(color_code(Color::Ansi256(i), seq![base], bright) + rest1 =~= lead + (decimal(i as nat)
        + rest1));
    assert(color_code(Color::Ansi256(j), seq![base], bright) + rest2 =~= lead + (decimal(j as nat)
        + rest2));
    lemma_same_prefix(lead, decimal(i as nat) + rest1, decimal(j as nat) + rest2);
    lemma_decimal_delimited(i as nat, rest1, j as nat, rest2);
}

/// Two RGB colors that give the same text are the same color, and what
/// follows them is the same.
proof fn lemma_rgb_color_delimited(
    c1: (u8, u8, u8),
    rest1: Seq<char>,
    c2: (u8, u8, u8),
    rest2: Seq<char>,
    base: char,
    bright: Seq<char>,
)
    requires
        rest1.len() > 0 && !is_digit(rest1[0]),
        rest2.len() > 0 && !is_digit(rest2[0]),
        color_code(Color::Rgb(c1.0, c1.1, c1.2), seq![base], bright) + rest1 == color_code(
            Color::Rgb(c2.0, c2.1, c2.2),
            seq![base],
            bright,
        ) + rest2,
    ensures
        c1 == c2,
        rest1 == rest2,
{
    let lead = seq![';', base, '8', ';', '2', ';'];
    let tail1 = decimal(c1.0 as nat) + seq![';'] + decimal(c1.1 as nat) + seq![';'] + decimal(
        c1.2 as nat,
    ) + rest1;
    let tail2 = decimal(c2.0 as nat) + seq![';'] + decimal(c2.1 as nat) + seq![';'] + decimal(
        c2.2 as nat,
    ) + rest2;
    assert(color_code(Color::Rgb(c1.0, c1.1, c1.2), seq![base], bright) + rest1 =~= lead + tail1);
    assert(color_code(Color::Rgb(c2.0, c2.1, c2.2), seq![base], bright) + rest2 =~= lead + tail2);
    lemma_same_prefix(lead, tail1, tail2);
    lemma_rgb_delimited(
        c1.0 as nat,
        c1.1 as nat,
        c1.2 as nat,
        rest1,
        c2.0 as nat,
        c2.1 as nat,
        c2.2 as nat,
        rest2,
    );
}

/// Two colors that give the same text are of the same kind, and if they are
/// named colors, of the same group.
proof fn lemma_color_kind_known(
    c1: Color,
    rest1: Seq<char>,
    c2: Color,
    rest2: Seq<char>,
    base: char,
    bright: Seq<char>,
)
    requires
        (base == '3' && bright == seq!['9']) || (base == '4' && bright == seq!['1', '0']),
        clear_of_color(rest1, base, bright[0]),
        clear_of_color(rest2, base, bright[0]),
        color_code(c1, seq![base], bright) + rest1 == color_code(c2, seq![base], bright) + rest2,
    ensures
        c1 is Default <==> c2 is Default,
        c1 is Ansi <==> c2 is Ansi,
        c1 is Ansi256 <==> c2 is Ansi256,
        c1 is Rgb <==> c2 is Rgb,
        c1 is Default ==> rest1 == rest2,
        c1 matches Color::Ansi(a) ==> (c2 matches Color::Ansi(b) && a.is_bright() == b.is_bright()),
{
    if c1 != Color::Default {
        lemma_color_head(c1, rest1, base, bright);
    } else {
        assert(color_code(c1, seq![base], bright) + rest1 =~= rest1);
    }
    if c2 != Color::Default {
        lemma_color_head(c2, rest2, base, bright);
    } else {
        assert(color_code(c2, seq![base], bright) + rest2 =~= rest2);
    }
}

/// The parameters of a color end where what follows them begins: if two
/// colors, each followed by text that cannot be taken for the parameters of a
/// color of this kind, give the same text, then the colors are the same and
/// so is what follows them.
pub proof fn lemma_color_delimited(
    c1: Color,
    rest1: Seq<char>,
    c2: Color,
    rest2: Seq<char>,
    base: char,
    bright: Seq<char>,
)
    requires
        (base == '3' && bright == seq!['9']) || (base == '4' && bright == seq!['1', '0']),
        clear_of_color(rest1, base, bright[0]),
        clear_of_color(rest2, base, bright[0]),
        color_code(c1, seq![base], bright) + rest1 == color_code(c2, seq![base], bright) + rest2,
    ensures
        c1 == c2,
        rest1 == rest2,
{
    lemma_color_kind_known(c1, rest1, c2, rest2, base, bright);
    match (c1, c2) {
        (Color::Ansi(a), Color::Ansi(b)) => {
            lemma_ansi_delimited(a, rest1, b, rest2, base, bright);
        },
        (Color::Ansi256(i), Color::Ansi256(j)) => {
            lemma_palette_delimited(i, rest1, j, rest2, base, bright);
        },
        (Color::Rgb(r1, g1, b1), Color::Rgb(r2, g2, b2)) => {
            lemma_rgb_color_delimited((r1, g1, b1), rest1, (r2, g2, b2), rest2, base, bright);
        },
        _ => {},
    }
}

/// Two styles with the same escape sequence are the same style: the sequence
/// that ends a region tells which style it restores.
pub proof fn lemma_style_sequence_injective(a: Style, b: Style)
    requires
        style_sequence(a) == style_sequence(b),
    ensures
        a == b,
{
    reveal(style_sequence);
    let lead = seq!['\x1b', '[', '0'];
    let tail_a = tail_from(a.attributes, 0);
    let tail_b = tail_from(b.attributes, 0);
    lemma_tail_from_start(a.attributes);
    lemma_tail_from_start(b.attributes);
    lemma_tail_head(a.attributes, 0);
    lemma_tail_head(b.attributes, 0);
    let back_a = bg_code(a.bg) + tail_a;
    let back_b = bg_code(b.bg) + tail_b;
    assert(clear_of_color(tail_a, '4', '1'));
    assert(clear_of_color(tail_b, '4', '1'));
    assert(clear_of_color(back_a, '3', '9')) by {
        if a.bg != Color::Default {
            lemma_color_head(a.bg, tail_a, '4', seq!['1', '0']);
        } else {
            assert(back_a =~= tail_a);
        }
    }
    assert(clear_of_color(back_b, '3', '9')) by {
        if b.bg != Color::Default {
            lemma_color_head(b.bg, tail_b, '4', seq!['1', '0']);
        } else {
            assert(back_b =~= tail_b);
        }
    }
    assert(style_sequence(a) =~= lead + (fg_code(a.fg) + back_a));
    assert(style_sequence(b) =~= lead + (fg_code(b.fg) + back_b));
    lemma_same_prefix(lead, fg_code(a.fg) + back_a, fg_code(b.fg) + back_b);
    lemma_color_delimited(a.fg, back_a, b.fg, back_b, '3', seq!['9']);
    lemma_color_delimited(a.bg, tail_a, b.bg, tail_b, '4', seq!['1', '0']);
    lemma_tail_known(a.attributes, b.attributes);
}

/// What ends a region tells which style is active after it: with styling
/// enabled and the nested policy, if the text that ends a region is the
/// sequence of a style, then that style is the one that enclosed the region.
pub proof fn lemma_closing_tells_enclosing(ctx: RenderContext, style: Style)
    requires
        ctx.enabled,
        ctx.policy == ResetPolicy::Nested,
        ctx.restored().rendered(ctx) == style_sequence(style),
    ensures
        style == ctx.reset_style,
{
    lemma_style_sequence_injective(ctx.reset_style, style);
}

} // verus!
