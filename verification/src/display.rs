//! The escape sequences that styles render to, and the functions that write
//! them.

use vstd::prelude::*;

use crate::attributes::Attributes;
use crate::color::Color;
use crate::context::{RenderContext, ResetPolicy};
use crate::hyperlink::Hyperlink;
use crate::style::Style;
use crate::styled::Styled;

verus! {

/// The character of a decimal digit.
pub open spec fn digit(d: nat) -> char
    recommends
        d < 10,
{
    if d == 0 {
        '0'
    } else if d == 1 {
        '1'
    } else if d == 2 {
        '2'
    } else if d == 3 {
        '3'
    } else if d == 4 {
        '4'
    } else if d == 5 {
        '5'
    } else if d == 6 {
        '6'
    } else if d == 7 {
        '7'
    } else if d == 8 {
        '8'
    } else {
        '9'
    }
}

/// A number in decimal, without leading zeros.
pub open spec fn decimal(n: nat) -> Seq<char>
    decreases n,
{
    if n < 10 {
        seq![digit(n)]
    } else {
        decimal(n / 10).push(digit(n % 10))
    }
}

/// The parameters that select a color, each led by `;`. `base` is the digit of
/// the base colors (`3` for the foreground, `4` for the background), which also
/// starts the extended forms; `bright` is the prefix of the bright colors (`9`
/// or `10`). The default color selects nothing.
pub open spec fn color_code(color: Color, base: Seq<char>, bright: Seq<char>) -> Seq<char> {
    match color {
        Color::Default => Seq::empty(),
        Color::Ansi(c) => seq![';'] + (if c.is_bright() {
            bright
        } else {
            base
        }) + seq![digit(c.ordinal())],
        Color::Ansi256(i) => seq![';'] + base + seq!['8', ';', '5', ';'] + decimal(i as nat),
        Color::Rgb(r, g, b) => seq![';'] + base + seq!['8', ';', '2', ';'] + decimal(r as nat)
            + seq![';'] + decimal(g as nat) + seq![';'] + decimal(b as nat),
    }
}

/// The parameters of a foreground color: `;3x` for a base color, `;9x` for a
/// bright one, `;38;5;i` for a palette entry, `;38;2;r;g;b` for RGB.
pub open spec fn fg_code(color: Color) -> Seq<char> {
    color_code(color, seq!['3'], seq!['9'])
}

/// The parameters of a background color: `;4x` for a base color, `;10x` for a
/// bright one, `;48;5;i` for a palette entry, `;48;2;r;g;b` for RGB.
pub open spec fn bg_code(color: Color) -> Seq<char> {
    color_code(color, seq!['4'], seq!['1', '0'])
}

/// The parameter of one attribute: `;` and its code if the attribute is set,
/// nothing if it is not.
#[verifier::opaque]
pub open spec fn flag_code(attributes: Attributes, bit: u8, code: char) -> Seq<char> {
    if attributes.has(bit) {
        seq![';', code]
    } else {
        Seq::empty()
    }
}

/// The parameters of a set of attributes, in the fixed order bold (1), dim (2),
/// italic (3), underlined (4), blinking (5), inverted (7), hidden (8),
/// crossed out (9).
pub open spec fn attribute_codes(attributes: Attributes) -> Seq<char> {
    flag_code(attributes, Attributes::BOLD_BIT, '1')
        + flag_code(attributes, Attributes::DIM_BIT, '2')
        + flag_code(attributes, Attributes::ITALIC_BIT, '3')
        + flag_code(attributes, Attributes::UNDERLINED_BIT, '4')
        + flag_code(attributes, Attributes::BLINKING_BIT, '5')
        + flag_code(attributes, Attributes::INVERTED_BIT, '7')
        + flag_code(attributes, Attributes::HIDDEN_BIT, '8')
        + flag_code(attributes, Attributes::CROSSED_BIT, '9')
}

/// The escape sequence of a style: `ESC[0`, the foreground, the background,
/// the attributes, and `m`. It resets the terminal and then selects the style.
#[verifier::opaque]
pub open spec fn style_sequence(style: Style) -> Seq<char> {
    seq!['\x1b', '[', '0'] + fg_code(style.fg) + bg_code(style.bg) + attribute_codes(
        style.attributes,
    ) + seq!['m']
}

/// The reset sequence `ESC[0m`, which is the sequence of the identity style.
pub open spec fn reset_sequence() -> Seq<char> {
    seq!['\x1b', '[', '0', 'm']
}

/// The identity style renders to the bare reset sequence.
pub proof fn lemma_identity_is_reset()
    ensures
        style_sequence(Style::identity()) == reset_sequence(),
{
    reveal(style_sequence);
    reveal(flag_code);
    assert(0u8 & 0x01 == 0 && 0u8 & 0x02 == 0 && 0u8 & 0x04 == 0 && 0u8 & 0x08 == 0 && 0u8 & 0x10
        == 0 && 0u8 & 0x20 == 0 && 0u8 & 0x40 == 0 && 0u8 & 0x80 == 0) by (bit_vector);
}

/// The one-character string of a decimal digit.
fn digit_str(d: u8) -> (s: &'static str)
    requires
        d < 10,
    ensures
        s@ == seq![digit(d as nat)],
{
    proof {
        reveal_strlit("0");
        reveal_strlit("1");
        reveal_strlit("2");
        reveal_strlit("3");
        reveal_strlit("4");
        reveal_strlit("5");
        reveal_strlit("6");
        reveal_strlit("7");
        reveal_strlit("8");
        reveal_strlit("9");
    }
    match d {
        0 => "0",
        1 => "1",
        2 => "2",
        3 => "3",
        4 => "4",
        5 => "5",
        6 => "6",
        7 => "7",
        8 => "8",
        _ => "9",
    }
}

/// Appends a number in decimal.
pub fn write_decimal(out: &mut String, n: u8)
    ensures
        final(out)@ == old(out)@ + decimal(n as nat),
{
    reveal_with_fuel(decimal, 3);
    if n >= 100 {
        out.append(digit_str(n / 100));
    }
    if n >= 10 {
        out.append(digit_str((n / 10) % 10));
    }
    out.append(digit_str(n % 10));
}

/// Appends the parameters that select a color; see [`color_code`].
fn write_color(out: &mut String, color: Color, base: &str, bright: &str)
    ensures
        final(out)@ == old(out)@ + color_code(color, base@, bright@),
{
    proof {
        reveal_strlit(";");
        reveal_strlit("8;5;");
        reveal_strlit("8;2;");
    }
    match color {
        Color::Default => {},
        Color::Ansi(c) => {
            out.append(";");
            if c.bright() {
                out.append(bright);
            } else {
                out.append(base);
            }
            out.append(digit_str(c.digit()));
        },
        Color::Ansi256(i) => {
            out.append(";");
            out.append(base);
            out.append("8;5;");
            write_decimal(out, i);
        },
        Color::Rgb(r, g, b) => {
            out.append(";");
            out.append(base);
            out.append("8;2;");
            write_decimal(out, r);
            out.append(";");
            write_decimal(out, g);
            out.append(";");
            write_decimal(out, b);
        },
    }
}

/// Appends the parameters of a foreground color; nothing for the default
/// color.
#[inline]
pub fn write_fg_color(out: &mut String, color: Color)
    ensures
        final(out)@ == old(out)@ + fg_code(color),
{
    proof {
        reveal_strlit("3");
        reveal_strlit("9");
    }
    write_color(out, color, "3", "9");
}

/// Appends the parameters of a background color; nothing for the default
/// color.
#[inline]
pub fn write_bg_color(out: &mut String, color: Color)
    ensures
        final(out)@ == old(out)@ + bg_code(color),
{
    proof {
        reveal_strlit("4");
        reveal_strlit("10");
    }
    write_color(out, color, "4", "10");
}

/// Appends the parameter of one attribute if it is set: `;` and the digit
/// `code`.
fn write_flag(out: &mut String, attributes: Attributes, bit: u8, code: u8)
    requires
        code < 10,
    ensures
        final(out)@ == old(out)@ + flag_code(attributes, bit, digit(code as nat)),
{
    reveal(flag_code);
    if attributes.as_bits() & bit != 0 {
        proof {
            reveal_strlit(";");
        }
        out.append(";");
        out.append(digit_str(code));
    }
}

/// Appends the parameters of a set of attributes, one per attribute that is
/// set, in the fixed order of [`attribute_codes`].
pub fn write_attributes(out: &mut String, attributes: Attributes)
    ensures
        final(out)@ == old(out)@ + attribute_codes(attributes),
{
    write_flag(out, attributes, Attributes::BOLD_BIT, 1);
    write_flag(out, attributes, Attributes::DIM_BIT, 2);
    write_flag(out, attributes, Attributes::ITALIC_BIT, 3);
    write_flag(out, attributes, Attributes::UNDERLINED_BIT, 4);
    write_flag(out, attributes, Attributes::BLINKING_BIT, 5);
    write_flag(out, attributes, Attributes::INVERTED_BIT, 7);
    write_flag(out, attributes, Attributes::HIDDEN_BIT, 8);
    write_flag(out, attributes, Attributes::CROSSED_BIT, 9);
}

/// Appends the escape sequence of a style, whatever the enable switch says.
/// The identity style gives the bare reset `ESC[0m`.
#[inline]
pub fn write_style(out: &mut String, style: Style)
    ensures
        final(out)@ == old(out)@ + style_sequence(style),
{
    proof {
        reveal(style_sequence);
        reveal_strlit("\x1b[0");
        reveal_strlit("m");
    }
    out.append("\x1b[0");
    write_fg_color(out, style.fg);
    write_bg_color(out, style.bg);
    write_attributes(out, style.attributes);
    out.append("m");
}

/// A value that can be rendered into text.
pub trait Render {
    /// The text that the value renders to in the given context.
    spec fn rendered(&self, ctx: RenderContext) -> Seq<char>;

    /// Appends the rendering of the value to `out`. The context is the same
    /// after the call as before it.
    fn fmt(&self, out: &mut String, ctx: &mut RenderContext)
        ensures
            final(out)@ == old(out)@ + self.rendered(*old(ctx)),
            *final(ctx) == *old(ctx),
    ;
}

/// Text renders to itself.
impl<'a> Render for &'a str {
    open spec fn rendered(&self, ctx: RenderContext) -> Seq<char> {
        self@
    }

    #[inline]
    fn fmt(&self, out: &mut String, ctx: &mut RenderContext) {
        out.append(*self);
    }
}

/// Text renders to itself.
impl Render for String {
    open spec fn rendered(&self, ctx: RenderContext) -> Seq<char> {
        self@
    }

    #[inline]
    fn fmt(&self, out: &mut String, ctx: &mut RenderContext) {
        out.append(self.as_str());
    }
}

/// A pair renders to its first part followed by its second part, both in the
/// same context.
impl<A: Render, B: Render> Render for (A, B) {
    open spec fn rendered(&self, ctx: RenderContext) -> Seq<char> {
        self.0.rendered(ctx) + self.1.rendered(ctx)
    }

    fn fmt(&self, out: &mut String, ctx: &mut RenderContext) {
        self.0.fmt(out, ctx);
        self.1.fmt(out, ctx);
    }
}

/// A style renders to its escape sequence where styling is enabled, and to
/// nothing where it is not.
impl Render for Style {
    open spec fn rendered(&self, ctx: RenderContext) -> Seq<char> {
        if ctx.enabled {
            style_sequence(*self)
        } else {
            Seq::empty()
        }
    }

    fn fmt(&self, out: &mut String, ctx: &mut RenderContext) {
        if !ctx.enabled {
            return ;
        }
        write_style(out, *self)
    }
}

/// The text of a styled region that begins in the given context: the sequence
/// of its style, its content rendered inside the region, and the sequence of
/// the style that its end brings back. Where styling is disabled this is the
/// content alone.
pub open spec fn styled_text<T: Render>(style: Style, content: &T, ctx: RenderContext) -> Seq<
    char,
> {
    style.rendered(ctx) + content.rendered(ctx.inside(style)) + ctx.restored().rendered(ctx)
}

/// The introducer of a hyperlink, `ESC]8;;`, which the URI follows.
pub open spec fn link_introducer() -> Seq<char> {
    seq!['\x1b', ']', '8', ';', ';']
}

/// The string terminator `ESC\`, which ends the URI.
pub open spec fn string_terminator() -> Seq<char> {
    seq!['\x1b', '\\']
}

/// The text of a hyperlink. Where styling is enabled: the introducer, the URI,
/// the terminator, the styled content, and an introducer with an empty URI
/// and its terminator, which close the link. Where it is disabled: the
/// content alone.
///
/// The URI is rendered in the context in which the hyperlink begins, as any
/// other value is: a styled value inside the URI emits its sequences.
pub open spec fn hyperlink_text<U: Render, T: Render>(
    uri: &U,
    style: Style,
    content: &T,
    ctx: RenderContext,
) -> Seq<char> {
    if ctx.enabled {
        link_introducer() + uri.rendered(ctx) + string_terminator() + styled_text(
            style,
            content,
            ctx,
        ) + link_introducer() + string_terminator()
    } else {
        content.rendered(ctx)
    }
}

/// Begins a styled region: writes the sequence of its style, records the
/// style in the slot as the one that now encloses, and returns the style that
/// the slot held, for [`end_region`].
pub fn begin_region(out: &mut String, ctx: &mut RenderContext, style: Style) -> (saved: Style)
    ensures
        final(out)@ == old(out)@ + style.rendered(*old(ctx)),
        *final(ctx) == old(ctx).inside(style),
        saved == old(ctx).reset_style,
{
    let saved = ctx.reset_style;
    style.fmt(out, ctx);
    ctx.reset_style = style;
    saved
}

/// Ends a styled region: writes the sequence of the style that encloses the
/// region (with the flat policy, of the identity style) and puts `saved`, the
/// style that [`begin_region`] returned, back into the slot.
pub fn end_region(out: &mut String, ctx: &mut RenderContext, saved: Style)
    ensures
        final(out)@ == old(out)@ + old(ctx).inside(saved).restored().rendered(*old(ctx)),
        *final(ctx) == old(ctx).inside(saved),
{
    let closing = match ctx.policy {
        ResetPolicy::Flat => Style::new(),
        ResetPolicy::Nested => saved,
    };
    closing.fmt(out, ctx);
    ctx.reset_style = saved;
}

/// Appends a styled region: the sequence of `style`, the content, and the
/// sequence that ends the region. The slot holds `style` while the content is
/// rendered and is restored afterwards.
pub fn write_styled<T: Render>(
    out: &mut String,
    ctx: &mut RenderContext,
    style: Style,
    content: &T,
)
    ensures
        final(out)@ == old(out)@ + styled_text(style, content, *old(ctx)),
        *final(ctx) == *old(ctx),
{
    let saved = begin_region(out, ctx, style);
    content.fmt(out, ctx);
    end_region(out, ctx, saved);
}

impl<T: Render> Render for Styled<T> {
    open spec fn rendered(&self, ctx: RenderContext) -> Seq<char> {
        styled_text(self.style, &self.content, ctx)
    }

    #[inline]
    fn fmt(&self, out: &mut String, ctx: &mut RenderContext) {
        write_styled(out, ctx, self.style, &self.content)
    }
}

/// Appends the introducer of a hyperlink, `ESC]8;;`.
#[inline]
pub fn write_link_introducer(out: &mut String)
    ensures
        final(out)@ == old(out)@ + link_introducer(),
{
    proof {
        reveal_strlit("\x1b]8;;");
    }
    out.append("\x1b]8;;");
}

/// Appends the string terminator, `ESC\`.
#[inline]
pub fn write_string_terminator(out: &mut String)
    ensures
        final(out)@ == old(out)@ + string_terminator(),
{
    proof {
        reveal_strlit("\x1b\\");
    }
    out.append("\x1b\\");
}

impl<U: Render, T: Render> Render for Hyperlink<U, T> {
    open spec fn rendered(&self, ctx: RenderContext) -> Seq<char> {
        hyperlink_text(&self.uri, self.style, &self.content, ctx)
    }

    fn fmt(&self, out: &mut String, ctx: &mut RenderContext) {
        if !ctx.enabled {
            return self.content.fmt(out, ctx);
        }
        write_link_introducer(out);
        self.uri.fmt(out, ctx);
        write_string_terminator(out);
        write_styled(out, ctx, self.style, &self.content);
        write_link_introducer(out);
        write_string_terminator(out);
    }
}

/// Where styling is disabled, a style renders to nothing, whatever the
/// style.
pub proof fn lemma_disabled_style_renders_nothing(style: Style, ctx: RenderContext)
    requires
        !ctx.enabled,
    ensures
        style.rendered(ctx) == Seq::<char>::empty(),
{
}

/// Where styling is enabled, the identity style renders to exactly the reset
/// sequence.
pub proof fn lemma_identity_renders_reset(ctx: RenderContext)
    requires
        ctx.enabled,
    ensures
        Style::identity().rendered(ctx) == reset_sequence(),
{
    lemma_identity_is_reset();
}

/// A styled value renders, in this order, to what its style renders to, to
/// its content as rendered inside the region, and to what the restored style
/// renders to. Where styling is disabled that is the content alone.
pub proof fn lemma_styled_rendering<T: Render>(styled: Styled<T>, ctx: RenderContext)
    ensures
        styled.rendered(ctx) == styled.style.rendered(ctx) + styled.content.rendered(
            ctx.inside(styled.style),
        ) + ctx.restored().rendered(ctx),
        !ctx.enabled ==> styled.rendered(ctx) == styled.content.rendered(ctx.inside(styled.style)),
{
}

/// Where styling is enabled, a hyperlink renders to the introducer, the URI,
/// the terminator, the styled content, and an empty link that closes it.
/// Where styling is disabled it renders to its content alone: no escape
/// sequence and no framing.
pub proof fn lemma_hyperlink_rendering<U: Render, T: Render>(
    link: Hyperlink<U, T>,
    ctx: RenderContext,
)
    ensures
        ctx.enabled ==> link.rendered(ctx) == link_introducer() + link.uri.rendered(ctx)
            + string_terminator() + (Styled { content: link.content, style: link.style }).rendered(
            ctx,
        ) + link_introducer() + string_terminator(),
        !ctx.enabled ==> link.rendered(ctx) == link.content.rendered(ctx),
{
}

/// The nesting law. Take a region of style `a` whose content holds a region
/// of style `b`, whose content holds a region of style `c`, each with content
/// before and after the region nested in it. With styling enabled and the
/// nested policy, the sequence that follows the innermost region is that of
/// `b`, the one that follows the middle region is that of `a`, and the one
/// that follows the outermost region is that of the style that enclosed it,
/// which at top level is the identity style, so the reset. No region ends by
/// falling back to the identity style while another region encloses it.
pub proof fn lemma_nested_regions_restore<P: Render, Q: Render, T: Render, R: Render, S: Render>(
    a: Style,
    b: Style,
    c: Style,
    before_b: P,
    before_c: Q,
    innermost: T,
    after_c: R,
    after_b: S,
    ctx: RenderContext,
)
    requires
        ctx.enabled,
        ctx.policy == ResetPolicy::Nested,
    ensures
        ({
            let inner = Styled { content: innermost, style: c };
            let middle = Styled { content: (before_c, (inner, after_c)), style: b };
            let outer = Styled { content: (before_b, (middle, after_b)), style: a };
            outer.rendered(ctx) == style_sequence(a) + before_b.rendered(ctx.inside(a))
                + style_sequence(b) + before_c.rendered(ctx.inside(b)) + style_sequence(c)
                + innermost.rendered(ctx.inside(c)) + style_sequence(b) + after_c.rendered(
                ctx.inside(b),
            ) + style_sequence(a) + after_b.rendered(ctx.inside(a)) + style_sequence(
                ctx.reset_style,
            )
        }),
        ctx.reset_style == Style::identity() ==> style_sequence(ctx.reset_style)
            == reset_sequence(),
{
    lemma_identity_is_reset();
}

/// With the flat policy every region ends with the reset sequence, whatever
/// encloses it: after a nested region the outer style is gone.
pub proof fn lemma_flat_regions_reset<P: Render, T: Render, S: Render>(
    outer: Style,
    inner: Style,
    before: P,
    innermost: T,
    after: S,
    ctx: RenderContext,
)
    requires
        ctx.enabled,
        ctx.policy == ResetPolicy::Flat,
    ensures
        (Styled {
            content: (before, (Styled { content: innermost, style: inner }, after)),
            style: outer,
        }).rendered(ctx) == style_sequence(outer) + before.rendered(ctx.inside(outer))
            + style_sequence(inner) + innermost.rendered(ctx.inside(inner)) + reset_sequence()
            + after.rendered(ctx.inside(outer)) + reset_sequence(),
{
    lemma_identity_is_reset();
}

/// Renders a value into a new string.
pub fn render<T: Render>(value: &T, ctx: RenderContext) -> (text: String)
    ensures
        text@ == value.rendered(ctx),
{
    let mut out = String::new();
    let mut ctx = ctx;
    value.fmt(&mut out, &mut ctx);
    out
}

} // verus!
