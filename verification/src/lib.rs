//! Codec and renderer for a 4-byte per-span text formatting record.
//!
//! The `text_formatting` module holds the data model and the binary codec;
//! this root module holds the renderer, which overlays a list of formatting
//! descriptors onto a message and emits styled markup, one unit per character.

pub mod text_formatting;

use vstd::prelude::*;
use vstd::string::StrSliceExecFns;
use vstd::string::StringExecFns;
pub use crate::text_formatting::Alignment;
pub use crate::text_formatting::CodecError;
pub use crate::text_formatting::Color;
pub use crate::text_formatting::FontSize;
pub use crate::text_formatting::Rgb;
pub use crate::text_formatting::Span;
pub use crate::text_formatting::TextFormatting;

verus! {

/// The lower-case hexadecimal digit for a value below 16.
pub open spec fn spec_hex_digit(n: int) -> char {
    if n == 0 {
        '0'
    } else if n == 1 {
        '1'
    } else if n == 2 {
        '2'
    } else if n == 3 {
        '3'
    } else if n == 4 {
        '4'
    } else if n == 5 {
        '5'
    } else if n == 6 {
        '6'
    } else if n == 7 {
        '7'
    } else if n == 8 {
        '8'
    } else if n == 9 {
        '9'
    } else if n == 10 {
        'a'
    } else if n == 11 {
        'b'
    } else if n == 12 {
        'c'
    } else if n == 13 {
        'd'
    } else if n == 14 {
        'e'
    } else {
        'f'
    }
}

/// A byte as two lower-case hexadecimal digits, high digit first.
pub open spec fn spec_hex_byte(b: u8) -> Seq<char> {
    seq![spec_hex_digit(b as int / 16), spec_hex_digit(b as int % 16)]
}

/// A color serialized as `#` followed by six lower-case hexadecimal
/// digits, two per channel, red then green then blue.
pub open spec fn spec_color_hex(color: Color) -> Seq<char> {
    "#"@ + spec_hex_byte(color.spec_rgb().0) + spec_hex_byte(color.spec_rgb().1) + spec_hex_byte(
        color.spec_rgb().2,
    )
}

fn hex_digit(n: u8) -> (c: char)
    requires
        n < 16,
    ensures
        c == spec_hex_digit(n as int),
{
    match n {
        0 => '0',
        1 => '1',
        2 => '2',
        3 => '3',
        4 => '4',
        5 => '5',
        6 => '6',
        7 => '7',
        8 => '8',
        9 => '9',
        10 => 'a',
        11 => 'b',
        12 => 'c',
        13 => 'd',
        14 => 'e',
        _ => 'f',
    }
}

/// Relies on String::push: appends exactly the given character at the end.
#[verifier::external_body]
fn push_char(s: &mut String, c: char)
    ensures
        final(s)@ == old(s)@.push(c),
{
    s.push(c);
}

fn push_hex_byte(s: &mut String, b: u8)
    ensures
        final(s)@ == old(s)@ + spec_hex_byte(b),
{
    push_char(s, hex_digit(b / 16));
    push_char(s, hex_digit(b % 16));
    assert(s@ =~= old(s)@ + spec_hex_byte(b));
}

fn color_to_hex(color: Color) -> (r: String)
    ensures
        r@ == spec_color_hex(color),
{
    let rgb = color.rgb();
    let mut r = String::new();
    r.append("#");
    push_hex_byte(&mut r, rgb.0);
    push_hex_byte(&mut r, rgb.1);
    push_hex_byte(&mut r, rgb.2);
    assert(r@ =~= spec_color_hex(color));
    r
}

/// The percentage token a font size renders as.
pub open spec fn spec_font_size_token(font_size: FontSize) -> Seq<char> {
    match font_size {
        FontSize::Normal => "100%"@,
        FontSize::Large => "150%"@,
        FontSize::Small => "50%"@,
    }
}

/// The font-weight property: present exactly when the bold flag is set.
pub open spec fn spec_weight_property(tf: TextFormatting) -> Seq<char> {
    if tf.bold {
        "font-weight: bold;"@
    } else {
        Seq::<char>::empty()
    }
}

/// The font-style property: present exactly when the italic flag is set.
pub open spec fn spec_italic_property(tf: TextFormatting) -> Seq<char> {
    if tf.italic {
        "font-style: italic;"@
    } else {
        Seq::<char>::empty()
    }
}

/// The single combined text-decoration property: present exactly when the
/// underline or the strikethrough flag is set, and then listing each of the
/// two decorations whose flag is set.
pub open spec fn spec_decoration_property(tf: TextFormatting) -> Seq<char> {
    if tf.underline || tf.strikethrough {
        "text-decoration:"@ + (if tf.underline {
            " underline"@
        } else {
            Seq::<char>::empty()
        }) + (if tf.strikethrough {
            " line-through"@
        } else {
            Seq::<char>::empty()
        }) + ";"@
    } else {
        Seq::<char>::empty()
    }
}

/// The font-size property, always present.
pub open spec fn spec_font_size_property(tf: TextFormatting) -> Seq<char> {
    "font-size: "@ + spec_font_size_token(tf.font_size) + ";"@
}

/// The foreground color property, always present.
pub open spec fn spec_color_property(tf: TextFormatting) -> Seq<char> {
    "color: "@ + spec_color_hex(tf.foreground_color) + ";"@
}

/// The background color property, always present.
pub open spec fn spec_background_property(tf: TextFormatting) -> Seq<char> {
    "background-color: "@ + spec_color_hex(tf.background_color) + ";"@
}

/// The style declaration a descriptor renders as: the optional weight,
/// style and decoration properties for the flags that are set, then the
/// font size and the two colors. Alignment is not rendered.
pub open spec fn spec_style(tf: TextFormatting) -> Seq<char> {
    spec_weight_property(tf) + spec_italic_property(tf) + spec_decoration_property(tf)
        + spec_font_size_property(tf) + spec_color_property(tf) + spec_background_property(tf)
}

fn decoration_property(tf: &TextFormatting) -> (r: String)
    ensures
        r@ == spec_decoration_property(*tf),
{
    let mut r = String::new();
    if tf.underline || tf.strikethrough {
        r.append("text-decoration:");
        if tf.underline {
            r.append(" underline");
        }
        if tf.strikethrough {
            r.append(" line-through");
        }
        r.append(";");
        assert(r@ =~= spec_decoration_property(*tf));
    }
    r
}

fn font_size_property(tf: &TextFormatting) -> (r: String)
    ensures
        r@ == spec_font_size_property(*tf),
{
    let mut r = String::new();
    r.append("font-size: ");
    r.append(
        match tf.font_size {
            FontSize::Normal => "100%",
            FontSize::Large => "150%",
            FontSize::Small => "50%",
        },
    );
    r.append(";");
    assert(r@ =~= spec_font_size_property(*tf));
    r
}

fn color_property(tf: &TextFormatting) -> (r: String)
    ensures
        r@ == spec_color_property(*tf),
{
    let mut r = String::new();
    r.append("color: ");
    let hex = color_to_hex(tf.foreground_color);
    r.append(hex.as_str());
    r.append(";");
    assert(r@ =~= spec_color_property(*tf));
    r
}

fn background_property(tf: &TextFormatting) -> (r: String)
    ensures
        r@ == spec_background_property(*tf),
{
    let mut r = String::new();
    r.append("background-color: ");
    let hex = color_to_hex(tf.background_color);
    r.append(hex.as_str());
    r.append(";");
    assert(r@ =~= spec_background_property(*tf));
    r
}

fn style_of(tf: &TextFormatting) -> (r: String)
    ensures
        r@ == spec_style(*tf),
{
    let mut style = String::new();

    if tf.bold {
        style.append("font-weight: bold;");
    }
    assert(style@ =~= spec_weight_property(*tf));
    if tf.italic {
        style.append("font-style: italic;");
    }
    assert(style@ =~= spec_weight_property(*tf) + spec_italic_property(*tf));

    let decoration = decoration_property(tf);
    style.append(decoration.as_str());
    let font_size = font_size_property(tf);
    style.append(font_size.as_str());
    let color = color_property(tf);
    style.append(color.as_str());
    let background = background_property(tf);
    style.append(background.as_str());

    style
}

/// The descriptor in effect at a character position: the last descriptor in
/// the list whose span contains the position, or the default descriptor when
/// none does. Later list entries override earlier ones on overlap.
pub open spec fn spec_effective(tfs: Seq<TextFormatting>, position: int) -> TextFormatting
    decreases tfs.len(),
{
    if tfs.len() == 0 {
        TextFormatting::spec_default()
    } else if tfs.last().span.spec_contains(position) {
        tfs.last()
    } else {
        spec_effective(tfs.drop_last(), position)
    }
}

/// When no span in the list contains the position, the default descriptor
/// is in effect; when some span does, the descriptor in effect is the one
/// at the largest such index: the last matching entry wins.
pub proof fn lemma_effective_last_match(tfs: Seq<TextFormatting>, position: int)
    ensures
        (forall|k: int| 0 <= k < tfs.len() ==> !tfs[k].span.spec_contains(position))
            ==> spec_effective(tfs, position) == TextFormatting::spec_default(),
        (exists|k: int| 0 <= k < tfs.len() && tfs[k].span.spec_contains(position)) ==> exists|
            j: int,
        |
            {
                &&& 0 <= j < tfs.len()
                &&& tfs[j].span.spec_contains(position)
                &&& spec_effective(tfs, position) == tfs[j]
                &&& forall|k: int| j < k < tfs.len() ==> !tfs[k].span.spec_contains(position)
            },
    decreases tfs.len(),
{
    if tfs.len() > 0 {
        if tfs.last().span.spec_contains(position) {
            let j = tfs.len() - 1;
            assert({
                &&& 0 <= j < tfs.len()
                &&& tfs[j].span.spec_contains(position)
                &&& spec_effective(tfs, position) == tfs[j]
                &&& forall|k: int| j < k < tfs.len() ==> !tfs[k].span.spec_contains(position)
            });
        } else {
            lemma_effective_last_match(tfs.drop_last(), position);
            if exists|k: int| 0 <= k < tfs.len() && tfs[k].span.spec_contains(position) {
                let k0 = choose|k: int| 0 <= k < tfs.len() && tfs[k].span.spec_contains(position);
                assert(0 <= k0 < tfs.len() - 1 && tfs.drop_last()[k0].span.spec_contains(position));
                let j = choose|j: int|
                    {
                        &&& 0 <= j < tfs.drop_last().len()
                        &&& tfs.drop_last()[j].span.spec_contains(position)
                        &&& spec_effective(tfs.drop_last(), position) == tfs.drop_last()[j]
                        &&& forall|k: int|
                            j < k < tfs.drop_last().len() ==> !tfs.drop_last()[k].span.spec_contains(
                                position,
                            )
                    };
                assert(0 <= j < tfs.len() - 1);
                assert(tfs.drop_last()[j] == tfs[j]);
                assert(tfs[j].span.spec_contains(position));
                assert(spec_effective(tfs, position) == tfs[j]);
                assert forall|k: int| j < k < tfs.len() implies !tfs[k].span.spec_contains(
                    position,
                ) by {
                    if k < tfs.len() - 1 {
                        assert(tfs.drop_last()[k] == tfs[k]);
                        assert(!tfs.drop_last()[k].span.spec_contains(position));
                    } else {
                        assert(tfs[k] == tfs.last());
                    }
                }
                assert({
                    &&& 0 <= j < tfs.len()
                    &&& tfs[j].span.spec_contains(position)
                    &&& spec_effective(tfs, position) == tfs[j]
                    &&& forall|k: int| j < k < tfs.len() ==> !tfs[k].span.spec_contains(position)
                });
            }
        }
    }
}

fn effective(tfs: &[TextFormatting], position: usize) -> (r: TextFormatting)
    ensures
        r == spec_effective(tfs@, position as int),
{
    let mut r = TextFormatting::default();
    let mut j: usize = 0;
    while j < tfs.len()
        invariant
            j <= tfs@.len(),
            r == spec_effective(tfs@.subrange(0, j as int), position as int),
        decreases tfs@.len() - j,
    {
        let tf = tfs[j];
        proof {
            assert(tfs@.subrange(0, j + 1).drop_last() =~= tfs@.subrange(0, j as int));
            assert(tfs@.subrange(0, j + 1).last() == tfs@[j as int]);
        }
        if tf.span.contains(position) {
            r = tf;
        }
        j += 1;
    }
    proof {
        assert(tfs@.subrange(0, tfs@.len() as int) =~= tfs@);
    }
    r
}

/// The token a single character renders as: a non-breaking-space token for
/// a space, a line-break token for a newline, the character itself
/// otherwise.
pub open spec fn spec_rendered_char(c: char) -> Seq<char> {
    if c == ' ' {
        "&nbsp"@
    } else if c == '\n' {
        "<br>"@
    } else {
        seq![c]
    }
}

/// The styled markup unit one character renders as: the character's token
/// wrapped alone with the style of its effective descriptor.
pub open spec fn spec_unit(c: char, tf: TextFormatting) -> Seq<char> {
    "<span style=\""@ + spec_style(tf) + "\">"@ + spec_rendered_char(c) + "</span>"@
}

/// The markup a whole message renders as: one styled unit per character,
/// in message order, each styled by the descriptor in effect at its
/// position. An empty message renders as empty output.
pub open spec fn spec_format(s: Seq<char>, tfs: Seq<TextFormatting>) -> Seq<char>
    decreases s.len(),
{
    if s.len() == 0 {
        Seq::<char>::empty()
    } else {
        spec_format(s.drop_last(), tfs) + spec_unit(s.last(), spec_effective(tfs, s.len() - 1))
    }
}

fn render_char(out: &mut String, c: char)
    ensures
        final(out)@ == old(out)@ + spec_rendered_char(c),
{
    if c == ' ' {
        out.append("&nbsp");
    } else if c == '\n' {
        out.append("<br>");
    } else {
        push_char(out, c);
        assert(out@ =~= old(out)@ + seq![c]);
    }
}

/// Renders a message overlaid with a list of formatting records into styled
/// markup: one unit per character, each wrapped with the style declaration
/// of the descriptor in effect at its position, spaces and newlines
/// replaced by their tokens.
pub fn format(s: &str, tfs: &[TextFormatting]) -> (r: String)
    ensures
        r@ == spec_format(s@, tfs@),
{
    let n = s.unicode_len();
    let mut out = String::new();
    let mut i: usize = 0;
    while i < n
        invariant
            i <= n,
            n == s@.len(),
            out@ == spec_format(s@.subrange(0, i as int), tfs@),
        decreases n - i,
    {
        let ghost prefix = s@.subrange(0, i as int);
        let ghost out_before = out@;
        let c = s.get_char(i);
        let tf = effective(tfs, i);
        out.append("<span style=\"");
        let style = style_of(&tf);
        out.append(style.as_str());
        out.append("\">");
        render_char(&mut out, c);
        out.append("</span>");
        proof {
            let longer = s@.subrange(0, i + 1);
            assert(longer.drop_last() =~= prefix);
            assert(longer.last() == s@[i as int]);
            assert(out@ =~= out_before + spec_unit(s@[i as int], tf));
        }
        i += 1;
    }
    proof {
        assert(s@.subrange(0, s@.len() as int) =~= s@);
    }
    out
}

} // verus!
