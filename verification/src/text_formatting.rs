//! Data model for a single text formatting record and its 4-byte wire codec.
//!
//! A record is `[start_position, length, mode, color]`: the mode byte packs
//! the alignment (bits 0-1), the font size (bits 2-3) and four style flags
//! (bits 4-7); the color byte packs the foreground color in the low nibble
//! and the background color in the high nibble.

use vstd::prelude::*;

verus! {

/// Why a record could not be decoded or a descriptor could not be encoded.
#[derive(Debug, Copy, Clone, PartialEq, Eq, Structural)]
pub enum CodecError {
    /// The binary input is not exactly 4 bytes long.
    InvalidLength,
    /// The font-size field holds the reserved bit pattern `11`.
    ReservedValue,
    /// A span's start position or length does not fit in 8 bits.
    OutOfRange,
}

/// Paragraph alignment, a 2-bit field; all four bit patterns are assigned.
#[derive(Debug, Copy, Clone, PartialEq, Eq, Structural)]
pub enum Alignment {
    Left,
    Center,
    Right,
    LanguageDependent,
}

impl Alignment {
    /// The variant encoded by a 2-bit pattern.
    pub open spec fn spec_from_bits(bits: u8) -> Alignment {
        if bits == 0b00 {
            Alignment::Left
        } else if bits == 0b01 {
            Alignment::Center
        } else if bits == 0b10 {
            Alignment::Right
        } else {
            Alignment::LanguageDependent
        }
    }

    /// The 2-bit pattern encoding this variant.
    pub open spec fn spec_to_bits(self) -> u8 {
        match self {
            Alignment::Left => 0b00,
            Alignment::Center => 0b01,
            Alignment::Right => 0b10,
            Alignment::LanguageDependent => 0b11,
        }
    }

    /// Decodes a 2-bit alignment field; every pattern is valid.
    pub fn from_bits(bits: u8) -> (r: Alignment)
        requires
            bits < 4,
        ensures
            r == Alignment::spec_from_bits(bits),
    {
        match bits {
            0b00 => Alignment::Left,
            0b01 => Alignment::Center,
            0b10 => Alignment::Right,
            _ => Alignment::LanguageDependent,
        }
    }

    /// Encodes this variant as its 2-bit pattern.
    pub fn to_bits(self) -> (r: u8)
        ensures
            r == self.spec_to_bits(),
            r < 4,
    {
        match self {
            Alignment::Left => 0b00,
            Alignment::Center => 0b01,
            Alignment::Right => 0b10,
            Alignment::LanguageDependent => 0b11,
        }
    }
}

/// Decoding then re-encoding an alignment bit pattern restores it exactly:
/// the 2-bit mapping is a bijection.
pub proof fn lemma_alignment_bits_round_trip(bits: u8)
    requires
        bits < 4,
    ensures
        Alignment::spec_from_bits(bits).spec_to_bits() == bits,
{
}

/// Re-encoding then decoding an alignment variant restores it exactly.
pub proof fn lemma_alignment_round_trip(alignment: Alignment)
    ensures
        Alignment::spec_from_bits(alignment.spec_to_bits()) == alignment,
{
}

/// Font size, a 2-bit field; the pattern `11` is reserved and rejected.
#[derive(Debug, Copy, Clone, PartialEq, Eq, Structural)]
pub enum FontSize {
    Normal,
    Large,
    Small,
}

impl FontSize {
    /// The variant encoded by a valid (non-reserved) 2-bit pattern.
    pub open spec fn spec_from_bits(bits: u8) -> FontSize {
        if bits == 0b00 {
            FontSize::Normal
        } else if bits == 0b01 {
            FontSize::Large
        } else {
            FontSize::Small
        }
    }

    /// The 2-bit pattern encoding this variant; never the reserved `11`.
    pub open spec fn spec_to_bits(self) -> u8 {
        match self {
            FontSize::Normal => 0b00,
            FontSize::Large => 0b01,
            FontSize::Small => 0b10,
        }
    }

    /// Decodes a 2-bit font-size field; the reserved pattern `11` is an error.
    pub fn from_bits(bits: u8) -> (r: Result<FontSize, CodecError>)
        requires
            bits < 4,
        ensures
            bits == 3 ==> r == Err::<FontSize, CodecError>(CodecError::ReservedValue),
            bits < 3 ==> r == Ok::<FontSize, CodecError>(FontSize::spec_from_bits(bits)),
    {
        match bits {
            0b00 => Ok(FontSize::Normal),
            0b01 => Ok(FontSize::Large),
            0b10 => Ok(FontSize::Small),
            _ => Err(CodecError::ReservedValue),
        }
    }

    /// Encodes this variant as its 2-bit pattern.
    pub fn to_bits(self) -> (r: u8)
        ensures
            r == self.spec_to_bits(),
            r < 3,
    {
        match self {
            FontSize::Normal => 0b00,
            FontSize::Large => 0b01,
            FontSize::Small => 0b10,
        }
    }
}

/// Decoding then re-encoding a valid font-size bit pattern restores it.
pub proof fn lemma_font_size_bits_round_trip(bits: u8)
    requires
        bits < 3,
    ensures
        FontSize::spec_from_bits(bits).spec_to_bits() == bits,
{
}

/// Re-encoding then decoding a font-size variant restores it exactly.
pub proof fn lemma_font_size_round_trip(font_size: FontSize)
    ensures
        FontSize::spec_from_bits(font_size.spec_to_bits()) == font_size,
{
}

/// A 16-entry color palette, a 4-bit field; all sixteen nibbles are assigned.
#[derive(Debug, Copy, Clone, PartialEq, Eq, Structural)]
pub enum Color {
    Black,
    DarkGrey,
    DarkRed,
    DarkYellow,
    DarkGreen,
    DarkCyan,
    DarkBlue,
    DarkMagenta,
    Grey,
    White,
    BrightRed,
    BrightYellow,
    BrightGreen,
    BrightCyan,
    BrightBlue,
    BrightMagenta,
}

/// A color resolved to its red, green and blue channels.
pub type Rgb = (u8, u8, u8);

impl Color {
    /// The variant encoded by a 4-bit nibble; every nibble is valid.
    pub open spec fn spec_from_nibble(nibble: u8) -> Color {
        if nibble == 0b0000 {
            Color::Black
        } else if nibble == 0b0001 {
            Color::DarkGrey
        } else if nibble == 0b0010 {
            Color::DarkRed
        } else if nibble == 0b0011 {
            Color::DarkYellow
        } else if nibble == 0b0100 {
            Color::DarkGreen
        } else if nibble == 0b0101 {
            Color::DarkCyan
        } else if nibble == 0b0110 {
            Color::DarkBlue
        } else if nibble == 0b0111 {
            Color::DarkMagenta
        } else if nibble == 0b1000 {
            Color::Grey
        } else if nibble == 0b1001 {
            Color::White
        } else if nibble == 0b1010 {
            Color::BrightRed
        } else if nibble == 0b1011 {
            Color::BrightYellow
        } else if nibble == 0b1100 {
            Color::BrightGreen
        } else if nibble == 0b1101 {
            Color::BrightCyan
        } else if nibble == 0b1110 {
            Color::BrightBlue
        } else {
            Color::BrightMagenta
        }
    }

    /// The 4-bit nibble encoding this variant.
    pub open spec fn spec_to_nibble(self) -> u8 {
        match self {
            Color::Black => 0b0000,
            Color::DarkGrey => 0b0001,
            Color::DarkRed => 0b0010,
            Color::DarkYellow => 0b0011,
            Color::DarkGreen => 0b0100,
            Color::DarkCyan => 0b0101,
            Color::DarkBlue => 0b0110,
            Color::DarkMagenta => 0b0111,
            Color::Grey => 0b1000,
            Color::White => 0b1001,
            Color::BrightRed => 0b1010,
            Color::BrightYellow => 0b1011,
            Color::BrightGreen => 0b1100,
            Color::BrightCyan => 0b1101,
            Color::BrightBlue => 0b1110,
            Color::BrightMagenta => 0b1111,
        }
    }

    /// The fixed red, green and blue channels of this palette entry.
    pub open spec fn spec_rgb(self) -> Rgb {
        match self {
            Color::Black => (0x00, 0x00, 0x00),
            Color::DarkGrey => (0x3f, 0x3f, 0x3f),
            Color::DarkRed => (0x7f, 0x00, 0x00),
            Color::DarkYellow => (0x7f, 0x7f, 0x00),
            Color::DarkGreen => (0x00, 0x7f, 0x00),
            Color::DarkCyan => (0x00, 0x7f, 0x7f),
            Color::DarkBlue => (0x00, 0x00, 0x7f),
            Color::DarkMagenta => (0x7f, 0x00, 0x7f),
            Color::Grey => (0xbf, 0xbf, 0xbf),
            Color::White => (0xff, 0xff, 0xff),
            Color::BrightRed => (0xff, 0x00, 0x00),
            Color::BrightYellow => (0xff, 0xff, 0x00),
            Color::BrightGreen => (0x00, 0xff, 0x00),
            Color::BrightCyan => (0x00, 0xff, 0xff),
            Color::BrightBlue => (0x00, 0x00, 0xff),
            Color::BrightMagenta => (0xff, 0x00, 0xff),
        }
    }

    /// Decodes a 4-bit color nibble; every nibble is valid.
    pub fn from_nibble(nibble: u8) -> (r: Color)
        requires
            nibble < 16,
        ensures
            r == Color::spec_from_nibble(nibble),
    {
        match nibble {
            0b0000 => Color::Black,
            0b0001 => Color::DarkGrey,
            0b0010 => Color::DarkRed,
            0b0011 => Color::DarkYellow,
            0b0100 => Color::DarkGreen,
            0b0101 => Color::DarkCyan,
            0b0110 => Color::DarkBlue,
            0b0111 => Color::DarkMagenta,
            0b1000 => Color::Grey,
            0b1001 => Color::White,
            0b1010 => Color::BrightRed,
            0b1011 => Color::BrightYellow,
            0b1100 => Color::BrightGreen,
            0b1101 => Color::BrightCyan,
            0b1110 => Color::BrightBlue,
            _ => Color::BrightMagenta,
        }
    }

    /// Encodes this variant as its 4-bit nibble.
    pub fn to_nibble(self) -> (r: u8)
        ensures
            r == self.spec_to_nibble(),
            r < 16,
    {
        match self {
            Color::Black => 0b0000,
            Color::DarkGrey => 0b0001,
            Color::DarkRed => 0b0010,
            Color::DarkYellow => 0b0011,
            Color::DarkGreen => 0b0100,
            Color::DarkCyan => 0b0101,
            Color::DarkBlue => 0b0110,
            Color::DarkMagenta => 0b0111,
            Color::Grey => 0b1000,
            Color::White => 0b1001,
            Color::BrightRed => 0b1010,
            Color::BrightYellow => 0b1011,
            Color::BrightGreen => 0b1100,
            Color::BrightCyan => 0b1101,
            Color::BrightBlue => 0b1110,
            Color::BrightMagenta => 0b1111,
        }
    }

    /// Resolves this palette entry to its fixed red, green and blue channels.
    pub fn rgb(self) -> (r: Rgb)
        ensures
            r == self.spec_rgb(),
    {
        match self {
            Color::Black => (0x00, 0x00, 0x00),
            Color::DarkGrey => (0x3f, 0x3f, 0x3f),
            Color::DarkRed => (0x7f, 0x00, 0x00),
            Color::DarkYellow => (0x7f, 0x7f, 0x00),
            Color::DarkGreen => (0x00, 0x7f, 0x00),
            Color::DarkCyan => (0x00, 0x7f, 0x7f),
            Color::DarkBlue => (0x00, 0x00, 0x7f),
            Color::DarkMagenta => (0x7f, 0x00, 0x7f),
            Color::Grey => (0xbf, 0xbf, 0xbf),
            Color::White => (0xff, 0xff, 0xff),
            Color::BrightRed => (0xff, 0x00, 0x00),
            Color::BrightYellow => (0xff, 0xff, 0x00),
            Color::BrightGreen => (0x00, 0xff, 0x00),
            Color::BrightCyan => (0x00, 0xff, 0xff),
            Color::BrightBlue => (0x00, 0x00, 0xff),
            Color::BrightMagenta => (0xff, 0x00, 0xff),
        }
    }
}

/// Decoding then re-encoding a color nibble restores it exactly:
/// the 4-bit mapping is a bijection.
pub proof fn lemma_color_nibble_round_trip(nibble: u8)
    requires
        nibble < 16,
    ensures
        Color::spec_from_nibble(nibble).spec_to_nibble() == nibble,
{
}

/// Re-encoding then decoding a color variant restores it exactly.
pub proof fn lemma_color_round_trip(color: Color)
    ensures
        Color::spec_from_nibble(color.spec_to_nibble()) == color,
{
}

/// The character range a formatting record applies to: an explicit
/// start-and-length window, or every position.
#[derive(Debug, Copy, Clone, PartialEq, Eq, Structural)]
pub enum Span {
    StartLength { start_position: usize, length: usize },
    Default,
}

impl Span {
    /// Whether a character position falls inside this span: inside the
    /// half-open window `[start_position, start_position + length)` for an
    /// explicit span, everywhere for the default span.
    pub open spec fn spec_contains(self, position: int) -> bool {
        match self {
            Span::StartLength { start_position, length } => {
                start_position <= position < start_position + length
            },
            Span::Default => true,
        }
    }

    /// Whether a character position falls inside this span.
    pub fn contains(&self, position: usize) -> (r: bool)
        ensures
            r == self.spec_contains(position as int),
    {
        match self {
            Span::StartLength { start_position, length } => {
                position >= *start_position && position - *start_position < *length
            },
            Span::Default => true,
        }
    }
}

/// The default span contains every position.
pub proof fn lemma_default_span_contains_all(position: int)
    ensures
        Span::Default.spec_contains(position),
{
}

/// A formatting descriptor: the span it applies to, paragraph alignment,
/// font size, four independent style flags, and the two colors.
#[derive(Debug, Copy, Clone, PartialEq, Eq, Structural)]
pub struct TextFormatting {
    pub span: Span,
    pub alignment: Alignment,
    pub font_size: FontSize,
    pub bold: bool,
    pub italic: bool,
    pub underline: bool,
    pub strikethrough: bool,
    pub foreground_color: Color,
    pub background_color: Color,
}

impl TextFormatting {
    /// The descriptor applied where no record matches: every position,
    /// left-aligned, normal size, no style flags, black on white.
    pub open spec fn spec_default() -> TextFormatting {
        TextFormatting {
            span: Span::Default,
            alignment: Alignment::Left,
            font_size: FontSize::Normal,
            bold: false,
            italic: false,
            underline: false,
            strikethrough: false,
            foreground_color: Color::Black,
            background_color: Color::White,
        }
    }
}

impl Default for TextFormatting {
    /// The default descriptor.
    fn default() -> (r: TextFormatting)
        ensures
            r == TextFormatting::spec_default(),
    {
        TextFormatting {
            span: Span::Default,
            alignment: Alignment::Left,
            font_size: FontSize::Normal,
            bold: false,
            italic: false,
            underline: false,
            strikethrough: false,
            foreground_color: Color::Black,
            background_color: Color::White,
        }
    }
}

impl TextFormatting {
    /// The descriptor encoded by a binary record, or the error rejecting it:
    /// not exactly 4 bytes, or a reserved font-size field.
    pub open spec fn spec_from_ied(bytes: Seq<u8>) -> Result<TextFormatting, CodecError> {
        if bytes.len() != 4 {
            Err(CodecError::InvalidLength)
        } else if (bytes[2] >> 2) & 0b11 == 0b11 {
            Err(CodecError::ReservedValue)
        } else {
            Ok(
                TextFormatting {
                    span: if bytes[0] != 0 {
                        Span::StartLength {
                            start_position: bytes[0] as usize,
                            length: bytes[1] as usize,
                        }
                    } else {
                        Span::Default
                    },
                    alignment: Alignment::spec_from_bits(bytes[2] & 0b11),
                    font_size: FontSize::spec_from_bits((bytes[2] >> 2) & 0b11),
                    bold: (bytes[2] >> 4) & 0b1 == 0b1,
                    italic: (bytes[2] >> 5) & 0b1 == 0b1,
                    underline: (bytes[2] >> 6) & 0b1 == 0b1,
                    strikethrough: (bytes[2] >> 7) & 0b1 == 0b1,
                    foreground_color: Color::spec_from_nibble(bytes[3] & 0b1111),
                    background_color: Color::spec_from_nibble((bytes[3] >> 4) & 0b1111),
                },
            )
        }
    }

    /// The mode byte encoding this descriptor: alignment in bits 0-1, font
    /// size in bits 2-3, then the bold, italic, underline and strikethrough
    /// flags in bits 4-7.
    pub open spec fn spec_mode_byte(self) -> u8 {
        self.alignment.spec_to_bits() | (self.font_size.spec_to_bits() << 2) | ((if self.bold {
            1u8
        } else {
            0u8
        }) << 4) | ((if self.italic {
            1u8
        } else {
            0u8
        }) << 5) | ((if self.underline {
            1u8
        } else {
            0u8
        }) << 6) | ((if self.strikethrough {
            1u8
        } else {
            0u8
        }) << 7)
    }

    /// The color byte encoding this descriptor: foreground in the low
    /// nibble, background in the high nibble.
    pub open spec fn spec_color_byte(self) -> u8 {
        (self.background_color.spec_to_nibble() << 4) | self.foreground_color.spec_to_nibble()
    }

    /// The binary record encoding this descriptor, or the error rejecting
    /// it: an explicit span whose start or length does not fit in a byte.
    /// A default span is encoded as start 0 and length 0.
    pub open spec fn spec_to_ied(self) -> Result<Seq<u8>, CodecError> {
        match self.span {
            Span::StartLength { start_position, length } => {
                if start_position > 255 || length > 255 {
                    Err(CodecError::OutOfRange)
                } else {
                    Ok(
                        seq![
                            start_position as u8,
                            length as u8,
                            self.spec_mode_byte(),
                            self.spec_color_byte(),
                        ],
                    )
                }
            },
            Span::Default => {
                Ok(seq![0u8, 0u8, self.spec_mode_byte(), self.spec_color_byte()])
            },
        }
    }

    /// Decodes a 4-byte binary record into a formatting descriptor.
    ///
    /// Fails with `InvalidLength` unless the input is exactly 4 bytes, and
    /// with `ReservedValue` if the font-size field is the reserved pattern
    /// `11`; every other input decodes. A record whose first byte is 0 has
    /// the default span, whatever its length byte holds.
    pub fn from_ied(ied: &[u8]) -> (r: Result<TextFormatting, CodecError>)
        ensures
            r == TextFormatting::spec_from_ied(ied@),
    {
        if ied.len() != 4 {
            return Err(CodecError::InvalidLength);
        }
        let start_position = ied[0];
        let length = ied[1];
        let mode = ied[2];
        let color = ied[3];

        let span = if start_position != 0 {
            Span::StartLength { start_position: start_position as usize, length: length as usize }
        } else {
            Span::Default
        };

        assert(mode & 0b11 < 4 && (mode >> 2) & 0b11 < 4) by (bit_vector);
        assert(color & 0b1111 < 16 && (color >> 4) & 0b1111 < 16) by (bit_vector);

        let alignment = Alignment::from_bits(mode & 0b11);
        let font_size = match FontSize::from_bits((mode >> 2) & 0b11) {
            Ok(font_size) => font_size,
            Err(e) => {
                return Err(e);
            },
        };
        let bold = (mode >> 4) & 0b1 == 0b1;
        let italic = (mode >> 5) & 0b1 == 0b1;
        let underline = (mode >> 6) & 0b1 == 0b1;
        let strikethrough = (mode >> 7) & 0b1 == 0b1;
        let foreground_color = Color::from_nibble(color & 0b1111);
        let background_color = Color::from_nibble((color >> 4) & 0b1111);

        Ok(
            TextFormatting {
                span,
                alignment,
                font_size,
                bold,
                italic,
                underline,
                strikethrough,
                foreground_color,
                background_color,
            },
        )
    }

    /// Encodes this descriptor as a 4-byte binary record.
    ///
    /// Fails with `OutOfRange` if an explicit span's start position or
    /// length exceeds 255; every other descriptor encodes. A default span
    /// is emitted as start 0 and length 0.
    pub fn to_ied(&self) -> (r: Result<Vec<u8>, CodecError>)
        ensures
            match self.spec_to_ied() {
                Ok(bytes) => r matches Ok(v) && v@ == bytes,
                Err(e) => r == Err::<Vec<u8>, CodecError>(e),
            },
    {
        let (start_position, length) = match self.span {
            Span::StartLength { start_position, length } => {
                if start_position > 255 || length > 255 {
                    return Err(CodecError::OutOfRange);
                }
                (start_position as u8, length as u8)
            },
            Span::Default => (0u8, 0u8),
        };

        let alignment_bits = self.alignment.to_bits();
        let font_size_bits = self.font_size.to_bits();
        let bold_bit: u8 = if self.bold { 1 } else { 0 };
        let italic_bit: u8 = if self.italic { 1 } else { 0 };
        let underline_bit: u8 = if self.underline { 1 } else { 0 };
        let strikethrough_bit: u8 = if self.strikethrough { 1 } else { 0 };
        let mode = alignment_bits | (font_size_bits << 2) | (bold_bit << 4) | (italic_bit << 5) | (
        underline_bit << 6) | (strikethrough_bit << 7);

        let color = (self.background_color.to_nibble() << 4) | self.foreground_color.to_nibble();

        let r = vec![start_position, length, mode, color];
        assert(r@ =~= seq![start_position, length, mode, color]);
        Ok(r)
    }
}

impl TextFormatting {
    /// Whether this descriptor is one that a successful decode can produce:
    /// its span is either the default span or an explicit window whose start
    /// is a non-zero byte value and whose length is a byte value.
    pub open spec fn is_wire_decoded(self) -> bool {
        match self.span {
            Span::StartLength { start_position, length } => {
                1 <= start_position <= 255 && length <= 255
            },
            Span::Default => true,
        }
    }
}

/// Round trip: every descriptor that a successful decode can produce
/// encodes without error, and decoding the encoded record restores the
/// descriptor exactly.
pub proof fn lemma_ied_round_trip(tf: TextFormatting)
    requires
        tf.is_wire_decoded(),
    ensures
        tf.spec_to_ied() matches Ok(bytes) && TextFormatting::spec_from_ied(bytes) == Ok::<
            TextFormatting,
            CodecError,
        >(tf),
{
    let a = tf.alignment.spec_to_bits();
    let f = tf.font_size.spec_to_bits();
    let b = if tf.bold { 1u8 } else { 0u8 };
    let i = if tf.italic { 1u8 } else { 0u8 };
    let u = if tf.underline { 1u8 } else { 0u8 };
    let s = if tf.strikethrough { 1u8 } else { 0u8 };
    let m = tf.spec_mode_byte();
    assert(a < 4);
    assert(f < 3);
    assert(m == a | (f << 2) | (b << 4) | (i << 5) | (u << 6) | (s << 7));
    assert((m & 0b11) == a && ((m >> 2) & 0b11) == f && ((m >> 4) & 0b1) == b && ((m >> 5) & 0b1)
        == i && ((m >> 6) & 0b1) == u && ((m >> 7) & 0b1) == s && (m >> 2) & 0b11 != 0b11)
        by (bit_vector)
        requires
            m == a | (f << 2) | (b << 4) | (i << 5) | (u << 6) | (s << 7),
            a < 4,
            f < 3,
            b < 2,
            i < 2,
            u < 2,
            s < 2,
    ;
    lemma_alignment_round_trip(tf.alignment);
    lemma_font_size_round_trip(tf.font_size);

    let fg = tf.foreground_color.spec_to_nibble();
    let bg = tf.background_color.spec_to_nibble();
    let c = tf.spec_color_byte();
    assert(fg < 16);
    assert(bg < 16);
    assert((c & 0b1111) == fg && ((c >> 4) & 0b1111) == bg) by (bit_vector)
        requires
            c == (bg << 4) | fg,
            fg < 16,
            bg < 16,
    ;
    lemma_color_round_trip(tf.foreground_color);
    lemma_color_round_trip(tf.background_color);

    match tf.span {
        Span::StartLength { start_position, length } => {
            assert(start_position as u8 != 0 && (start_position as u8) as usize == start_position
                && (length as u8) as usize == length) by (bit_vector)
                requires
                    1 <= start_position <= 255,
                    length <= 255,
            ;
        },
        Span::Default => {},
    }
}

/// Re-encoding any descriptor whose span is the default span always emits
/// 0 for both the start-position byte and the length byte.
pub proof fn lemma_default_span_encodes_zero(tf: TextFormatting)
    requires
        tf.span is Default,
    ensures
        tf.spec_to_ied() matches Ok(bytes) && bytes[0] == 0 && bytes[1] == 0,
{
}

} // verus!
