use text_formatting::Alignment;
use text_formatting::CodecError;
use text_formatting::Color;
use text_formatting::FontSize;
use text_formatting::Span;
use text_formatting::TextFormatting;

#[test]
fn main_alignment_u8() {
    assert_eq!(Alignment::from_bits(0b00), Alignment::Left);
    assert_eq!(Alignment::Left.to_bits(), 0b00);
    assert_eq!(Alignment::from_bits(0b01), Alignment::Center);
    assert_eq!(Alignment::Center.to_bits(), 0b01);
    assert_eq!(Alignment::from_bits(0b10), Alignment::Right);
    assert_eq!(Alignment::Right.to_bits(), 0b10);
    assert_eq!(Alignment::from_bits(0b11), Alignment::LanguageDependent);
    assert_eq!(Alignment::LanguageDependent.to_bits(), 0b11);
}

#[test]
fn main_font_size_u8() {
    assert_eq!(FontSize::from_bits(0b00), Ok(FontSize::Normal));
    assert_eq!(FontSize::Normal.to_bits(), 0b00);
    assert_eq!(FontSize::from_bits(0b01), Ok(FontSize::Large));
    assert_eq!(FontSize::Large.to_bits(), 0b01);
    assert_eq!(FontSize::from_bits(0b10), Ok(FontSize::Small));
    assert_eq!(FontSize::Small.to_bits(), 0b10);
}

#[test]
fn main_color_u8() {
    assert_eq!(Color::from_nibble(0b0000), Color::Black);
    assert_eq!(Color::Black.to_nibble(), 0b0000u8);
    assert_eq!(Color::from_nibble(0b0110), Color::DarkBlue);
    assert_eq!(Color::DarkBlue.to_nibble(), 0b0110);
    assert_eq!(Color::from_nibble(0b1001), Color::White);
    assert_eq!(Color::White.to_nibble(), 0b1001);
    assert_eq!(Color::from_nibble(0b1110), Color::BrightBlue);
    assert_eq!(Color::BrightBlue.to_nibble(), 0b1110);
}

#[test]
fn main_color_rgb() {
    assert_eq!(Color::Black.rgb(), (0x00, 0x00, 0x00));
    assert_eq!(Color::DarkBlue.rgb(), (0x00, 0x00, 0x7f));
    assert_eq!(Color::White.rgb(), (0xff, 0xff, 0xff));
    assert_eq!(Color::BrightBlue.rgb(), (0x00, 0x00, 0xff));
}

#[test]
fn text_formatting_alignment_u8() {
    assert_eq!(Alignment::from_bits(0b00), Alignment::Left);
    assert_eq!(Alignment::Left.to_bits(), 0b00);
    assert_eq!(Alignment::from_bits(0b01), Alignment::Center);
    assert_eq!(Alignment::Center.to_bits(), 0b01);
    assert_eq!(Alignment::from_bits(0b10), Alignment::Right);
    assert_eq!(Alignment::Right.to_bits(), 0b10);
    assert_eq!(Alignment::from_bits(0b11), Alignment::LanguageDependent);
    assert_eq!(Alignment::LanguageDependent.to_bits(), 0b11);
}

#[test]
fn text_formatting_font_size_u8() {
    assert_eq!(FontSize::from_bits(0b00), Ok(FontSize::Normal));
    assert_eq!(FontSize::Normal.to_bits(), 0b00);
    assert_eq!(FontSize::from_bits(0b01), Ok(FontSize::Large));
    assert_eq!(FontSize::Large.to_bits(), 0b01);
    assert_eq!(FontSize::from_bits(0b10), Ok(FontSize::Small));
    assert_eq!(FontSize::Small.to_bits(), 0b10);
}

#[test]
fn text_formatting_color_u8() {
    assert_eq!(Color::from_nibble(0b0000), Color::Black);
    assert_eq!(Color::Black.to_nibble(), 0b0000u8);
    assert_eq!(Color::from_nibble(0b0110), Color::DarkBlue);
    assert_eq!(Color::DarkBlue.to_nibble(), 0b0110);
    assert_eq!(Color::from_nibble(0b1001), Color::White);
    assert_eq!(Color::White.to_nibble(), 0b1001);
    assert_eq!(Color::from_nibble(0b1110), Color::BrightBlue);
    assert_eq!(Color::BrightBlue.to_nibble(), 0b1110);
}

#[test]
fn text_formatting_color_rgb() {
    assert_eq!(Color::Black.rgb(), (0x00, 0x00, 0x00));
    assert_eq!(Color::White.rgb(), (0xff, 0xff, 0xff));
}

#[test]
fn span_contains() {
    let default = Span::Default;
    assert!(default.contains(0));
    assert!(default.contains(1));
    assert!(default.contains(100));

    let span = Span::StartLength {
        start_position: 0,
        length: 2,
    };
    assert!(span.contains(0));
    assert!(span.contains(1));
    assert!(!span.contains(2));

    let span = Span::StartLength {
        start_position: 1,
        length: 2,
    };
    assert!(!span.contains(0));
    assert!(span.contains(1));
    assert!(span.contains(2));
    assert!(!span.contains(3));
}

#[test]
fn main_text_formatting_span_start_length() {
    let ied = [1, 5, 0b0000_00_00, 0b1001_0000];
    let tf = TextFormatting {
        span: Span::StartLength {
            start_position: 1,
            length: 5,
        },
        alignment: Alignment::Left,
        font_size: FontSize::Normal,
        bold: false,
        italic: false,
        underline: false,
        strikethrough: false,
        foreground_color: Color::Black,
        background_color: Color::White,
    };

    assert_eq!(TextFormatting::from_ied(&ied), Ok(tf));
    assert_eq!(tf.to_ied().unwrap(), ied);
}

#[test]
fn main_text_formatting_span_default() {
    let ied = [0, 0, 0b0000_00_00, 0b1001_0000];
    let tf = TextFormatting {
        span: Span::Default,
        alignment: Alignment::Left,
        font_size: FontSize::Normal,
        bold: false,
        italic: false,
        underline: false,
        strikethrough: false,
        foreground_color: Color::Black,
        background_color: Color::White,
    };

    assert_eq!(TextFormatting::from_ied(&ied), Ok(tf));
    assert_eq!(tf.to_ied().unwrap(), ied);
}

#[test]
fn main_text_formatting() {
    let ied = [1, 5, 0b1010_01_10, 0b0101_1010];
    let tf = TextFormatting {
        span: Span::StartLength {
            start_position: 1,
            length: 5,
        },
        alignment: Alignment::Right,
        font_size: FontSize::Large,
        bold: false,
        italic: true,
        underline: false,
        strikethrough: true,
        foreground_color: Color::BrightRed,
        background_color: Color::DarkCyan,
    };

    assert_eq!(TextFormatting::from_ied(&ied), Ok(tf));
    assert_eq!(tf.to_ied().unwrap(), ied);
}

#[test]
fn text_formatting_text_formatting_span_start_length() {
    let ied = [1, 5, 0b0000_00_00, 0b1001_0000];
    let tf = TextFormatting {
        span: Span::StartLength {
            start_position: 1,
            length: 5,
        },
        alignment: Alignment::Left,
        font_size: FontSize::Normal,
        bold: false,
        italic: false,
        underline: false,
        strikethrough: false,
        foreground_color: Color::Black,
        background_color: Color::White,
    };

    assert_eq!(TextFormatting::from_ied(&ied), Ok(tf));
    assert_eq!(tf.to_ied().unwrap(), ied);
}

#[test]
fn text_formatting_text_formatting_span_default() {
    let ied = [0, 0, 0b0000_00_00, 0b1001_0000];
    let tf = TextFormatting {
        span: Span::Default,
        alignment: Alignment::Left,
        font_size: FontSize::Normal,
        bold: false,
        italic: false,
        underline: false,
        strikethrough: false,
        foreground_color: Color::Black,
        background_color: Color::White,
    };

    assert_eq!(TextFormatting::from_ied(&ied), Ok(tf));
    assert_eq!(tf.to_ied().unwrap(), ied);
}

#[test]
fn text_formatting_text_formatting() {
    let ied = [1, 5, 0b1010_01_10, 0b0101_1010];
    let tf = TextFormatting {
        span: Span::StartLength {
            start_position: 1,
            length: 5,
        },
        alignment: Alignment::Right,
        font_size: FontSize::Large,
        bold: false,
        italic: true,
        underline: false,
        strikethrough: true,
        foreground_color: Color::BrightRed,
        background_color: Color::DarkCyan,
    };

    assert_eq!(TextFormatting::from_ied(&ied), Ok(tf));
    assert_eq!(tf.to_ied().unwrap(), ied);
}

#[test]
fn alignment_bits_bijection() {
    for bits in 0u8..4 {
        assert_eq!(Alignment::from_bits(bits).to_bits(), bits);
    }
}

#[test]
fn color_nibble_bijection() {
    for nibble in 0u8..16 {
        assert_eq!(Color::from_nibble(nibble).to_nibble(), nibble);
    }
}

#[test]
fn font_size_reserved_bits() {
    assert_eq!(FontSize::from_bits(0b11), Err(CodecError::ReservedValue));
    for bits in 0u8..3 {
        assert_eq!(FontSize::from_bits(bits).unwrap().to_bits(), bits);
    }
}

#[test]
fn from_ied_rejects_wrong_length() {
    assert_eq!(
        TextFormatting::from_ied(&[1, 5, 0]),
        Err(CodecError::InvalidLength)
    );
    assert_eq!(
        TextFormatting::from_ied(&[1, 5, 0, 0, 0]),
        Err(CodecError::InvalidLength)
    );
    assert_eq!(TextFormatting::from_ied(&[]), Err(CodecError::InvalidLength));
}

#[test]
fn from_ied_rejects_reserved_font_size() {
    assert_eq!(
        TextFormatting::from_ied(&[1, 5, 0b0000_11_00, 0b1001_0000]),
        Err(CodecError::ReservedValue)
    );
}

#[test]
fn to_ied_rejects_out_of_range_span() {
    let mut tf = TextFormatting::default();
    tf.span = Span::StartLength {
        start_position: 300,
        length: 5,
    };
    assert_eq!(tf.to_ied(), Err(CodecError::OutOfRange));

    tf.span = Span::StartLength {
        start_position: 5,
        length: 300,
    };
    assert_eq!(tf.to_ied(), Err(CodecError::OutOfRange));
}

#[test]
fn default_descriptor() {
    let tf = TextFormatting::default();
    assert_eq!(tf.span, Span::Default);
    assert_eq!(tf.alignment, Alignment::Left);
    assert_eq!(tf.font_size, FontSize::Normal);
    assert!(!tf.bold && !tf.italic && !tf.underline && !tf.strikethrough);
    assert_eq!(tf.foreground_color, Color::Black);
    assert_eq!(tf.background_color, Color::White);
}

#[test]
fn length_byte_ignored_when_start_is_zero() {
    let tf = TextFormatting::from_ied(&[0, 77, 0, 0b1001_0000]).unwrap();
    assert_eq!(tf.span, Span::Default);
    assert_eq!(tf.to_ied().unwrap(), [0, 0, 0, 0b1001_0000]);
}

#[test]
fn mode_byte_flags() {
    let tf = TextFormatting::from_ied(&[1, 1, 0b1111_00_01, 0b0000_0000]).unwrap();
    assert_eq!(tf.alignment, Alignment::Center);
    assert_eq!(tf.font_size, FontSize::Normal);
    assert!(tf.bold && tf.italic && tf.underline && tf.strikethrough);
    assert_eq!(tf.to_ied().unwrap(), [1, 1, 0b1111_00_01, 0b0000_0000]);
}
