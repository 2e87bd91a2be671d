use keibrush::element::source::{source_ref_of, span_ranges};
use keibrush::element::{
    Color, FontFamily, FontStyle, FontWeight, Source, SourceRef, Span, TextAlignment, TextStyle,
};

#[test]
fn rich_source_text_is_the_plain_concatenation() {
    let source = Source::<i64>::Rich(vec![Span::new("ab"), Span::new("cd")]);

    assert_eq!(source.text(), "abcd");
}

#[test]
fn plain_source_text_is_itself() {
    let source = Source::<i64>::Plain(String::from("hello"));

    assert_eq!(source.text(), "hello");
}

#[test]
fn source_ref_text_matches_source_text() {
    let source = Source::<i64>::Rich(vec![Span::new("ab"), Span::new("cd"), Span::new("")]);
    let source_ref = source_ref_of(&source);

    assert_eq!(source_ref.text(), source.text());

    let plain = SourceRef::<i64>::Plain("xyz");

    assert_eq!(plain.text(), "xyz");
}

#[test]
fn span_ranges_are_cumulative_byte_ranges() {
    let spans: Vec<Span<i64>> = vec![Span::new("ab"), Span::new("cd"), Span::new("")];
    let ranges = span_ranges(&spans).unwrap();

    assert_eq!(ranges, vec![(0, 2), (2, 4), (4, 4)]);
}

#[test]
fn span_ranges_count_utf8_bytes_not_characters() {
    // two bytes per character in the second span
    let spans: Vec<Span<i64>> = vec![Span::new("a"), Span::new("\u{e9}\u{e8}"), Span::new("z")];
    let ranges = span_ranges(&spans).unwrap();

    assert_eq!(ranges, vec![(0, 1), (1, 5), (5, 6)]);
}

#[test]
fn span_overrides_default_to_inherit() {
    let span = Span::<i64>::new("ab");

    assert_eq!(span.source, "ab");
    assert!(span.font_family.is_none());
    assert!(span.font_style.is_none());
    assert!(span.font_weight.is_none());
    assert!(span.color.is_none());
    assert!(span.size.is_none());
}

#[test]
fn span_builders_set_single_overrides() {
    let span = Span::<i64>::new("ab").with_font_family(FontFamily::Monospace);

    assert_eq!(span.font_family, Some(FontFamily::Monospace));

    let span = Span::<i64>::new("ab").with_font_style(FontStyle::Italic);

    assert_eq!(span.font_style, Some(FontStyle::Italic));

    let span = Span::<i64>::new("ab").with_italic();

    assert_eq!(span.font_style, Some(FontStyle::Italic));

    let span = Span::<i64>::new("ab").with_font_weight(FontWeight::new(500));

    assert_eq!(span.font_weight, Some(FontWeight::new(500)));

    let span = Span::<i64>::new("ab").with_bold();

    assert_eq!(span.font_weight, Some(FontWeight::bold()));

    let span = Span::<i64>::new("ab").with_color(Color::rgb(1, 0, 0));

    assert_eq!(span.color, Some(Color::rgb(1, 0, 0)));

    let span = Span::<i64>::new("ab").with_size(24);

    assert_eq!(span.size, Some(24));
}

#[test]
fn font_weights() {
    assert_eq!(FontWeight::bold().get(), 700);
    assert_eq!(FontWeight::normal().get(), 400);
    assert_eq!(FontWeight::default().get(), 400);
    assert_eq!(FontWeight::new(123).get(), 123);
}

#[test]
fn text_style_defaults() {
    let style = TextStyle::<i64>::default();

    assert_eq!(style.font.family, FontFamily::SansSerif);
    assert!(style.font.fallback.is_empty());
    assert_eq!(style.font.style, FontStyle::Normal);
    assert_eq!(style.font.weight, FontWeight::normal());
    assert_eq!(style.color, Color::rgb(1, 1, 1));
    assert_eq!(style.size, 16);
    assert_eq!(style.alignment, TextAlignment::Start);
}

#[test]
fn source_conversions() {
    let source: Source<i64> = Source::from(String::from("plain"));

    assert!(matches!(source, Source::Plain(_)));

    let source: Source<i64> = Source::from(vec![Span::new("a")]);

    assert!(matches!(source, Source::Rich(_)));

    let source_ref = SourceRef::from(&source);

    assert!(matches!(source_ref, SourceRef::Rich(_)));
}
