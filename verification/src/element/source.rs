//! Text sources: plain text, or rich text made of styled spans.

use vstd::prelude::*;
use vstd::slice::slice_index_get;
use vstd::string::StringExecFns;
use vstd::utf8::encode_utf8;

use super::{Color, FontFamily, FontStyle, FontWeight};

verus! {

/// Source of text and its properties for text operations.
#[derive(Debug, Clone, PartialEq)]
pub enum Source<T> {
    /// Plain text.
    ///
    /// Has the same formatting for all text.
    Plain(String),
    /// Rich text.
    ///
    /// Made up of individual [`Span`]s that can override the formatting of
    /// the text.
    Rich(Vec<Span<T>>),
}

/// Reference to a [`Source`].
#[derive(Debug, Clone, Copy, PartialEq)]
pub enum SourceRef<'a, T> {
    /// Plain text.
    Plain(&'a str),
    /// Rich text.
    Rich(&'a [Span<T>]),
}

/// A section of text.
///
/// Every override is optional; an absent override means "inherit the
/// corresponding field of the enclosing [`TextStyle`](super::TextStyle)",
/// not "use a hardcoded default".
#[derive(Debug, Clone, PartialEq)]
pub struct Span<T> {
    /// The text in the span.
    pub source: String,
    /// The font family of this span.
    pub font_family: Option<FontFamily>,
    /// The font style of this span.
    pub font_style: Option<FontStyle>,
    /// The font weight of this span.
    pub font_weight: Option<FontWeight>,
    /// The color of this span.
    pub color: Option<Color<T>>,
    /// The size of this span.
    pub size: Option<T>,
}

/// The ordered concatenation of the spans' texts, with no separators.
pub open spec fn spans_text<T>(spans: Seq<Span<T>>) -> Seq<char>
    decreases spans.len(),
{
    if spans.len() == 0 {
        Seq::empty()
    } else {
        spans_text(spans.drop_last()) + spans.last().source@
    }
}

/// Extending the span list appends exactly that span's text.
pub proof fn lemma_spans_text_take_succ<T>(spans: Seq<Span<T>>, i: int)
    requires
        0 <= i < spans.len(),
    ensures
        spans_text(spans.take(i + 1)) == spans_text(spans.take(i)) + spans[i].source@,
{
    assert(spans.take(i + 1).drop_last() =~= spans.take(i));
    assert(spans.take(i + 1).last() == spans[i]);
}

/// The UTF-8 byte length of one span's text.
pub open spec fn span_byte_len<T>(span: Span<T>) -> nat {
    encode_utf8(span.source@).len()
}

/// The total UTF-8 byte length of the spans' texts.
pub open spec fn spans_byte_len<T>(spans: Seq<Span<T>>) -> nat
    decreases spans.len(),
{
    if spans.len() == 0 {
        0
    } else {
        spans_byte_len(spans.drop_last()) + span_byte_len(spans.last())
    }
}

/// Extending the span list adds exactly that span's byte length.
pub proof fn lemma_spans_byte_len_take_succ<T>(spans: Seq<Span<T>>, i: int)
    requires
        0 <= i < spans.len(),
    ensures
        spans_byte_len(spans.take(i + 1)) == spans_byte_len(spans.take(i)) + span_byte_len(
            spans[i],
        ),
{
    assert(spans.take(i + 1).drop_last() =~= spans.take(i));
    assert(spans.take(i + 1).last() == spans[i]);
}

/// The byte length of a prefix never exceeds the total byte length.
pub proof fn lemma_spans_byte_len_take_le<T>(spans: Seq<Span<T>>, i: int)
    requires
        0 <= i <= spans.len(),
    ensures
        spans_byte_len(spans.take(i)) <= spans_byte_len(spans),
    decreases spans.len() - i,
{
    if i == spans.len() {
        assert(spans.take(i) =~= spans);
    } else {
        lemma_spans_byte_len_take_succ(spans, i);
        lemma_spans_byte_len_take_le(spans, i + 1);
    }
}

impl<T> Source<T> {
    /// The text of this source, at the specification level: the plain text
    /// itself, or the concatenation of the spans' texts.
    pub open spec fn spec_text(self) -> Seq<char> {
        match self {
            Source::Plain(text) => text@,
            Source::Rich(spans) => spans_text(spans@),
        }
    }

    /// The text of this source.
    ///
    /// For a rich source this is the ordered concatenation of each span's
    /// text with no separators.
    pub fn text(&self) -> (r: String)
        ensures
            r@ == self.spec_text(),
    {
        match self {
            Source::Plain(text) => text.clone(),
            Source::Rich(spans) => concat_span_texts_vec(spans),
        }
    }
}

impl<'a, T> SourceRef<'a, T> {
    /// The text of this source, at the specification level.
    pub open spec fn spec_text(self) -> Seq<char> {
        match self {
            SourceRef::Plain(text) => text@,
            SourceRef::Rich(spans) => spans_text(spans@),
        }
    }

    /// The text of this source.
    ///
    /// For a rich source this is the ordered concatenation of each span's
    /// text with no separators.
    pub fn text(&self) -> (r: String)
        ensures
            r@ == self.spec_text(),
    {
        match self {
            SourceRef::Plain(text) => (*text).to_owned(),
            SourceRef::Rich(spans) => concat_span_texts(spans),
        }
    }
}

/// Concatenates the texts of a vector of spans.
fn concat_span_texts_vec<T>(spans: &Vec<Span<T>>) -> (r: String)
    ensures
        r@ == spans_text(spans@),
{
    let mut acc = String::new();
    let mut i: usize = 0;

    proof {
        assert(spans@.take(0) =~= Seq::<Span<T>>::empty());
    }

    while i < spans.len()
        invariant
            i <= spans@.len(),
            acc@ == spans_text(spans@.take(i as int)),
        decreases spans@.len() - i,
    {
        proof {
            lemma_spans_text_take_succ(spans@, i as int);
        }

        acc.append(spans[i].source.as_str());

        i = i + 1;
    }

    proof {
        assert(spans@.take(spans@.len() as int) =~= spans@);
    }

    acc
}

/// Concatenates the texts of a slice of spans.
fn concat_span_texts<T>(spans: &[Span<T>]) -> (r: String)
    ensures
        r@ == spans_text(spans@),
{
    let mut acc = String::new();
    let mut i: usize = 0;

    proof {
        assert(spans@.take(0) =~= Seq::<Span<T>>::empty());
    }

    while i < spans.len()
        invariant
            i <= spans@.len(),
            acc@ == spans_text(spans@.take(i as int)),
        decreases spans@.len() - i,
    {
        proof {
            lemma_spans_text_take_succ(spans@, i as int);
        }

        acc.append(slice_index_get(spans, i).source.as_str());

        i = i + 1;
    }

    proof {
        assert(spans@.take(spans@.len() as int) =~= spans@);
    }

    acc
}

/// Resolves the byte range each span's overrides apply to.
///
/// Range `i` starts at the cumulative UTF-8 byte length of the texts of
/// spans `0..i` and ends where span `i`'s own text ends, exactly as an
/// underlying shaping or layout engine expects them against the
/// concatenated text: because whole span texts are concatenated without
/// reencoding, every boundary falls on a codepoint boundary.
///
/// Returns `None` exactly when the total byte length does not fit in
/// `usize`.
pub fn span_ranges<T>(spans: &[Span<T>]) -> (r: Option<Vec<(usize, usize)>>)
    ensures
        match r {
            Some(ranges) => {
                &&& spans_byte_len(spans@) <= usize::MAX
                &&& ranges@.len() == spans@.len()
                &&& forall|i: int|
                    0 <= i < spans@.len() ==> (#[trigger] ranges@[i]).0 == spans_byte_len(
                        spans@.take(i),
                    ) && ranges@[i].1 == spans_byte_len(spans@.take(i + 1))
            },
            None => spans_byte_len(spans@) > usize::MAX,
        },
{
    let mut out: Vec<(usize, usize)> = Vec::new();
    let mut start: usize = 0;
    let mut i: usize = 0;

    proof {
        assert(spans@.take(0) =~= Seq::<Span<T>>::empty());
    }

    while i < spans.len()
        invariant
            i <= spans@.len(),
            start == spans_byte_len(spans@.take(i as int)),
            out@.len() == i,
            forall|j: int|
                0 <= j < i ==> (#[trigger] out@[j]).0 == spans_byte_len(spans@.take(j))
                    && out@[j].1 == spans_byte_len(spans@.take(j + 1)),
        decreases spans@.len() - i,
    {
        proof {
            lemma_spans_byte_len_take_succ(spans@, i as int);
            lemma_spans_byte_len_take_le(spans@, i as int + 1);
        }

        let len = slice_index_get(spans, i).source.as_str().as_bytes().len();

        proof {
            assert(len == span_byte_len(spans@[i as int]));
        }

        if len > usize::MAX - start {
            return None;
        }

        let end = start + len;

        out.push((start, end));

        start = end;
        i = i + 1;
    }

    proof {
        assert(spans@.take(spans@.len() as int) =~= spans@);
    }

    Some(out)
}

impl<T> Span<T> {
    /// Creates a new span from text.
    ///
    /// The returned span does not override any values.
    pub fn new(source: &str) -> (r: Self)
        ensures
            r.source@ == source@,
            r.font_family is None,
            r.font_style is None,
            r.font_weight is None,
            r.color is None,
            r.size is None,
    {
        Span {
            source: source.to_owned(),
            font_family: None,
            font_style: None,
            font_weight: None,
            color: None,
            size: None,
        }
    }

    /// Returns this span with a new font family.
    pub fn with_font_family(self, font_family: FontFamily) -> (r: Self)
        ensures
            r == (Span { font_family: Some(font_family), ..self }),
    {
        Span { font_family: Some(font_family), ..self }
    }

    /// Returns this span with a new font style.
    pub fn with_font_style(self, font_style: FontStyle) -> (r: Self)
        ensures
            r == (Span { font_style: Some(font_style), ..self }),
    {
        Span { font_style: Some(font_style), ..self }
    }

    /// Returns this span with a new font weight.
    pub fn with_font_weight(self, font_weight: FontWeight) -> (r: Self)
        ensures
            r == (Span { font_weight: Some(font_weight), ..self }),
    {
        Span { font_weight: Some(font_weight), ..self }
    }

    /// Returns this span with font style set to [`FontStyle::Italic`].
    pub fn with_italic(self) -> (r: Self)
        ensures
            r == (Span { font_style: Some(FontStyle::Italic), ..self }),
    {
        self.with_font_style(FontStyle::Italic)
    }

    /// Returns this span with font weight set to [`FontWeight::bold`].
    pub fn with_bold(self) -> (r: Self)
        ensures
            r.source == self.source,
            r.font_family == self.font_family,
            r.font_style == self.font_style,
            r.color == self.color,
            r.size == self.size,
            match r.font_weight {
                Some(weight) => weight.spec_get() == 700,
                None => false,
            },
    {
        self.with_font_weight(FontWeight::bold())
    }

    /// Returns this span with a new color.
    pub fn with_color(self, color: Color<T>) -> (r: Self)
        ensures
            r == (Span { color: Some(color), ..self }),
    {
        Span { color: Some(color), ..self }
    }

    /// Returns this span with a new size.
    pub fn with_size(self, size: T) -> (r: Self)
        ensures
            r == (Span { size: Some(size), ..self }),
    {
        Span { size: Some(size), ..self }
    }
}

impl<T> From<String> for Source<T> {
    fn from(text: String) -> Self {
        Source::Plain(text)
    }
}

impl<T> vstd::std_specs::convert::FromSpecImpl<String> for Source<T> {
    open spec fn obeys_from_spec() -> bool {
        true
    }

    open spec fn from_spec(text: String) -> Self {
        Source::Plain(text)
    }
}

impl<T> From<Vec<Span<T>>> for Source<T> {
    fn from(spans: Vec<Span<T>>) -> Self {
        Source::Rich(spans)
    }
}

impl<T> vstd::std_specs::convert::FromSpecImpl<Vec<Span<T>>> for Source<T> {
    open spec fn obeys_from_spec() -> bool {
        true
    }

    open spec fn from_spec(spans: Vec<Span<T>>) -> Self {
        Source::Rich(spans)
    }
}

impl<'a, T> From<&'a Source<T>> for SourceRef<'a, T> {
    fn from(source: &'a Source<T>) -> Self {
        match source {
            Source::Plain(text) => SourceRef::Plain(text.as_str()),
            Source::Rich(spans) => SourceRef::Rich(spans.as_slice()),
        }
    }
}

// A borrowed view cannot be written as a specification-level function of
// the source value, so the `From` impl promises nothing; `source_ref_of`
// is the same conversion with its contract.
impl<'a, T> vstd::std_specs::convert::FromSpecImpl<&'a Source<T>> for SourceRef<'a, T> {
    open spec fn obeys_from_spec() -> bool {
        false
    }

    open spec fn from_spec(source: &'a Source<T>) -> Self {
        arbitrary()
    }
}

/// A reference to a source carries the same text: both sides of the
/// conversion agree at the specification level.
pub fn source_ref_of<'a, T>(source: &'a Source<T>) -> (r: SourceRef<'a, T>)
    ensures
        r.spec_text() == source.spec_text(),
        match (source, r) {
            (Source::Plain(_), SourceRef::Plain(_)) => true,
            (Source::Rich(_), SourceRef::Rich(_)) => true,
            _ => false,
        },
{
    match source {
        Source::Plain(text) => SourceRef::Plain(text.as_str()),
        Source::Rich(spans) => SourceRef::Rich(spans.as_slice()),
    }
}

} // verus!
