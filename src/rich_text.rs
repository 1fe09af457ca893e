use vstd::prelude::*;

verus! {

/// How the lines of a text are aligned.
#[derive(Clone, Copy, Debug, PartialEq, Eq, Structural)]
pub enum Justify {
    Left,
    Center,
    Right,
    Justified,
}

/// Where a text may break lines.
#[derive(Clone, Copy, Debug, PartialEq, Eq, Structural)]
pub enum LineBreak {
    WordBoundary,
    AnyCharacter,
    WordOrCharacter,
    NoWrap,
}

/// An sRGB color with alpha, one byte per channel.
#[derive(Clone, Copy, Debug, PartialEq, Eq, Structural)]
pub struct Rgba {
    pub r: u8,
    pub g: u8,
    pub b: u8,
    pub a: u8,
}

/// The label of the step that turns rich text into text spans.
#[derive(Clone, Copy, Debug, PartialEq, Eq, Hash, Structural)]
pub struct RichTextSystems;

/// The style of one section of rich text.
#[derive(Clone, Copy, Debug, PartialEq, Eq, Structural)]
pub struct TextStyle {
    /// The font asset, 0 for the default font.
    pub font: u64,
    /// The font size in sub-pixel units.
    pub font_size: i32,
    pub color: Rgba,
}

/// Font size of the default style: 20 pixels.
pub const DEFAULT_FONT_SIZE: i32 = 1280;

pub open spec fn default_style() -> TextStyle {
    TextStyle { font: 0, font_size: DEFAULT_FONT_SIZE, color: Rgba { r: 255, g: 255, b: 255, a: 255 } }
}

impl Default for TextStyle {
    /// The default font, 20 pixels, opaque white.
    fn default() -> (r: TextStyle)
        ensures
            r == default_style(),
    {
        TextStyle { font: 0, font_size: DEFAULT_FONT_SIZE, color: Rgba { r: 255, g: 255, b: 255, a: 255 } }
    }
}

/// A run of text in one style.
#[derive(Clone, Debug)]
pub struct TextSection {
    pub value: String,
    pub style: TextStyle,
}

impl TextSection {
    pub fn new(value: String, style: TextStyle) -> (r: TextSection)
        ensures
            r.value == value,
            r.style == style,
    {
        TextSection { value, style }
    }

    /// An empty section in `style`.
    pub fn from_style(style: TextStyle) -> (r: TextSection)
        ensures
            r.value@.len() == 0,
            r.style == style,
    {
        TextSection { value: String::new(), style }
    }
}

impl From<String> for TextSection {
    /// `value` in the default style.
    fn from(value: String) -> (r: TextSection) {
        TextSection { value, style: TextStyle::default() }
    }
}

impl vstd::std_specs::convert::FromSpecImpl<String> for TextSection {
    open spec fn obeys_from_spec() -> bool {
        true
    }

    open spec fn from_spec(value: String) -> TextSection {
        TextSection { value, style: default_style() }
    }
}

impl From<&str> for TextSection {
    /// `value` in the default style.
    fn from(value: &str) -> (r: TextSection)
        ensures
            r.value@ == value@,
            r.style == default_style(),
    {
        TextSection {
            value: <String as vstd::string::StringExecFns>::from_str(value),
            style: TextStyle::default(),
        }
    }
}

// The new `String` equals no given value, only its characters do: the contract is the
// `ensures` above.
impl vstd::std_specs::convert::FromSpecImpl<&str> for TextSection {
    open spec fn obeys_from_spec() -> bool {
        false
    }

    open spec fn from_spec(value: &str) -> TextSection {
        choose|r: TextSection| r.value@ == value@ && r.style == default_style()
    }
}

/// Text made of sections, with its layout.
#[derive(Clone, Debug)]
pub struct RichText {
    pub sections: Vec<TextSection>,
    pub justify: Justify,
    pub linebreak_behavior: LineBreak,
}

impl Default for RichText {
    /// No sections, left-aligned, wrapped at word boundaries.
    fn default() -> (r: RichText)
        ensures
            r.sections@.len() == 0,
            r.justify == Justify::Left,
            r.linebreak_behavior == LineBreak::WordBoundary,
    {
        RichText { sections: Vec::new(), justify: Justify::Left, linebreak_behavior: LineBreak::WordBoundary }
    }
}

impl RichText {
    /// Text of one section.
    pub fn from_section(value: String, style: TextStyle) -> (r: RichText)
        ensures
            r.sections@.len() == 1,
            r.sections@[0].value == value,
            r.sections@[0].style == style,
            r.justify == Justify::Left,
            r.linebreak_behavior == LineBreak::WordBoundary,
    {
        let mut sections = Vec::new();
        sections.push(TextSection::new(value, style));
        RichText { sections, justify: Justify::Left, linebreak_behavior: LineBreak::WordBoundary }
    }

    /// Text of the given sections, in their order.
    pub fn from_sections(sections: Vec<TextSection>) -> (r: RichText)
        ensures
            r.sections == sections,
            r.justify == Justify::Left,
            r.linebreak_behavior == LineBreak::WordBoundary,
    {
        RichText { sections, justify: Justify::Left, linebreak_behavior: LineBreak::WordBoundary }
    }

    pub fn with_justify(self, justify: Justify) -> (r: RichText)
        ensures
            r == (RichText { justify, ..self }),
    {
        RichText { justify, ..self }
    }

    /// The same text, never broken into lines.
    pub fn with_no_wrap(self) -> (r: RichText)
        ensures
            r == (RichText { linebreak_behavior: LineBreak::NoWrap, ..self }),
    {
        RichText { linebreak_behavior: LineBreak::NoWrap, ..self }
    }
}

/// What to do with one child of a rich text element to make its text spans match the
/// sections.
#[derive(Clone, Copy, Debug, PartialEq, Eq, Structural)]
pub enum SpanAction {
    /// The child is not a text span: leave it.
    Skip,
    /// Write this section into the span.
    Write(usize),
    /// No section is left for the span: despawn it.
    Despawn,
}

/// The actions for each child, in order, and the first section that needs a new span:
/// sections from `spawn_from` on are spawned as new spans at the end.
#[derive(Clone, Debug)]
pub struct SpanPlan {
    pub actions: Vec<SpanAction>,
    pub spawn_from: usize,
}

/// The number of text spans among children `s`.
pub open spec fn count_spans(s: Seq<bool>) -> nat
    decreases s.len(),
{
    if s.len() == 0 {
        0
    } else {
        count_spans(s.drop_last()) + if s.last() {
            1nat
        } else {
            0nat
        }
    }
}

/// The action for child `i`: the `k`-th span gets section `k`, while there is one.
pub open spec fn span_action(s: Seq<bool>, i: int, n: nat) -> SpanAction {
    if !s[i] {
        SpanAction::Skip
    } else if count_spans(s.take(i)) < n {
        SpanAction::Write(count_spans(s.take(i)) as usize)
    } else {
        SpanAction::Despawn
    }
}

/// Plans the update of a rich text element's spans: `child_is_span` tells, for each
/// child in order, whether it is a text span, and there are `n_sections` sections.
pub fn plan_text_spans(child_is_span: &Vec<bool>, n_sections: usize) -> (r: SpanPlan)
    ensures
        r.actions@.len() == child_is_span@.len(),
        forall|i: int|
            0 <= i < child_is_span@.len() ==> r.actions@[i] == span_action(
                child_is_span@,
                i,
                n_sections as nat,
            ),
        r.spawn_from == if count_spans(child_is_span@) < n_sections {
            count_spans(child_is_span@)
        } else {
            n_sections as nat
        },
{
    let ghost s = child_is_span@;
    let mut actions: Vec<SpanAction> = Vec::new();
    let mut next: usize = 0;
    let mut i: usize = 0;
    assert(s.take(0) =~= Seq::<bool>::empty());
    while i < child_is_span.len()
        invariant
            i <= s.len(),
            s == child_is_span@,
            actions@.len() == i,
            next == if count_spans(s.take(i as int)) < n_sections {
                count_spans(s.take(i as int))
            } else {
                n_sections as nat
            },
            forall|j: int| 0 <= j < i ==> actions@[j] == span_action(s, j, n_sections as nat),
        decreases s.len() - i,
    {
        assert(s.take(i + 1).drop_last() =~= s.take(i as int));
        if !child_is_span[i] {
            actions.push(SpanAction::Skip);
        } else if next == n_sections {
            actions.push(SpanAction::Despawn);
        } else {
            actions.push(SpanAction::Write(next));
            next = next + 1;
        }
        i = i + 1;
    }
    assert(s.take(s.len() as int) =~= s);
    SpanPlan { actions, spawn_from: next }
}

} // verus!
